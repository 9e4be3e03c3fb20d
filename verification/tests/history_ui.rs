use std::path::PathBuf;

use codex_session::desktop::{
    desktop_file_paths, desktop_thread_url, open_desktop_thread_url, CommandOutput, DesktopAction,
    DesktopArgument, DesktopFiles, DesktopLaunch, DesktopPlatform, DesktopReply, InstalledPath,
    LAUNCH_SCRIPT, LOCATE_PACKAGE_COMMAND,
};
use codex_session::history_ui::{
    clear_terminal_ui, desktop_thread_message, open_desktop_thread, open_url_in_browser,
    AfterClear, AfterClearStep, App, ChatMessage, ChatStatus, SessionConfig, TerminalCommand, ViewportArea,
};

const UNAVAILABLE: &str = "Codex Desktop is only available on macOS and Windows";

fn output(success: bool, stdout: &str, stderr: &str) -> DesktopReply {
    DesktopReply::Ran(Ok(CommandOutput {
        success,
        status: "exit status: 1".to_string(),
        stdout: stdout.to_string(),
        stderr: stderr.to_string(),
    }))
}

fn not_run() -> DesktopReply {
    DesktopReply::Ran(Err("not found".to_string()))
}

fn files(exe_exists: bool, app_exists: bool) -> DesktopReply {
    DesktopReply::Files(DesktopFiles {
        exe: "C:\\Codex\\app\\Codex.exe".to_string(),
        exe_exists,
        app: "C:\\Codex\\app\\resources\\app.asar".to_string(),
        app_exists,
    })
}

fn outcome(launch: DesktopLaunch) -> Result<(), String> {
    match launch {
        DesktopLaunch::Finished { outcome } => outcome,
        _ => panic!("the handover is not over"),
    }
}

fn failure(message: &str) -> Result<(), String> {
    Err(message.to_string())
}

fn start(platform: DesktopPlatform) -> DesktopLaunch {
    open_desktop_thread_url(platform, "codex://threads/7")
}

fn assert_path(path: &InstalledPath, names: &[&str]) {
    assert_eq!(path.install_location, "C:\\Codex");
    assert_eq!(path.names, names);
}

#[test]
fn desktop_thread_url_targets_codex_threads_deep_link() {
    let thread_id = "0199a213-81c0-7800-8aa1-bbab2a035a53";

    assert_eq!(
        desktop_thread_url(thread_id),
        format!("codex://threads/{thread_id}")
    );
}

#[test]
fn macos_opens_the_url() {
    match start(DesktopPlatform::MacOs).action() {
        Some(DesktopAction::Run { program, args, captures_output }) => {
            assert_eq!(program, "open");
            assert_eq!(args, ["codex://threads/7"]);
            assert!(!captures_output);
        }
        _ => panic!("a command is to be run"),
    }
    assert_eq!(outcome(start(DesktopPlatform::MacOs).step(output(true, "", ""))), Ok(()));
    assert_eq!(
        outcome(start(DesktopPlatform::MacOs).step(output(false, "", ""))),
        failure("`open codex://threads/7` exited with exit status: 1")
    );
    assert_eq!(
        outcome(start(DesktopPlatform::MacOs).step(not_run())),
        failure("failed to invoke `open`: not found")
    );
}

#[test]
fn windows_starts_the_installed_app() {
    let launch = start(DesktopPlatform::Windows);
    match launch.action() {
        Some(DesktopAction::Run { program, args, captures_output }) => {
            assert_eq!(program, "powershell.exe");
            assert_eq!(args, ["-NoProfile", "-Command", LOCATE_PACKAGE_COMMAND]);
            assert!(captures_output);
        }
        _ => panic!("a command is to be run"),
    }
    let launch = launch.step(output(true, " C:\\Codex\r\n", ""));
    match launch.action() {
        Some(DesktopAction::FindFiles { exe, app }) => {
            assert_path(&exe, &["app", "Codex.exe"]);
            assert_path(&app, &["app", "resources", "app.asar"]);
        }
        _ => panic!("files are to be looked up"),
    }
    let launch = launch.step(files(true, true));
    match launch.action() {
        Some(DesktopAction::Spawn { program, args, current_dir }) => {
            assert_path(&program, &["app", "Codex.exe"]);
            match args.as_slice() {
                [DesktopArgument::Path(app), DesktopArgument::Text(url)] => {
                    assert_path(app, &["app", "resources", "app.asar"]);
                    assert_eq!(url, "codex://threads/7");
                }
                _ => panic!("the arguments are the bundle and the URL"),
            }
            assert_path(&current_dir, &["app"]);
        }
        _ => panic!("the app is to be started"),
    }
    let launch = launch.step(DesktopReply::Spawned(Ok(())));
    assert!(launch.action().is_none());
    assert_eq!(outcome(launch), Ok(()));
}

#[test]
fn the_parts_of_the_app_are_below_where_it_is_installed() {
    let paths = desktop_file_paths("C:\\Codex");
    assert_path(&paths.app_dir, &["app"]);
    assert_path(&paths.exe, &["app", "Codex.exe"]);
    assert_path(&paths.app, &["app", "resources", "app.asar"]);
}

#[test]
fn windows_tells_what_is_missing() {
    let located = || start(DesktopPlatform::Windows).step(output(true, "C:\\Codex", ""));
    assert_eq!(
        outcome(start(DesktopPlatform::Windows).step(not_run())),
        failure("failed to locate Codex Desktop package: not found")
    );
    assert_eq!(
        outcome(start(DesktopPlatform::Windows).step(output(false, "C:\\Codex", ""))),
        failure("failed to locate Codex Desktop package with exit status: 1")
    );
    assert_eq!(
        outcome(start(DesktopPlatform::Windows).step(output(true, " \r\n", ""))),
        failure("Codex Desktop package is not installed")
    );
    assert_eq!(
        outcome(located().step(files(false, false))),
        failure("Codex Desktop executable not found at C:\\Codex\\app\\Codex.exe")
    );
    assert_eq!(
        outcome(located().step(files(true, false))),
        failure("Codex Desktop app bundle not found at C:\\Codex\\app\\resources\\app.asar")
    );
    assert_eq!(
        outcome(
            located()
                .step(files(true, true))
                .step(DesktopReply::Spawned(Err("denied".to_string())))
        ),
        failure("failed to launch Codex Desktop at C:\\Codex\\app\\Codex.exe: denied")
    );
}

#[test]
fn linux_goes_through_powershell_under_windows_only() {
    assert!(matches!(
        start(DesktopPlatform::Linux).action(),
        Some(DesktopAction::DetectWsl)
    ));
    assert_eq!(
        outcome(start(DesktopPlatform::Linux).step(DesktopReply::Wsl(false))),
        failure(UNAVAILABLE)
    );
    let wsl = || start(DesktopPlatform::Linux).step(DesktopReply::Wsl(true));
    match wsl().action() {
        Some(DesktopAction::Run { program, args, captures_output }) => {
            assert_eq!(program, "powershell.exe");
            assert_eq!(args, ["-NoProfile", "-Command", LAUNCH_SCRIPT, "codex://threads/7"]);
            assert!(captures_output);
        }
        _ => panic!("a command is to be run"),
    }
    assert_eq!(outcome(wsl().step(output(true, "", "ignored"))), Ok(()));
    assert_eq!(
        outcome(wsl().step(output(false, "", " no package\n"))),
        failure("no package")
    );
    assert_eq!(
        outcome(wsl().step(output(false, "", " \n"))),
        failure("failed to launch Codex Desktop through PowerShell with exit status: 1")
    );
    assert_eq!(
        outcome(wsl().step(not_run())),
        failure("failed to launch Codex Desktop through PowerShell: not found")
    );
}

#[test]
fn other_systems_have_no_desktop_app() {
    let launch = start(DesktopPlatform::Other);
    assert!(launch.action().is_none());
    assert_eq!(outcome(launch), failure(UNAVAILABLE));
}

#[test]
fn replies_that_no_handover_waits_for_change_nothing() {
    let launch = start(DesktopPlatform::MacOs)
        .step(DesktopReply::Wsl(true))
        .step(DesktopReply::Spawned(Ok(())));
    assert!(matches!(launch, DesktopLaunch::RunOpen { url } if url == "codex://threads/7"));
}

#[test]
fn the_launch_script_starts_the_app_with_the_url() {
    assert!(LAUNCH_SCRIPT.starts_with("\n$ErrorActionPreference = 'Stop'\n"));
    assert!(LAUNCH_SCRIPT.ends_with(
        "-ArgumentList @(\"\"\"$app\"\"\", \"\"\"$($args[0])\"\"\")\n"
    ));
}

#[test]
fn a_thread_is_handed_over_by_its_url() {
    assert!(matches!(
        open_desktop_thread(DesktopPlatform::Linux, "7"),
        DesktopLaunch::DetectWsl { url } if url == "codex://threads/7"
    ));
    assert_eq!(
        desktop_thread_message(Ok(())),
        ChatMessage::Info {
            message: "Opened this session in Codex Desktop.".to_string(),
            hint: None,
        }
    );
    assert_eq!(
        desktop_thread_message(failure("denied")),
        ChatMessage::Error(
            "Failed to open this session in Codex Desktop: denied. Install or launch Codex Desktop with `codex app` and try again."
                .to_string()
        )
    );
}

#[test]
fn the_chat_tells_what_came_of_opening_a_url() {
    assert_eq!(
        open_url_in_browser("https://x", Ok(())),
        ChatMessage::Info {
            message: "Opened https://x in your browser.".to_string(),
            hint: None,
        }
    );
    assert_eq!(
        open_url_in_browser("https://x", Err("no browser".to_string())),
        ChatMessage::Error("Failed to open browser for https://x: no browser".to_string())
    );
}

type TestApp = App<u8, u8, &'static str, u8, u8, u8, u8>;

fn app() -> TestApp {
    App {
        chat_widget: ChatStatus {
            current_model: "model".to_string(),
            current_reasoning_effort: Some(3),
            shows_fast_status: true,
        },
        config: SessionConfig { cwd: PathBuf::from("/work"), is_yolo_mode: true },
        overlay: Some(1),
        transcript_cells: vec![1, 2],
        deferred_history_lines: vec!["line"],
        has_emitted_history_lines: true,
        transcript_reflow: 9,
        initial_history_replay_buffer: Some(1),
        backtrack: 9,
        backtrack_render_pending: true,
    }
}

#[test]
fn the_header_tells_of_the_session() {
    let header = app().clear_ui_header_lines_with_version(80, "1.2.3");
    assert_eq!(header.model, "model");
    assert_eq!(header.reasoning_effort, Some(3));
    assert!(header.shows_fast_status);
    assert_eq!(header.directory, PathBuf::from("/work"));
    assert_eq!(header.version, "1.2.3");
    assert!(header.is_yolo_mode);
    assert_eq!(header.width, 80);
}

#[test]
fn the_scrollback_is_cleared_unless_the_alternate_screen_is_shown() {
    assert_eq!(
        clear_terminal_ui(true),
        [TerminalCommand::ClearPendingHistoryLines, TerminalCommand::ClearVisibleScreen]
    );
    assert_eq!(
        clear_terminal_ui(false),
        [
            TerminalCommand::ClearPendingHistoryLines,
            TerminalCommand::ClearScrollbackAndVisibleScreenAnsi
        ]
    );
}

#[test]
fn a_cleared_terminal_has_its_viewport_at_the_top() {
    let viewport = ViewportArea { x: 1, y: 5, width: 80, height: 10 };
    let mut cleared = app();
    let cleared_result: Result<(), String> = Ok(());
    assert_eq!(
        cleared.terminal_cleared(cleared_result.clone(), viewport, true),
        Ok(AfterClear {
            viewport: Some(ViewportArea { x: 1, y: 0, width: 80, height: 10 }),
            queue_header: true,
        })
    );
    assert!(!cleared.has_emitted_history_lines);
    assert_eq!(
        app().terminal_cleared(cleared_result, ViewportArea { y: 0, ..viewport }, false),
        Ok(AfterClear { viewport: None, queue_header: false })
    );
    let mut failed = app();
    assert_eq!(
        failed.terminal_cleared(Err("broken pipe"), viewport, true),
        Err("broken pipe")
    );
    assert!(failed.has_emitted_history_lines);
}

#[test]
fn the_viewport_moves_before_the_header_is_queued() {
    let area = ViewportArea { x: 1, y: 0, width: 80, height: 10 };
    let steps = |viewport: Option<ViewportArea>, queue_header: bool| {
        AfterClear { viewport, queue_header }.steps()
    };
    assert_eq!(
        steps(Some(area), true),
        [AfterClearStep::SetViewportArea(area), AfterClearStep::QueueHeader]
    );
    assert_eq!(steps(Some(area), false), [AfterClearStep::SetViewportArea(area)]);
    assert_eq!(steps(None, true), [AfterClearStep::QueueHeader]);
    assert_eq!(steps(None, false), []);
}

#[test]
fn an_empty_header_is_not_queued() {
    let mut app = app();
    app.has_emitted_history_lines = false;
    assert_eq!(app.queue_clear_ui_header(Vec::new()), None);
    assert!(!app.has_emitted_history_lines);
    assert_eq!(app.queue_clear_ui_header(vec!["a", "b"]), Some(vec!["a", "b"]));
    assert!(app.has_emitted_history_lines);
}

#[test]
fn a_reset_leaves_nothing_of_the_transcript() {
    let mut first = app();
    first.reset_app_ui_state_after_clear(0, 5);
    let mut second = app();
    second.reset_transcript_state_after_clear(0, 5);
    for app in [first, second] {
        assert!(app.overlay.is_none());
        assert!(app.transcript_cells.is_empty());
        assert!(app.deferred_history_lines.is_empty());
        assert!(!app.has_emitted_history_lines);
        assert_eq!(app.transcript_reflow, 0);
        assert!(app.initial_history_replay_buffer.is_none());
        assert_eq!(app.backtrack, 5);
        assert!(!app.backtrack_render_pending);
        assert_eq!(app.chat_widget.current_model, "model");
        assert!(app.config.is_yolo_mode);
    }
}
