//! What a handover to the desktop app does to the system that it runs on.
use vstd::prelude::*;

use crate::desktop::{
    launch_start, pending_url, CommandOutputView, DesktopActionView, DesktopArgumentView,
    DesktopFilesView, DesktopPlatform, DesktopReplyView, InstalledPathView, LaunchView,
    LAUNCH_SCRIPT, LOCATE_PACKAGE_COMMAND,
};
use crate::text::{trim_end, trim_start};

verus! {

/// A system: what comes of each thing that can be asked of it.
pub struct SystemView {
    pub is_wsl: bool,
    /// What comes of running a program with arguments, its output captured or not.
    pub runs: spec_fn(Seq<char>, Seq<Seq<char>>, bool) -> Result<CommandOutputView, Seq<char>>,
    /// What is found at two paths.
    pub finds: spec_fn(InstalledPathView, InstalledPathView) -> DesktopFilesView,
    /// What comes of starting a program with arguments in a directory.
    pub spawns: spec_fn(
        InstalledPathView,
        Seq<DesktopArgumentView>,
        InstalledPathView,
    ) -> Result<(), Seq<char>>,
}

impl SystemView {
    /// What comes back for `action`.
    pub open spec fn reply(self, action: DesktopActionView) -> DesktopReplyView {
        match action {
            DesktopActionView::DetectWsl => DesktopReplyView::Wsl(self.is_wsl),
            DesktopActionView::Run { program, args, captures_output } => DesktopReplyView::Ran(
                (self.runs)(program, args, captures_output),
            ),
            DesktopActionView::FindFiles { exe, app } => DesktopReplyView::Files(
                (self.finds)(exe, app),
            ),
            DesktopActionView::Spawn { program, args, current_dir } => DesktopReplyView::Spawned(
                (self.spawns)(program, args, current_dir),
            ),
        }
    }

    /// What a handover asks of this system, in order, up to `actions` things.
    pub open spec fn asked(self, launch: LaunchView, actions: nat) -> Seq<DesktopActionView>
        decreases actions,
    {
        match launch.action() {
            Some(action) if actions > 0 => seq![action] + self.asked(
                launch.after(self.reply(action)),
                (actions - 1) as nat,
            ),
            _ => seq![],
        }
    }

    /// Where a handover stands once this system has done up to `actions` of the things it asks for.
    pub open spec fn end(self, launch: LaunchView, actions: nat) -> LaunchView
        decreases actions,
    {
        match launch.action() {
            Some(action) if actions > 0 => self.end(
                launch.after(self.reply(action)),
                (actions - 1) as nat,
            ),
            _ => launch,
        }
    }
}

/// Everywhere but where there is no desktop app, the handover begins with the whole URL that was
/// asked for.
pub proof fn law_the_handover_begins_with_the_url(platform: DesktopPlatform, url: Seq<char>)
    ensures
        platform is Other <==> launch_start(platform, url) is Finished,
        !(platform is Other) ==> pending_url(launch_start(platform, url)) == Some(url),
{
}

/// On macOS, `open` is run with the URL and nothing else is done. The session is handed over exactly
/// where that command succeeds.
pub proof fn law_on_macos(system: SystemView, url: Seq<char>, actions: nat)
    requires
        actions >= 1,
    ensures
        ({
            let start = launch_start(DesktopPlatform::MacOs, url);
            let outcome = system.end(start, actions)->outcome;
            &&& system.asked(start, actions) == seq![
                DesktopActionView::Run { program: "open"@, args: seq![url], captures_output: false },
            ]
            &&& system.end(start, actions) is Finished
            &&& match (system.runs)("open"@, seq![url], false) {
                Ok(output) => {
                    &&& outcome is Ok <==> output.success
                    &&& !output.success ==> outcome == Err::<(), Seq<char>>(
                        "`open "@ + url + "` exited with "@ + output.status,
                    )
                },
                Err(message) => outcome == Err::<(), Seq<char>>(
                    "failed to invoke `open`: "@ + message,
                ),
            }
        }),
{
    reveal_with_fuel(SystemView::asked, 3);
    reveal_with_fuel(SystemView::end, 3);
    let start = launch_start(DesktopPlatform::MacOs, url);
    let action = start.action()->0;
    assert(start.after(system.reply(action)).action() is None);
    assert(system.asked(start, actions) =~= seq![action]);
}

/// On Linux it is found out first whether it runs under Windows. Where it does, the launch script is
/// run with the URL and nothing else is done, and the session is handed over exactly where that
/// command succeeds. Where it does not, nothing else is done and the handover fails.
pub proof fn law_on_linux(system: SystemView, url: Seq<char>, actions: nat)
    requires
        actions >= 2,
    ensures
        ({
            let start = launch_start(DesktopPlatform::Linux, url);
            let outcome = system.end(start, actions)->outcome;
            let args = seq!["-NoProfile"@, "-Command"@, LAUNCH_SCRIPT@, url];
            &&& system.end(start, actions) is Finished
            &&& !system.is_wsl ==> {
                &&& system.asked(start, actions) == seq![DesktopActionView::DetectWsl]
                &&& outcome == Err::<(), Seq<char>>(
                    "Codex Desktop is only available on macOS and Windows"@,
                )
            }
            &&& system.is_wsl ==> {
                &&& system.asked(start, actions) == seq![
                    DesktopActionView::DetectWsl,
                    DesktopActionView::Run {
                        program: "powershell.exe"@,
                        args,
                        captures_output: true,
                    },
                ]
                &&& match (system.runs)("powershell.exe"@, args, true) {
                    Ok(output) => {
                        let told = trim_end(trim_start(output.stderr));
                        &&& outcome is Ok <==> output.success
                        &&& !output.success && told.len() > 0 ==> outcome == Err::<(), Seq<char>>(
                            told,
                        )
                        &&& !output.success && told.len() == 0 ==> outcome == Err::<(), Seq<char>>(
                            "failed to launch Codex Desktop through PowerShell with "@
                                + output.status,
                        )
                    },
                    Err(message) => outcome == Err::<(), Seq<char>>(
                        "failed to launch Codex Desktop through PowerShell: "@ + message,
                    ),
                }
            }
        }),
{
    reveal_with_fuel(SystemView::asked, 4);
    reveal_with_fuel(SystemView::end, 4);
    let start = launch_start(DesktopPlatform::Linux, url);
    let next = start.after(DesktopReplyView::Wsl(system.is_wsl));
    if system.is_wsl {
        let action = next.action()->0;
        assert(next.after(system.reply(action)).action() is None);
        assert(system.asked(start, actions) =~= seq![DesktopActionView::DetectWsl, action]);
    } else {
        assert(system.asked(start, actions) =~= seq![DesktopActionView::DetectWsl]);
    }
}

/// A path below where the desktop app is installed.
pub open spec fn installed(install_location: Seq<char>, names: Seq<Seq<char>>) -> InstalledPathView {
    InstalledPathView { install_location, names }
}

/// On Windows it is asked first where the desktop app is installed. Where it is, its two files are
/// looked for there, and where both exist the executable is started there, with the bundle and the
/// URL. Nothing else is done, and the first thing that is missing or fails is told.
pub proof fn law_on_windows(system: SystemView, url: Seq<char>, actions: nat)
    requires
        actions >= 3,
    ensures
        ({
            let start = launch_start(DesktopPlatform::Windows, url);
            let outcome = system.end(start, actions)->outcome;
            let asked = system.asked(start, actions);
            let args = seq!["-NoProfile"@, "-Command"@, LOCATE_PACKAGE_COMMAND@];
            let locate = DesktopActionView::Run {
                program: "powershell.exe"@,
                args,
                captures_output: true,
            };
            &&& system.end(start, actions) is Finished
            &&& match (system.runs)("powershell.exe"@, args, true) {
                Err(message) => {
                    &&& asked == seq![locate]
                    &&& outcome == Err::<(), Seq<char>>(
                        "failed to locate Codex Desktop package: "@ + message,
                    )
                },
                Ok(output) => {
                    let location = trim_end(trim_start(output.stdout));
                    let exe = installed(location, seq!["app"@, "Codex.exe"@]);
                    let app = installed(location, seq!["app"@, "resources"@, "app.asar"@]);
                    let app_dir = installed(location, seq!["app"@]);
                    let spawn_args = seq![
                        DesktopArgumentView::Path(app),
                        DesktopArgumentView::Text(url),
                    ];
                    let find = DesktopActionView::FindFiles { exe, app };
                    let files = (system.finds)(exe, app);
                    let spawned = (system.spawns)(exe, spawn_args, app_dir);
                    if !output.success {
                        &&& asked == seq![locate]
                        &&& outcome == Err::<(), Seq<char>>(
                            "failed to locate Codex Desktop package with "@ + output.status,
                        )
                    } else if location.len() == 0 {
                        &&& asked == seq![locate]
                        &&& outcome == Err::<(), Seq<char>>(
                            "Codex Desktop package is not installed"@,
                        )
                    } else if !files.exe_exists {
                        &&& asked == seq![locate, find]
                        &&& outcome == Err::<(), Seq<char>>(
                            "Codex Desktop executable not found at "@ + files.exe,
                        )
                    } else if !files.app_exists {
                        &&& asked == seq![locate, find]
                        &&& outcome == Err::<(), Seq<char>>(
                            "Codex Desktop app bundle not found at "@ + files.app,
                        )
                    } else {
                        &&& asked == seq![
                            locate,
                            find,
                            DesktopActionView::Spawn {
                                program: exe,
                                args: spawn_args,
                                current_dir: app_dir,
                            },
                        ]
                        &&& outcome is Ok <==> spawned is Ok
                        &&& spawned matches Err(message) ==> outcome == Err::<(), Seq<char>>(
                            "failed to launch Codex Desktop at "@ + files.exe + ": "@ + message,
                        )
                    }
                },
            }
        }),
{
    reveal_with_fuel(SystemView::asked, 5);
    reveal_with_fuel(SystemView::end, 5);
    let start = launch_start(DesktopPlatform::Windows, url);
    let locate = start.action()->0;
    let located = start.after(system.reply(locate));
    if located is Finished {
        assert(system.asked(start, actions) =~= seq![locate]);
    } else {
        let find = located.action()->0;
        let found = located.after(system.reply(find));
        if found is Finished {
            assert(system.asked(start, actions) =~= seq![locate, find]);
        } else {
            let spawn = found.action()->0;
            assert(found.after(system.reply(spawn)) is Finished);
            assert(system.asked(start, actions) =~= seq![locate, find, spawn]);
        }
    }
}

/// On any other system nothing is done, and the handover fails.
pub proof fn law_elsewhere(system: SystemView, url: Seq<char>, actions: nat)
    ensures
        ({
            let start = launch_start(DesktopPlatform::Other, url);
            &&& system.asked(start, actions).len() == 0
            &&& start == (LaunchView::Finished {
                outcome: Err("Codex Desktop is only available on macOS and Windows"@),
            })
        }),
{
}

/// A reply that a handover does not wait for changes nothing, and no reply does once it is over.
pub proof fn law_unexpected_replies_change_nothing(launch: LaunchView, reply: DesktopReplyView)
    ensures
        launch.after(reply) != launch ==> match launch {
            LaunchView::RunOpen { .. } => reply is Ran,
            LaunchView::DetectWsl { .. } => reply is Wsl,
            LaunchView::RunLaunchScript { .. } => reply is Ran,
            LaunchView::LocatePackage { .. } => reply is Ran,
            LaunchView::FindFiles { .. } => reply is Files,
            LaunchView::Spawn { .. } => reply is Spawned,
            LaunchView::Finished { .. } => false,
        },
{
}

/// The two PowerShell texts: the command prints where the package of the desktop app is installed,
/// and the script looks for the same package and the same two files and starts the same command.
pub proof fn law_powershell_texts()
    ensures
        LOCATE_PACKAGE_COMMAND@
            == "(Get-AppxPackage -Name OpenAI.Codex -ErrorAction SilentlyContinue).InstallLocation"@,
        LAUNCH_SCRIPT@
            == "\n$ErrorActionPreference = 'Stop'\n$installLocation = (Get-AppxPackage -Name OpenAI.Codex -ErrorAction SilentlyContinue).InstallLocation\nif ([string]::IsNullOrWhiteSpace($installLocation)) {\n    Write-Error 'Codex Desktop package is not installed'\n    exit 1\n}\n\n$appDir = Join-Path $installLocation 'app'\n$exe = Join-Path $appDir 'Codex.exe'\n$app = Join-Path $appDir 'resources\\app.asar'\nif (-not (Test-Path $exe)) {\n    Write-Error \"Codex Desktop executable not found at $exe\"\n    exit 1\n}\nif (-not (Test-Path $app)) {\n    Write-Error \"Codex Desktop app bundle not found at $app\"\n    exit 1\n}\n\nStart-Process -FilePath $exe -WorkingDirectory $appDir -ArgumentList @(\"\"\"$app\"\"\", \"\"\"$($args[0])\"\"\")\n"@,
{
}

} // verus!
