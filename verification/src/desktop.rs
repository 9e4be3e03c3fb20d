//! Handing a session over to the desktop app.
//!
//! The handover is carried out in stages. Each stage but the last asks its host for one thing, and
//! goes on with what comes back.
use vstd::prelude::*;
use vstd::string::*;

use crate::text::{trim, trim_end, trim_start};

verus! {

/// The PowerShell command that prints where the desktop app is installed.
pub const LOCATE_PACKAGE_COMMAND: &'static str =
    "(Get-AppxPackage -Name OpenAI.Codex -ErrorAction SilentlyContinue).InstallLocation";

/// The PowerShell script that starts the desktop app with its first argument.
pub const LAUNCH_SCRIPT: &'static str =
    r#"
$ErrorActionPreference = 'Stop'
$installLocation = (Get-AppxPackage -Name OpenAI.Codex -ErrorAction SilentlyContinue).InstallLocation
if ([string]::IsNullOrWhiteSpace($installLocation)) {
    Write-Error 'Codex Desktop package is not installed'
    exit 1
}

$appDir = Join-Path $installLocation 'app'
$exe = Join-Path $appDir 'Codex.exe'
$app = Join-Path $appDir 'resources\app.asar'
if (-not (Test-Path $exe)) {
    Write-Error "Codex Desktop executable not found at $exe"
    exit 1
}
if (-not (Test-Path $app)) {
    Write-Error "Codex Desktop app bundle not found at $app"
    exit 1
}

Start-Process -FilePath $exe -WorkingDirectory $appDir -ArgumentList @("""$app""", """$($args[0])""")
"#;

/// The systems that are told apart.
#[derive(Clone, Copy, Debug, PartialEq, Eq, Structural)]
pub enum DesktopPlatform {
    MacOs,
    Windows,
    Linux,
    Other,
}

/// What came of a command.
pub struct CommandOutput {
    pub success: bool,
    /// The exit status, as it is shown to people.
    pub status: String,
    pub stdout: String,
    pub stderr: String,
}

/// A path below where the desktop app is installed: each of `names` is joined in turn to
/// `install_location`.
pub struct InstalledPath {
    pub install_location: String,
    pub names: Vec<&'static str>,
}

/// Where the parts of the desktop app are.
pub struct DesktopFilePaths {
    /// The directory that the app runs in.
    pub app_dir: InstalledPath,
    /// The executable.
    pub exe: InstalledPath,
    /// The bundle that the executable runs.
    pub app: InstalledPath,
}

/// The executable and the bundle of the desktop app as they were found: their paths, as they are
/// shown to people, and whether they exist.
pub struct DesktopFiles {
    pub exe: String,
    pub exe_exists: bool,
    pub app: String,
    pub app_exists: bool,
}

/// How far a handover has come, with what it waits for.
pub enum DesktopLaunch {
    /// macOS opens the URL.
    RunOpen { url: String },
    /// It is to be found out whether this Linux runs under Windows.
    DetectWsl { url: String },
    /// PowerShell, reached from Linux, starts the desktop app.
    RunLaunchScript { url: String },
    /// PowerShell prints where the desktop app is installed.
    LocatePackage { url: String },
    /// The files of the desktop app are to be looked up.
    FindFiles { url: String, install_location: String },
    /// The desktop app is to be started.
    Spawn { url: String, install_location: String, files: DesktopFiles },
    /// The handover is over.
    Finished { outcome: Result<(), String> },
}

/// What comes back for what a handover waits for; foreign errors come as their message.
pub enum DesktopReply {
    Wsl(bool),
    Ran(Result<CommandOutput, String>),
    Files(DesktopFiles),
    Spawned(Result<(), String>),
}

/// An argument of a command.
pub enum DesktopArgument {
    Path(InstalledPath),
    Text(String),
}

/// What a handover asks its host to do.
pub enum DesktopAction {
    /// Find out whether this Linux runs under Windows.
    DetectWsl,
    /// Run a command to its end. Its output is captured where it is needed, else left to the
    /// terminal.
    Run { program: String, args: Vec<String>, captures_output: bool },
    /// Find out how two paths are shown to people, and whether they exist.
    FindFiles { exe: InstalledPath, app: InstalledPath },
    /// Start a command and leave it running.
    Spawn { program: InstalledPath, args: Vec<DesktopArgument>, current_dir: InstalledPath },
}

/// What a [`CommandOutput`] holds.
#[verifier::ext_equal]
pub struct CommandOutputView {
    pub success: bool,
    pub status: Seq<char>,
    pub stdout: Seq<char>,
    pub stderr: Seq<char>,
}

/// What an [`InstalledPath`] holds.
#[verifier::ext_equal]
pub struct InstalledPathView {
    pub install_location: Seq<char>,
    pub names: Seq<Seq<char>>,
}

/// What a [`DesktopArgument`] holds.
#[verifier::ext_equal]
pub enum DesktopArgumentView {
    Path(InstalledPathView),
    Text(Seq<char>),
}

/// What a [`DesktopFiles`] holds.
#[verifier::ext_equal]
pub struct DesktopFilesView {
    pub exe: Seq<char>,
    pub exe_exists: bool,
    pub app: Seq<char>,
    pub app_exists: bool,
}

/// What a [`DesktopLaunch`] holds.
pub enum LaunchView {
    RunOpen { url: Seq<char> },
    DetectWsl { url: Seq<char> },
    RunLaunchScript { url: Seq<char> },
    LocatePackage { url: Seq<char> },
    FindFiles { url: Seq<char>, install_location: Seq<char> },
    Spawn { url: Seq<char>, install_location: Seq<char>, files: DesktopFilesView },
    Finished { outcome: Result<(), Seq<char>> },
}

/// What a [`DesktopReply`] holds.
pub enum DesktopReplyView {
    Wsl(bool),
    Ran(Result<CommandOutputView, Seq<char>>),
    Files(DesktopFilesView),
    Spawned(Result<(), Seq<char>>),
}

/// What a [`DesktopAction`] holds.
#[verifier::ext_equal]
pub enum DesktopActionView {
    DetectWsl,
    Run { program: Seq<char>, args: Seq<Seq<char>>, captures_output: bool },
    FindFiles { exe: InstalledPathView, app: InstalledPathView },
    Spawn {
        program: InstalledPathView,
        args: Seq<DesktopArgumentView>,
        current_dir: InstalledPathView,
    },
}

impl View for CommandOutput {
    type V = CommandOutputView;

    open spec fn view(&self) -> CommandOutputView {
        CommandOutputView {
            success: self.success,
            status: self.status@,
            stdout: self.stdout@,
            stderr: self.stderr@,
        }
    }
}

impl View for InstalledPath {
    type V = InstalledPathView;

    open spec fn view(&self) -> InstalledPathView {
        InstalledPathView {
            install_location: self.install_location@,
            names: self.names.deep_view(),
        }
    }
}

impl View for DesktopArgument {
    type V = DesktopArgumentView;

    open spec fn view(&self) -> DesktopArgumentView {
        match self {
            DesktopArgument::Path(path) => DesktopArgumentView::Path(path@),
            DesktopArgument::Text(text) => DesktopArgumentView::Text(text@),
        }
    }
}

impl DeepView for DesktopArgument {
    type V = DesktopArgumentView;

    open spec fn deep_view(&self) -> DesktopArgumentView {
        self@
    }
}

impl View for DesktopFiles {
    type V = DesktopFilesView;

    open spec fn view(&self) -> DesktopFilesView {
        DesktopFilesView {
            exe: self.exe@,
            exe_exists: self.exe_exists,
            app: self.app@,
            app_exists: self.app_exists,
        }
    }
}

/// An outcome, its message as the sequence of its characters.
pub open spec fn outcome_view(outcome: Result<(), String>) -> Result<(), Seq<char>> {
    match outcome {
        Ok(_) => Ok(()),
        Err(message) => Err(message@),
    }
}

/// What came of a command, or the message of why it could not be run.
pub open spec fn ran_view(ran: Result<CommandOutput, String>) -> Result<
    CommandOutputView,
    Seq<char>,
> {
    match ran {
        Ok(output) => Ok(output@),
        Err(message) => Err(message@),
    }
}

impl View for DesktopLaunch {
    type V = LaunchView;

    open spec fn view(&self) -> LaunchView {
        match self {
            DesktopLaunch::RunOpen { url } => LaunchView::RunOpen { url: url@ },
            DesktopLaunch::DetectWsl { url } => LaunchView::DetectWsl { url: url@ },
            DesktopLaunch::RunLaunchScript { url } => LaunchView::RunLaunchScript { url: url@ },
            DesktopLaunch::LocatePackage { url } => LaunchView::LocatePackage { url: url@ },
            DesktopLaunch::FindFiles { url, install_location } => LaunchView::FindFiles {
                url: url@,
                install_location: install_location@,
            },
            DesktopLaunch::Spawn { url, install_location, files } => LaunchView::Spawn {
                url: url@,
                install_location: install_location@,
                files: files@,
            },
            DesktopLaunch::Finished { outcome } => LaunchView::Finished {
                outcome: outcome_view(*outcome),
            },
        }
    }
}

impl View for DesktopReply {
    type V = DesktopReplyView;

    open spec fn view(&self) -> DesktopReplyView {
        match self {
            DesktopReply::Wsl(is_wsl) => DesktopReplyView::Wsl(*is_wsl),
            DesktopReply::Ran(ran) => DesktopReplyView::Ran(ran_view(*ran)),
            DesktopReply::Files(files) => DesktopReplyView::Files(files@),
            DesktopReply::Spawned(spawned) => DesktopReplyView::Spawned(outcome_view(*spawned)),
        }
    }
}

impl View for DesktopAction {
    type V = DesktopActionView;

    open spec fn view(&self) -> DesktopActionView {
        match self {
            DesktopAction::DetectWsl => DesktopActionView::DetectWsl,
            DesktopAction::Run { program, args, captures_output } => DesktopActionView::Run {
                program: program@,
                args: args.deep_view(),
                captures_output: *captures_output,
            },
            DesktopAction::FindFiles { exe, app } => DesktopActionView::FindFiles {
                exe: exe@,
                app: app@,
            },
            DesktopAction::Spawn { program, args, current_dir } => DesktopActionView::Spawn {
                program: program@,
                args: args.deep_view(),
                current_dir: current_dir@,
            },
        }
    }
}

impl DeepView for DesktopAction {
    type V = DesktopActionView;

    open spec fn deep_view(&self) -> DesktopActionView {
        self@
    }
}

/// The directory that the desktop app runs in: `app`, below where it is installed.
pub open spec fn app_dir_path(install_location: Seq<char>) -> InstalledPathView {
    InstalledPathView { install_location, names: seq!["app"@] }
}

/// The executable of the desktop app: `Codex.exe` in that directory.
pub open spec fn exe_path(install_location: Seq<char>) -> InstalledPathView {
    InstalledPathView { install_location, names: seq!["app"@, "Codex.exe"@] }
}

/// The bundle that the executable runs: `app.asar` below `resources` in that directory.
pub open spec fn app_path(install_location: Seq<char>) -> InstalledPathView {
    InstalledPathView { install_location, names: seq!["app"@, "resources"@, "app.asar"@] }
}

/// The handover has failed.
pub open spec fn failed(message: Seq<char>) -> LaunchView {
    LaunchView::Finished { outcome: Err(message) }
}

/// There is no desktop app for the system.
pub open spec fn unavailable() -> LaunchView {
    failed("Codex Desktop is only available on macOS and Windows"@)
}

/// Where a handover begins.
pub open spec fn launch_start(platform: DesktopPlatform, url: Seq<char>) -> LaunchView {
    match platform {
        DesktopPlatform::MacOs => LaunchView::RunOpen { url },
        DesktopPlatform::Windows => LaunchView::LocatePackage { url },
        DesktopPlatform::Linux => LaunchView::DetectWsl { url },
        DesktopPlatform::Other => unavailable(),
    }
}

/// macOS has opened the URL where `open` says so.
pub open spec fn after_open(url: Seq<char>, ran: Result<CommandOutputView, Seq<char>>) -> LaunchView {
    match ran {
        Err(message) => failed("failed to invoke `open`: "@ + message),
        Ok(output) => if output.success {
            LaunchView::Finished { outcome: Ok(()) }
        } else {
            failed("`open "@ + url + "` exited with "@ + output.status)
        },
    }
}

/// The launch script tells on its error output what went wrong.
pub open spec fn after_launch_script(ran: Result<CommandOutputView, Seq<char>>) -> LaunchView {
    match ran {
        Err(message) => failed("failed to launch Codex Desktop through PowerShell: "@ + message),
        Ok(output) => {
            let stderr = trim_end(trim_start(output.stderr));
            if output.success {
                LaunchView::Finished { outcome: Ok(()) }
            } else if stderr.len() == 0 {
                failed("failed to launch Codex Desktop through PowerShell with "@ + output.status)
            } else {
                failed(stderr)
            }
        },
    }
}

/// The desktop app is installed where something was printed.
pub open spec fn after_locate(url: Seq<char>, ran: Result<CommandOutputView, Seq<char>>) -> LaunchView {
    match ran {
        Err(message) => failed("failed to locate Codex Desktop package: "@ + message),
        Ok(output) => {
            let install_location = trim_end(trim_start(output.stdout));
            if !output.success {
                failed("failed to locate Codex Desktop package with "@ + output.status)
            } else if install_location.len() == 0 {
                failed("Codex Desktop package is not installed"@)
            } else {
                LaunchView::FindFiles { url, install_location }
            }
        },
    }
}

/// Both files of the desktop app have to exist.
pub open spec fn after_files(
    url: Seq<char>,
    install_location: Seq<char>,
    files: DesktopFilesView,
) -> LaunchView {
    if !files.exe_exists {
        failed("Codex Desktop executable not found at "@ + files.exe)
    } else if !files.app_exists {
        failed("Codex Desktop app bundle not found at "@ + files.app)
    } else {
        LaunchView::Spawn { url, install_location, files }
    }
}

/// The desktop app has taken over once it was started.
pub open spec fn after_spawn(files: DesktopFilesView, spawned: Result<(), Seq<char>>) -> LaunchView {
    match spawned {
        Err(message) => failed(
            "failed to launch Codex Desktop at "@ + files.exe + ": "@ + message,
        ),
        Ok(_) => LaunchView::Finished { outcome: Ok(()) },
    }
}

impl LaunchView {
    /// Where the handover goes from here on `reply`. A reply that nothing waits for changes
    /// nothing.
    pub open spec fn after(self, reply: DesktopReplyView) -> LaunchView {
        match (self, reply) {
            (LaunchView::RunOpen { url }, DesktopReplyView::Ran(ran)) => after_open(url, ran),
            (LaunchView::DetectWsl { url }, DesktopReplyView::Wsl(is_wsl)) => if is_wsl {
                LaunchView::RunLaunchScript { url }
            } else {
                unavailable()
            },
            (LaunchView::RunLaunchScript { .. }, DesktopReplyView::Ran(ran)) => {
                after_launch_script(ran)
            },
            (LaunchView::LocatePackage { url }, DesktopReplyView::Ran(ran)) => {
                after_locate(url, ran)
            },
            (
                LaunchView::FindFiles { url, install_location },
                DesktopReplyView::Files(files),
            ) => after_files(url, install_location, files),
            (LaunchView::Spawn { files, .. }, DesktopReplyView::Spawned(spawned)) => {
                after_spawn(files, spawned)
            },
            _ => self,
        }
    }

    /// What is asked of the host; nothing once the handover is over.
    pub open spec fn action(self) -> Option<DesktopActionView> {
        match self {
            LaunchView::RunOpen { url } => Some(
                DesktopActionView::Run {
                    program: "open"@,
                    args: seq![url],
                    captures_output: false,
                },
            ),
            LaunchView::DetectWsl { .. } => Some(DesktopActionView::DetectWsl),
            LaunchView::RunLaunchScript { url } => Some(
                DesktopActionView::Run {
                    program: "powershell.exe"@,
                    args: seq!["-NoProfile"@, "-Command"@, LAUNCH_SCRIPT@, url],
                    captures_output: true,
                },
            ),
            LaunchView::LocatePackage { .. } => Some(
                DesktopActionView::Run {
                    program: "powershell.exe"@,
                    args: seq!["-NoProfile"@, "-Command"@, LOCATE_PACKAGE_COMMAND@],
                    captures_output: true,
                },
            ),
            LaunchView::FindFiles { install_location, .. } => Some(
                DesktopActionView::FindFiles {
                    exe: exe_path(install_location),
                    app: app_path(install_location),
                },
            ),
            LaunchView::Spawn { url, install_location, .. } => Some(
                DesktopActionView::Spawn {
                    program: exe_path(install_location),
                    args: seq![
                        DesktopArgumentView::Path(app_path(install_location)),
                        DesktopArgumentView::Text(url),
                    ],
                    current_dir: app_dir_path(install_location),
                },
            ),
            LaunchView::Finished { .. } => None,
        }
    }
}

/// The deep link that opens a thread in the desktop app.
pub fn desktop_thread_url(thread_id: &str) -> (url: String)
    ensures
        url@ == "codex://threads/"@ + thread_id@,
{
    "codex://threads/".to_owned().concat(thread_id)
}

/// Where the parts of the desktop app are that is installed at `install_location`.
pub fn desktop_file_paths(install_location: &str) -> (paths: DesktopFilePaths)
    ensures
        paths.app_dir@ == app_dir_path(install_location@),
        paths.exe@ == exe_path(install_location@),
        paths.app@ == app_path(install_location@),
{
    let app_dir: Vec<&'static str> = vec!["app"];
    let exe: Vec<&'static str> = vec!["app", "Codex.exe"];
    let app: Vec<&'static str> = vec!["app", "resources", "app.asar"];
    assert(app_dir.deep_view() =~= seq!["app"@]);
    assert(exe.deep_view() =~= seq!["app"@, "Codex.exe"@]);
    assert(app.deep_view() =~= seq!["app"@, "resources"@, "app.asar"@]);
    DesktopFilePaths {
        app_dir: InstalledPath { install_location: install_location.to_owned(), names: app_dir },
        exe: InstalledPath { install_location: install_location.to_owned(), names: exe },
        app: InstalledPath { install_location: install_location.to_owned(), names: app },
    }
}

/// Begins to hand `url` over to the desktop app.
pub fn open_desktop_thread_url(platform: DesktopPlatform, url: &str) -> (launch: DesktopLaunch)
    ensures
        launch@ == launch_start(platform, url@),
{
    match platform {
        DesktopPlatform::MacOs => DesktopLaunch::RunOpen { url: url.to_owned() },
        DesktopPlatform::Windows => DesktopLaunch::LocatePackage { url: url.to_owned() },
        DesktopPlatform::Linux => DesktopLaunch::DetectWsl { url: url.to_owned() },
        DesktopPlatform::Other => give_up(),
    }
}

fn fail(message: String) -> (launch: DesktopLaunch)
    ensures
        launch@ == failed(message@),
{
    DesktopLaunch::Finished { outcome: Err(message) }
}

fn give_up() -> (launch: DesktopLaunch)
    ensures
        launch@ == unavailable(),
{
    fail("Codex Desktop is only available on macOS and Windows".to_owned())
}

fn opened(url: String, ran: Result<CommandOutput, String>) -> (launch: DesktopLaunch)
    ensures
        launch@ == after_open(url@, ran_view(ran)),
{
    match ran {
        Err(message) => fail("failed to invoke `open`: ".to_owned().concat(message.as_str())),
        Ok(output) => if output.success {
            DesktopLaunch::Finished { outcome: Ok(()) }
        } else {
            fail(
                "`open ".to_owned().concat(url.as_str()).concat("` exited with ").concat(
                    output.status.as_str(),
                ),
            )
        },
    }
}

fn launch_script_ran(ran: Result<CommandOutput, String>) -> (launch: DesktopLaunch)
    ensures
        launch@ == after_launch_script(ran_view(ran)),
{
    match ran {
        Err(message) => fail(
            "failed to launch Codex Desktop through PowerShell: ".to_owned().concat(
                message.as_str(),
            ),
        ),
        Ok(output) => if output.success {
            DesktopLaunch::Finished { outcome: Ok(()) }
        } else {
            let stderr = trim(output.stderr.as_str());
            if stderr.is_empty() {
                fail(
                    "failed to launch Codex Desktop through PowerShell with ".to_owned().concat(
                        output.status.as_str(),
                    ),
                )
            } else {
                fail(stderr.to_owned())
            }
        },
    }
}

fn package_located(url: String, ran: Result<CommandOutput, String>) -> (launch: DesktopLaunch)
    ensures
        launch@ == after_locate(url@, ran_view(ran)),
{
    match ran {
        Err(message) => fail(
            "failed to locate Codex Desktop package: ".to_owned().concat(message.as_str()),
        ),
        Ok(output) => {
            if !output.success {
                return fail(
                    "failed to locate Codex Desktop package with ".to_owned().concat(
                        output.status.as_str(),
                    ),
                );
            }
            let install_location = trim(output.stdout.as_str());
            if install_location.is_empty() {
                fail("Codex Desktop package is not installed".to_owned())
            } else {
                DesktopLaunch::FindFiles { url, install_location: install_location.to_owned() }
            }
        },
    }
}

fn files_found(url: String, install_location: String, files: DesktopFiles) -> (launch:
    DesktopLaunch)
    ensures
        launch@ == after_files(url@, install_location@, files@),
{
    if !files.exe_exists {
        fail("Codex Desktop executable not found at ".to_owned().concat(files.exe.as_str()))
    } else if !files.app_exists {
        fail("Codex Desktop app bundle not found at ".to_owned().concat(files.app.as_str()))
    } else {
        DesktopLaunch::Spawn { url, install_location, files }
    }
}

fn app_spawned(files: DesktopFiles, spawned: Result<(), String>) -> (launch: DesktopLaunch)
    ensures
        launch@ == after_spawn(files@, outcome_view(spawned)),
{
    match spawned {
        Err(message) => fail(
            "failed to launch Codex Desktop at ".to_owned().concat(files.exe.as_str()).concat(
                ": ",
            ).concat(message.as_str()),
        ),
        Ok(_) => DesktopLaunch::Finished { outcome: Ok(()) },
    }
}

impl DesktopLaunch {
    /// What the host is to do next; nothing once the handover is over.
    pub fn action(&self) -> (action: Option<DesktopAction>)
        ensures
            action.deep_view() == self@.action(),
    {
        match self {
            DesktopLaunch::RunOpen { url } => {
                let args: Vec<String> = vec![url.clone()];
                assert(args.deep_view() =~= seq![url@]);
                Some(
                    DesktopAction::Run { program: "open".to_owned(), args, captures_output: false },
                )
            },
            DesktopLaunch::DetectWsl { .. } => Some(DesktopAction::DetectWsl),
            DesktopLaunch::RunLaunchScript { url } => {
                let args: Vec<String> = vec![
                    "-NoProfile".to_owned(),
                    "-Command".to_owned(),
                    LAUNCH_SCRIPT.to_owned(),
                    url.clone(),
                ];
                assert(args.deep_view() =~= seq![
                    "-NoProfile"@,
                    "-Command"@,
                    LAUNCH_SCRIPT@,
                    url@,
                ]);
                Some(
                    DesktopAction::Run {
                        program: "powershell.exe".to_owned(),
                        args,
                        captures_output: true,
                    },
                )
            },
            DesktopLaunch::LocatePackage { .. } => {
                let args: Vec<String> = vec![
                    "-NoProfile".to_owned(),
                    "-Command".to_owned(),
                    LOCATE_PACKAGE_COMMAND.to_owned(),
                ];
                assert(args.deep_view() =~= seq![
                    "-NoProfile"@,
                    "-Command"@,
                    LOCATE_PACKAGE_COMMAND@,
                ]);
                Some(
                    DesktopAction::Run {
                        program: "powershell.exe".to_owned(),
                        args,
                        captures_output: true,
                    },
                )
            },
            DesktopLaunch::FindFiles { install_location, .. } => {
                let paths = desktop_file_paths(install_location.as_str());
                Some(DesktopAction::FindFiles { exe: paths.exe, app: paths.app })
            },
            DesktopLaunch::Spawn { url, install_location, .. } => {
                let paths = desktop_file_paths(install_location.as_str());
                let args: Vec<DesktopArgument> = vec![
                    DesktopArgument::Path(paths.app),
                    DesktopArgument::Text(url.clone()),
                ];
                assert(args.deep_view() =~= seq![
                    DesktopArgumentView::Path(app_path(install_location@)),
                    DesktopArgumentView::Text(url@),
                ]);
                Some(
                    DesktopAction::Spawn { program: paths.exe, args, current_dir: paths.app_dir },
                )
            },
            DesktopLaunch::Finished { .. } => None,
        }
    }

    /// Goes on with what came back.
    pub fn step(self, reply: DesktopReply) -> (next: DesktopLaunch)
        ensures
            next@ == self@.after(reply@),
    {
        match (self, reply) {
            (DesktopLaunch::RunOpen { url }, DesktopReply::Ran(ran)) => opened(url, ran),
            (DesktopLaunch::DetectWsl { url }, DesktopReply::Wsl(is_wsl)) => if is_wsl {
                DesktopLaunch::RunLaunchScript { url }
            } else {
                give_up()
            },
            (DesktopLaunch::RunLaunchScript { .. }, DesktopReply::Ran(ran)) => {
                launch_script_ran(ran)
            },
            (DesktopLaunch::LocatePackage { url }, DesktopReply::Ran(ran)) => {
                package_located(url, ran)
            },
            (DesktopLaunch::FindFiles { url, install_location }, DesktopReply::Files(files)) => {
                files_found(url, install_location, files)
            },
            (DesktopLaunch::Spawn { files, .. }, DesktopReply::Spawned(spawned)) => {
                app_spawned(files, spawned)
            },
            (this, _) => this,
        }
    }
}

/// A host that does everything it is asked, with what comes of each thing.
pub struct DesktopHostView {
    pub is_wsl: bool,
    pub ran: Result<CommandOutputView, Seq<char>>,
    pub files: DesktopFilesView,
    pub spawned: Result<(), Seq<char>>,
}

impl DesktopHostView {
    /// What comes back for `action`.
    pub open spec fn reply(self, action: DesktopActionView) -> DesktopReplyView {
        match action {
            DesktopActionView::DetectWsl => DesktopReplyView::Wsl(self.is_wsl),
            DesktopActionView::Run { .. } => DesktopReplyView::Ran(self.ran),
            DesktopActionView::FindFiles { .. } => DesktopReplyView::Files(self.files),
            DesktopActionView::Spawn { .. } => DesktopReplyView::Spawned(self.spawned),
        }
    }

    /// Where a handover stands once this host has done up to `actions` of the things it asks for.
    pub open spec fn run(self, launch: LaunchView, actions: nat) -> LaunchView
        decreases actions,
    {
        if actions == 0 {
            launch
        } else {
            match launch.action() {
                None => launch,
                Some(action) => self.run(launch.after(self.reply(action)), (actions - 1) as nat),
            }
        }
    }

    /// What a handover of `url` comes to.
    pub open spec fn outcome(self, platform: DesktopPlatform, url: Seq<char>) -> Result<
        (),
        Seq<char>,
    > {
        let unavailable = Err("Codex Desktop is only available on macOS and Windows"@);
        match platform {
            DesktopPlatform::MacOs => match self.ran {
                Err(message) => Err("failed to invoke `open`: "@ + message),
                Ok(output) => if output.success {
                    Ok(())
                } else {
                    Err("`open "@ + url + "` exited with "@ + output.status)
                },
            },
            DesktopPlatform::Windows => match self.ran {
                Err(message) => Err("failed to locate Codex Desktop package: "@ + message),
                Ok(output) => if !output.success {
                    Err("failed to locate Codex Desktop package with "@ + output.status)
                } else if trim_end(trim_start(output.stdout)).len() == 0 {
                    Err("Codex Desktop package is not installed"@)
                } else if !self.files.exe_exists {
                    Err("Codex Desktop executable not found at "@ + self.files.exe)
                } else if !self.files.app_exists {
                    Err("Codex Desktop app bundle not found at "@ + self.files.app)
                } else if self.spawned is Err {
                    Err(
                        "failed to launch Codex Desktop at "@ + self.files.exe + ": "@
                            + self.spawned->Err_0,
                    )
                } else {
                    Ok(())
                },
            },
            DesktopPlatform::Linux => if !self.is_wsl {
                unavailable
            } else {
                match self.ran {
                    Err(message) => Err(
                        "failed to launch Codex Desktop through PowerShell: "@ + message,
                    ),
                    Ok(output) => if output.success {
                        Ok(())
                    } else if trim_end(trim_start(output.stderr)).len() == 0 {
                        Err(
                            "failed to launch Codex Desktop through PowerShell with "@
                                + output.status,
                        )
                    } else {
                        Err(trim_end(trim_start(output.stderr)))
                    },
                }
            },
            DesktopPlatform::Other => unavailable,
        }
    }
}

/// A handover ends, after three things at the most that it asks of its host, with the outcome that
/// what came of them gives.
pub proof fn law_every_handover_comes_to_its_outcome(
    host: DesktopHostView,
    platform: DesktopPlatform,
    url: Seq<char>,
)
    ensures
        host.run(launch_start(platform, url), 3) == (LaunchView::Finished {
            outcome: host.outcome(platform, url),
        }),
{
    reveal_with_fuel(DesktopHostView::run, 4);
}

/// The URL that the handover still holds.
pub open spec fn pending_url(launch: LaunchView) -> Option<Seq<char>> {
    match launch {
        LaunchView::RunOpen { url } => Some(url),
        LaunchView::DetectWsl { url } => Some(url),
        LaunchView::RunLaunchScript { url } => Some(url),
        LaunchView::LocatePackage { url } => Some(url),
        LaunchView::FindFiles { url, .. } => Some(url),
        LaunchView::Spawn { url, .. } => Some(url),
        LaunchView::Finished { .. } => None,
    }
}

/// Whatever comes back, the URL stays the one that was asked for, and every success is that of a
/// command that was given it as its last argument.
pub proof fn law_the_url_is_handed_over(launch: LaunchView, reply: DesktopReplyView)
    ensures
        pending_url(launch.after(reply)) is Some ==> pending_url(launch.after(reply))
            == pending_url(launch),
        !(launch is Finished) && launch.after(reply) is Finished && launch.after(reply)->outcome
            is Ok ==> match launch.action() {
            Some(DesktopActionView::Run { args, .. }) => Some(args.last()) == pending_url(launch),
            Some(DesktopActionView::Spawn { args, .. }) => args.last() matches
                DesktopArgumentView::Text(url) && Some(url) == pending_url(launch),
            _ => false,
        },
{
}

/// On Windows a handover succeeds only by starting `app\Codex.exe`, in `app`, with
/// `app\resources\app.asar` and the URL as its arguments, all below the location that was printed;
/// whether the two files exist was asked before.
pub proof fn law_windows_starts_the_installed_app(host: DesktopHostView, url: Seq<char>)
    requires
        host.outcome(DesktopPlatform::Windows, url) is Ok,
    ensures
        ({
            let install_location = trim_end(trim_start(host.ran->Ok_0.stdout));
            let start = launch_start(DesktopPlatform::Windows, url);
            &&& host.run(start, 1).action() == Some(
                DesktopActionView::FindFiles {
                    exe: exe_path(install_location),
                    app: app_path(install_location),
                },
            )
            &&& host.run(start, 2).action() == Some(
                DesktopActionView::Spawn {
                    program: exe_path(install_location),
                    args: seq![
                        DesktopArgumentView::Path(app_path(install_location)),
                        DesktopArgumentView::Text(url),
                    ],
                    current_dir: app_dir_path(install_location),
                },
            )
        }),
{
    reveal_with_fuel(DesktopHostView::run, 3);
}

/// The desktop app is only started where both of its files were found, below the location where
/// they were looked for.
pub proof fn law_nothing_is_started_unless_found(launch: LaunchView, reply: DesktopReplyView)
    ensures
        !(launch is Spawn) && launch.after(reply) is Spawn ==> {
            &&& launch matches LaunchView::FindFiles { install_location, .. }
            &&& reply matches DesktopReplyView::Files(files)
            &&& files.exe_exists && files.app_exists
            &&& launch.after(reply)->Spawn_install_location == install_location
        },
{
}

/// Without a desktop app for the system nothing is run, and the handover says so.
pub proof fn law_unsupported_systems_run_nothing(url: Seq<char>)
    ensures
        launch_start(DesktopPlatform::Other, url) == unavailable(),
        launch_start(DesktopPlatform::Linux, url).after(DesktopReplyView::Wsl(false))
            == unavailable(),
        unavailable().action() is None,
{
}

} // verus!
