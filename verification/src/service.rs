//! Cross-platform service installation, as plans of steps.
//!
//! | OS      | Mechanism |
//! |---------|-----------|
//! | Linux   | Write a systemd unit to `/etc/systemd/system/gforce-node.service`, then `systemctl enable --now`. |
//! | macOS   | Write a launchd plist to `/Library/LaunchDaemons/com.nearminds.gforce-node.plist`, then `launchctl load`. |
//! | Windows | `sc.exe create gforce-node` pointing at the daemon binary. |
//!
//! Each function here decides what is to be done; the steps themselves
//! (writing files, running programs) are carried out by the caller, in order.

use vstd::prelude::*;
use crate::config::string_views;
use crate::text::{concat3, str_eq};

verus! {

/// Name under which the service is registered.
pub const SERVICE_NAME: &'static str = "gforce-node";

/// Human-readable label shown in service listings.
pub const SERVICE_DISPLAY: &'static str = "Gforce Node Agent";

/// Which OS we are running on.
#[derive(Debug, Clone, Copy, PartialEq, Eq, Structural)]
pub enum Platform {
    Linux,
    Macos,
    Windows,
}

/// The platform named by an OS name as Rust reports it (`std::env::consts::OS`).
pub open spec fn platform_of(os: Seq<char>) -> Option<Platform> {
    if os == "linux"@ {
        Some(Platform::Linux)
    } else if os == "macos"@ {
        Some(Platform::Macos)
    } else if os == "windows"@ {
        Some(Platform::Windows)
    } else {
        None
    }
}

impl Platform {
    /// The platform for an OS name such as `std::env::consts::OS`; `None`
    /// for an OS that has no service backend.
    pub fn current(os: &str) -> (r: Option<Platform>)
        ensures
            r == platform_of(os@),
    {
        if str_eq(os, "linux") {
            Some(Platform::Linux)
        } else if str_eq(os, "macos") {
            Some(Platform::Macos)
        } else if str_eq(os, "windows") {
            Some(Platform::Windows)
        } else {
            None
        }
    }
}

/// The default location of the daemon binary: where the install scripts put it.
pub open spec fn default_daemon_path_of(windows: bool) -> Seq<char> {
    if windows {
        "C:\\Program Files\\Gforce\\gforce-node-daemon.exe"@
    } else {
        "/usr/local/bin/gforce-node-daemon"@
    }
}

/// Resolve the absolute path of the installed daemon binary on a Windows
/// (`windows`) or a unix build.
pub fn default_daemon_path(windows: bool) -> (r: String)
    ensures
        r@ == default_daemon_path_of(windows),
{
    if windows {
        String::from_str("C:\\Program Files\\Gforce\\gforce-node-daemon.exe")
    } else {
        String::from_str("/usr/local/bin/gforce-node-daemon")
    }
}

/// Why no plan could be made.
#[derive(Debug, Clone, Copy, PartialEq, Eq, Structural)]
pub enum ServiceError {
    /// The OS has no service backend.
    UnsupportedPlatform,
}

/// One step of a service plan.
#[derive(Debug)]
pub enum ServiceStep {
    /// Write `contents` to `path`; a failure ends the plan with an error that mentions `context`.
    WriteFile { path: String, contents: String, context: String },
    /// Run `program` with `args`; a failure ends the plan only where `must_succeed`.
    Run { program: String, args: Vec<String>, must_succeed: bool },
    /// Where `path` exists, run `program` with `args`, ignoring its failure.
    RunIfExists { path: String, program: String, args: Vec<String> },
    /// Where `path` exists, remove it; a failure ends the plan with an error that mentions `context`.
    RemoveIfExists { path: String, context: String },
}

/// A step of a service plan as plain values.
pub enum StepView {
    WriteFile(Seq<char>, Seq<char>, Seq<char>),
    Run(Seq<char>, Seq<Seq<char>>, bool),
    RunIfExists(Seq<char>, Seq<char>, Seq<Seq<char>>),
    RemoveIfExists(Seq<char>, Seq<char>),
}

impl View for ServiceStep {
    type V = StepView;

    open spec fn view(&self) -> StepView {
        match self {
            ServiceStep::WriteFile { path, contents, context } => StepView::WriteFile(
                path@,
                contents@,
                context@,
            ),
            ServiceStep::Run { program, args, must_succeed } => StepView::Run(
                program@,
                string_views(args@),
                *must_succeed,
            ),
            ServiceStep::RunIfExists { path, program, args } => StepView::RunIfExists(
                path@,
                program@,
                string_views(args@),
            ),
            ServiceStep::RemoveIfExists { path, context } => StepView::RemoveIfExists(
                path@,
                context@,
            ),
        }
    }
}

/// Whether a failure of this step ends the plan: a write or a removal
/// always does, a run only where it must succeed, and a guarded run never.
pub open spec fn failure_ends_plan(step: StepView) -> bool {
    match step {
        StepView::WriteFile(_, _, _) => true,
        StepView::Run(_, _, must_succeed) => must_succeed,
        StepView::RunIfExists(_, _, _) => false,
        StepView::RemoveIfExists(_, _) => true,
    }
}

impl ServiceStep {
    /// Whether a failure of this step ends the plan.
    pub fn failure_ends_plan(&self) -> (r: bool)
        ensures
            r == failure_ends_plan(self@),
    {
        match self {
            ServiceStep::WriteFile { .. } => true,
            ServiceStep::Run { must_succeed, .. } => *must_succeed,
            ServiceStep::RunIfExists { .. } => false,
            ServiceStep::RemoveIfExists { .. } => true,
        }
    }
}

/// The views of the steps of a plan.
pub open spec fn plan_view(steps: Seq<ServiceStep>) -> Seq<StepView> {
    steps.map_values(|s: ServiceStep| s@)
}

// ── systemd (Linux) ────────────────────────────────────────────────────────

/// The text of the systemd unit that runs `daemon`.
pub open spec fn systemd_unit_text(daemon: Seq<char>) -> Seq<char> {
    "[Unit]\nDescription=Gforce Node Agent\nAfter=network.target\nWants=network-online.target\n\n[Service]\nType=simple\nExecStart="@ + daemon + "\nRestart=on-failure\nRestartSec=5\nUser=root\nEnvironment=RUST_LOG=info\n\n[Install]\nWantedBy=multi-user.target\n"@
}

/// The systemd unit for the daemon at `daemon_path`.
pub fn systemd_unit(daemon_path: &str) -> (r: String)
    ensures
        r@ == systemd_unit_text(daemon_path@),
{
    concat3("[Unit]\nDescription=Gforce Node Agent\nAfter=network.target\nWants=network-online.target\n\n[Service]\nType=simple\nExecStart=", daemon_path, "\nRestart=on-failure\nRestartSec=5\nUser=root\nEnvironment=RUST_LOG=info\n\n[Install]\nWantedBy=multi-user.target\n")
}

/// The steps that install the systemd service.
pub open spec fn systemd_install_plan(daemon: Seq<char>) -> Seq<StepView> {
    seq![
        StepView::WriteFile(
            "/etc/systemd/system/gforce-node.service"@,
            systemd_unit_text(daemon),
            "writing /etc/systemd/system/gforce-node.service (needs root)"@,
        ),
        StepView::Run("systemctl"@, seq!["daemon-reload"@], true),
        StepView::Run("systemctl"@, seq!["enable"@, "--now"@, "gforce-node"@], true),
    ]
}

/// The steps that uninstall the systemd service: stopping it and reloading
/// systemd are best effort; removing the unit file is not.
pub open spec fn systemd_uninstall_plan() -> Seq<StepView> {
    seq![
        StepView::Run("systemctl"@, seq!["disable"@, "--now"@, "gforce-node"@], false),
        StepView::RemoveIfExists(
            "/etc/systemd/system/gforce-node.service"@,
            "removing /etc/systemd/system/gforce-node.service"@,
        ),
        StepView::Run("systemctl"@, seq!["daemon-reload"@], false),
    ]
}

// ── launchd (macOS) ────────────────────────────────────────────────────────

/// The text of the launchd plist that runs `daemon`.
pub open spec fn launchd_plist_text(daemon: Seq<char>) -> Seq<char> {
    "<?xml version=\"1.0\" encoding=\"UTF-8\"?>\n<!DOCTYPE plist PUBLIC \"-//Apple//DTD PLIST 1.0//EN\" \"http://www.apple.com/DTDs/PropertyList-1.0.dtd\">\n<plist version=\"1.0\">\n<dict>\n  <key>Label</key>\n  <string>com.nearminds.gforce-node</string>\n  <key>ProgramArguments</key>\n  <array>\n    <string>"@ + daemon + "</string>\n  </array>\n  <key>RunAtLoad</key>\n  <true/>\n  <key>KeepAlive</key>\n  <true/>\n  <key>StandardOutPath</key>\n  <string>/var/log/gforce-node.log</string>\n  <key>StandardErrorPath</key>\n  <string>/var/log/gforce-node.err.log</string>\n  <key>EnvironmentVariables</key>\n  <dict>\n    <key>RUST_LOG</key>\n    <string>info</string>\n  </dict>\n</dict>\n</plist>\n"@
}

/// The launchd plist for the daemon at `daemon_path`.
pub fn launchd_plist(daemon_path: &str) -> (r: String)
    ensures
        r@ == launchd_plist_text(daemon_path@),
{
    concat3("<?xml version=\"1.0\" encoding=\"UTF-8\"?>\n<!DOCTYPE plist PUBLIC \"-//Apple//DTD PLIST 1.0//EN\" \"http://www.apple.com/DTDs/PropertyList-1.0.dtd\">\n<plist version=\"1.0\">\n<dict>\n  <key>Label</key>\n  <string>com.nearminds.gforce-node</string>\n  <key>ProgramArguments</key>\n  <array>\n    <string>", daemon_path, "</string>\n  </array>\n  <key>RunAtLoad</key>\n  <true/>\n  <key>KeepAlive</key>\n  <true/>\n  <key>StandardOutPath</key>\n  <string>/var/log/gforce-node.log</string>\n  <key>StandardErrorPath</key>\n  <string>/var/log/gforce-node.err.log</string>\n  <key>EnvironmentVariables</key>\n  <dict>\n    <key>RUST_LOG</key>\n    <string>info</string>\n  </dict>\n</dict>\n</plist>\n")
}

/// The steps that install the launchd service.
pub open spec fn launchd_install_plan(daemon: Seq<char>) -> Seq<StepView> {
    seq![
        StepView::WriteFile(
            "/Library/LaunchDaemons/com.nearminds.gforce-node.plist"@,
            launchd_plist_text(daemon),
            "writing /Library/LaunchDaemons/com.nearminds.gforce-node.plist (needs sudo)"@,
        ),
        StepView::Run(
            "launchctl"@,
            seq!["load"@, "-w"@, "/Library/LaunchDaemons/com.nearminds.gforce-node.plist"@],
            true,
        ),
    ]
}

/// The steps that uninstall the launchd service: where the plist exists,
/// unload it (best effort) and remove it.
pub open spec fn launchd_uninstall_plan() -> Seq<StepView> {
    seq![
        StepView::RunIfExists(
            "/Library/LaunchDaemons/com.nearminds.gforce-node.plist"@,
            "launchctl"@,
            seq!["unload"@, "-w"@, "/Library/LaunchDaemons/com.nearminds.gforce-node.plist"@],
        ),
        StepView::RemoveIfExists(
            "/Library/LaunchDaemons/com.nearminds.gforce-node.plist"@,
            "removing /Library/LaunchDaemons/com.nearminds.gforce-node.plist"@,
        ),
    ]
}

// ── Windows Service (sc.exe) ───────────────────────────────────────────────

/// The steps that install the Windows service: `sc create` must succeed,
/// starting it is best effort. The registered command is the daemon path
/// in double quotes, so that a path with spaces stays one argument.
pub open spec fn windows_install_plan(daemon: Seq<char>) -> Seq<StepView> {
    seq![
        StepView::Run(
            "sc.exe"@,
            seq![
                "create"@, "gforce-node"@, "binPath="@, "\""@ + daemon + "\""@, "start="@,
                "auto"@, "DisplayName="@, "Gforce Node Agent"@,
            ],
            true,
        ),
        StepView::Run("sc.exe"@, seq!["start"@, "gforce-node"@], false),
    ]
}

/// The steps that uninstall the Windows service: stopping is best effort, deleting is not.
pub open spec fn windows_uninstall_plan() -> Seq<StepView> {
    seq![
        StepView::Run("sc.exe"@, seq!["stop"@, "gforce-node"@], false),
        StepView::Run("sc.exe"@, seq!["delete"@, "gforce-node"@], true),
    ]
}

/// The install plan of a platform.
pub open spec fn install_plan(platform: Platform, daemon: Seq<char>) -> Seq<StepView> {
    match platform {
        Platform::Linux => systemd_install_plan(daemon),
        Platform::Macos => launchd_install_plan(daemon),
        Platform::Windows => windows_install_plan(daemon),
    }
}

/// The uninstall plan of a platform.
pub open spec fn uninstall_plan(platform: Platform) -> Seq<StepView> {
    match platform {
        Platform::Linux => systemd_uninstall_plan(),
        Platform::Macos => launchd_uninstall_plan(),
        Platform::Windows => windows_uninstall_plan(),
    }
}

// ── plan building ──────────────────────────────────────────────────────────

fn words1(a: &str) -> (r: Vec<String>)
    ensures
        string_views(r@) == seq![a@],
{
    let mut v: Vec<String> = Vec::new();
    v.push(String::from_str(a));
    assert(string_views(v@) =~= seq![a@]);
    v
}

fn words2(a: &str, b: &str) -> (r: Vec<String>)
    ensures
        string_views(r@) == seq![a@, b@],
{
    let mut v: Vec<String> = Vec::new();
    v.push(String::from_str(a));
    v.push(String::from_str(b));
    assert(string_views(v@) =~= seq![a@, b@]);
    v
}

fn words3(a: &str, b: &str, c: &str) -> (r: Vec<String>)
    ensures
        string_views(r@) == seq![a@, b@, c@],
{
    let mut v: Vec<String> = Vec::new();
    v.push(String::from_str(a));
    v.push(String::from_str(b));
    v.push(String::from_str(c));
    assert(string_views(v@) =~= seq![a@, b@, c@]);
    v
}

fn run_step(program: &str, args: Vec<String>, must_succeed: bool) -> (r: ServiceStep)
    ensures
        r@ == StepView::Run(program@, string_views(args@), must_succeed),
{
    ServiceStep::Run { program: String::from_str(program), args, must_succeed }
}

fn install_systemd(daemon_path: &str) -> (r: Vec<ServiceStep>)
    ensures
        plan_view(r@) == systemd_install_plan(daemon_path@),
{
    let mut v: Vec<ServiceStep> = Vec::new();
    v.push(
        ServiceStep::WriteFile {
            path: String::from_str("/etc/systemd/system/gforce-node.service"),
            contents: systemd_unit(daemon_path),
            context: String::from_str("writing /etc/systemd/system/gforce-node.service (needs root)"),
        },
    );
    v.push(run_step("systemctl", words1("daemon-reload"), true));
    v.push(run_step("systemctl", words3("enable", "--now", "gforce-node"), true));
    assert(plan_view(v@) =~= systemd_install_plan(daemon_path@));
    v
}

fn uninstall_systemd() -> (r: Vec<ServiceStep>)
    ensures
        plan_view(r@) == systemd_uninstall_plan(),
{
    let mut v: Vec<ServiceStep> = Vec::new();
    v.push(run_step("systemctl", words3("disable", "--now", "gforce-node"), false));
    v.push(
        ServiceStep::RemoveIfExists {
            path: String::from_str("/etc/systemd/system/gforce-node.service"),
            context: String::from_str("removing /etc/systemd/system/gforce-node.service"),
        },
    );
    v.push(run_step("systemctl", words1("daemon-reload"), false));
    assert(plan_view(v@) =~= systemd_uninstall_plan());
    v
}

fn install_launchd(daemon_path: &str) -> (r: Vec<ServiceStep>)
    ensures
        plan_view(r@) == launchd_install_plan(daemon_path@),
{
    let mut v: Vec<ServiceStep> = Vec::new();
    v.push(
        ServiceStep::WriteFile {
            path: String::from_str("/Library/LaunchDaemons/com.nearminds.gforce-node.plist"),
            contents: launchd_plist(daemon_path),
            context: String::from_str(
                "writing /Library/LaunchDaemons/com.nearminds.gforce-node.plist (needs sudo)",
            ),
        },
    );
    v.push(
        run_step(
            "launchctl",
            words3("load", "-w", "/Library/LaunchDaemons/com.nearminds.gforce-node.plist"),
            true,
        ),
    );
    assert(plan_view(v@) =~= launchd_install_plan(daemon_path@));
    v
}

fn uninstall_launchd() -> (r: Vec<ServiceStep>)
    ensures
        plan_view(r@) == launchd_uninstall_plan(),
{
    let mut v: Vec<ServiceStep> = Vec::new();
    v.push(
        ServiceStep::RunIfExists {
            path: String::from_str("/Library/LaunchDaemons/com.nearminds.gforce-node.plist"),
            program: String::from_str("launchctl"),
            args: words3("unload", "-w", "/Library/LaunchDaemons/com.nearminds.gforce-node.plist"),
        },
    );
    v.push(
        ServiceStep::RemoveIfExists {
            path: String::from_str("/Library/LaunchDaemons/com.nearminds.gforce-node.plist"),
            context: String::from_str(
                "removing /Library/LaunchDaemons/com.nearminds.gforce-node.plist",
            ),
        },
    );
    assert(plan_view(v@) =~= launchd_uninstall_plan());
    v
}

/// The steps that install the Windows service for the daemon at `daemon_path`.
pub fn install_windows(daemon_path: &str) -> (r: Vec<ServiceStep>)
    ensures
        plan_view(r@) == windows_install_plan(daemon_path@),
{
    let bin_path = concat3("\"", daemon_path, "\"");
    let mut args: Vec<String> = Vec::new();
    args.push(String::from_str("create"));
    args.push(String::from_str("gforce-node"));
    args.push(String::from_str("binPath="));
    args.push(bin_path);
    args.push(String::from_str("start="));
    args.push(String::from_str("auto"));
    args.push(String::from_str("DisplayName="));
    args.push(String::from_str("Gforce Node Agent"));
    assert(string_views(args@) =~= seq![
        "create"@, "gforce-node"@, "binPath="@, "\""@ + daemon_path@ + "\""@, "start="@,
        "auto"@, "DisplayName="@, "Gforce Node Agent"@,
    ]);
    let mut v: Vec<ServiceStep> = Vec::new();
    v.push(run_step("sc.exe", args, true));
    v.push(run_step("sc.exe", words2("start", "gforce-node"), false));
    assert(plan_view(v@) =~= windows_install_plan(daemon_path@));
    v
}

/// The steps that uninstall the Windows service.
pub fn uninstall_windows() -> (r: Vec<ServiceStep>)
    ensures
        plan_view(r@) == windows_uninstall_plan(),
{
    let mut v: Vec<ServiceStep> = Vec::new();
    v.push(run_step("sc.exe", words2("stop", "gforce-node"), false));
    v.push(run_step("sc.exe", words2("delete", "gforce-node"), true));
    assert(plan_view(v@) =~= windows_uninstall_plan());
    v
}

/// Install the daemon as a system service appropriate for the platform:
/// the steps to carry out, in order.
pub fn install(platform: Option<Platform>, daemon_path: &str) -> (r: Result<
    Vec<ServiceStep>,
    ServiceError,
>)
    ensures
        platform is None ==> r == Err::<Vec<ServiceStep>, ServiceError>(
            ServiceError::UnsupportedPlatform,
        ),
        platform matches Some(p) ==> (r matches Ok(steps) && plan_view(steps@) == install_plan(
            p,
            daemon_path@,
        )),
{
    match platform {
        None => Err(ServiceError::UnsupportedPlatform),
        Some(Platform::Linux) => Ok(install_systemd(daemon_path)),
        Some(Platform::Macos) => Ok(install_launchd(daemon_path)),
        Some(Platform::Windows) => Ok(install_windows(daemon_path)),
    }
}

/// Uninstall the service: the steps to carry out, in order.
pub fn uninstall(platform: Option<Platform>) -> (r: Result<Vec<ServiceStep>, ServiceError>)
    ensures
        platform is None ==> r == Err::<Vec<ServiceStep>, ServiceError>(
            ServiceError::UnsupportedPlatform,
        ),
        platform matches Some(p) ==> (r matches Ok(steps) && plan_view(steps@) == uninstall_plan(
            p,
        )),
{
    match platform {
        None => Err(ServiceError::UnsupportedPlatform),
        Some(Platform::Linux) => Ok(uninstall_systemd()),
        Some(Platform::Macos) => Ok(uninstall_launchd()),
        Some(Platform::Windows) => Ok(uninstall_windows()),
    }
}

/// A program to run whose output describes the service's state.
#[derive(Debug)]
pub struct StatusQuery {
    pub program: String,
    pub args: Vec<String>,
}

/// The status query of a platform: program and arguments.
pub open spec fn status_query_of(platform: Platform) -> (Seq<char>, Seq<Seq<char>>) {
    match platform {
        Platform::Linux => ("systemctl"@, seq!["is-active"@, "gforce-node"@]),
        Platform::Macos => ("launchctl"@, seq!["list"@, "com.nearminds.gforce-node"@]),
        Platform::Windows => ("sc.exe"@, seq!["query"@, "gforce-node"@]),
    }
}

/// The program whose output gives a short human-readable status line.
pub fn status(platform: Option<Platform>) -> (r: Result<StatusQuery, ServiceError>)
    ensures
        platform is None ==> r matches Err(ServiceError::UnsupportedPlatform),
        platform matches Some(p) ==> (r matches Ok(q) && (q.program@, string_views(q.args@))
            == status_query_of(p)),
{
    match platform {
        None => Err(ServiceError::UnsupportedPlatform),
        Some(Platform::Linux) => Ok(
            StatusQuery {
                program: String::from_str("systemctl"),
                args: words2("is-active", "gforce-node"),
            },
        ),
        Some(Platform::Macos) => Ok(
            StatusQuery {
                program: String::from_str("launchctl"),
                args: words2("list", "com.nearminds.gforce-node"),
            },
        ),
        Some(Platform::Windows) => Ok(
            StatusQuery {
                program: String::from_str("sc.exe"),
                args: words2("query", "gforce-node"),
            },
        ),
    }
}

/// Words joined with single spaces.
pub open spec fn join_words(ws: Seq<Seq<char>>) -> Seq<char>
    decreases ws.len(),
{
    if ws.len() == 0 {
        Seq::empty()
    } else if ws.len() == 1 {
        ws[0]
    } else {
        join_words(ws.drop_last()) + " "@ + ws.last()
    }
}

/// Join arguments with single spaces.
pub fn join_args(args: &Vec<String>) -> (r: String)
    ensures
        r@ == join_words(string_views(args@)),
{
    let mut r = String::new();
    let mut i: usize = 0;
    while i < args.len()
        invariant
            i <= args.len(),
            r@ == join_words(string_views(args@.subrange(0, i as int))),
        decreases args.len() - i,
    {
        proof {
            let ws = string_views(args@.subrange(0, i + 1));
            assert(ws.drop_last() =~= string_views(args@.subrange(0, i as int)));
            assert(ws.last() == args@[i as int]@);
        }
        if i > 0 {
            r.append(" ");
        }
        r.append(args[i].as_str());
        proof {
            if i == 0 {
                assert(r@ =~= join_words(string_views(args@.subrange(0, 1))));
            }
        }
        i = i + 1;
    }
    assert(args@.subrange(0, args@.len() as int) =~= args@);
    r
}

/// The status line made from a finished status query.
pub open spec fn capture_summary_text(
    program: Seq<char>,
    args: Seq<Seq<char>>,
    success: bool,
    exit_status: Seq<char>,
    stdout: Seq<char>,
    stderr: Seq<char>,
) -> Seq<char> {
    if success {
        if stdout.len() == 0 {
            stderr
        } else {
            stdout
        }
    } else {
        program + " "@ + join_words(args) + " exited with "@ + exit_status + " \u{2014} stderr: "@ + stderr
    }
}

/// The status line for a finished status query, from its trimmed output:
/// on success its standard output (or its standard error where the output
/// is empty); otherwise the command, its exit status and its standard error.
pub fn capture_summary(
    program: &str,
    args: &Vec<String>,
    success: bool,
    exit_status: &str,
    stdout: &str,
    stderr: &str,
) -> (r: String)
    ensures
        r@ == capture_summary_text(program@, string_views(args@), success, exit_status@, stdout@, stderr@),
{
    if success {
        if stdout.unicode_len() == 0 {
            String::from_str(stderr)
        } else {
            String::from_str(stdout)
        }
    } else {
        let joined = join_args(args);
        let mut r = String::from_str(program);
        r.append(" ");
        r.append(joined.as_str());
        r.append(" exited with ");
        r.append(exit_status);
        r.append(" \u{2014} stderr: ");
        r.append(stderr);
        r
    }
}

/// The file a step writes, if it writes one.
pub open spec fn written_file(step: StepView) -> Option<Seq<char>> {
    match step {
        StepView::WriteFile(path, _, _) => Some(path),
        _ => None,
    }
}

/// The file a step removes, if it removes one.
pub open spec fn removed_file(step: StepView) -> Option<Seq<char>> {
    match step {
        StepView::RemoveIfExists(path, _) => Some(path),
        _ => None,
    }
}

/// The `sc.exe` service a step acts on with a given verb (`create`, `delete`), if any.
pub open spec fn sc_target(step: StepView, verb: Seq<char>) -> Option<Seq<char>> {
    match step {
        StepView::Run(program, args, _) => if program == "sc.exe"@ && args.len() >= 2 && args[0]
            == verb {
            Some(args[1])
        } else {
            None
        },
        _ => None,
    }
}

/// What uninstalling removes is what installing wrote: on Linux and macOS
/// the uninstall plan removes the file that the install plan writes first,
/// and on Windows it deletes the service that the install plan creates.
pub proof fn law_uninstall_removes_what_install_writes(platform: Platform, daemon: Seq<char>)
    ensures
        platform != Platform::Windows ==> written_file(install_plan(platform, daemon)[0]) is Some
            && removed_file(uninstall_plan(platform)[1]) == written_file(
            install_plan(platform, daemon)[0],
        ),
        platform == Platform::Windows ==> sc_target(install_plan(platform, daemon)[0], "create"@) is Some
            && sc_target(uninstall_plan(platform)[1], "delete"@) == sc_target(
            install_plan(platform, daemon)[0],
            "create"@,
        ),
{
}

} // verus!

verus! {

/// The systemd unit is this text, line by line, with the daemon path after
/// `ExecStart=`: it restarts the daemon on failure and starts it at boot
/// (`WantedBy=multi-user.target`).
pub proof fn law_systemd_unit_template(daemon: Seq<char>)
    ensures
        systemd_unit_text(daemon) == "[Unit]\n"@ + "Description=Gforce Node Agent\n"@ + "After=network.target\n"@ + "Wants=network-online.target\n"@ + "\n"@ + "[Service]\n"@ + "Type=simple\n"@ + "ExecStart="@ + daemon + "\n"@ + "Restart=on-failure\n"@ + "RestartSec=5\n"@ + "User=root\n"@ + "Environment=RUST_LOG=info\n"@ + "\n"@ + "[Install]\n"@ + "WantedBy=multi-user.target\n"@,
{
    reveal_strlit("[Unit]\n");
    reveal_strlit("Description=Gforce Node Agent\n");
    reveal_strlit("After=network.target\n");
    reveal_strlit("Wants=network-online.target\n");
    reveal_strlit("\n");
    reveal_strlit("[Service]\n");
    reveal_strlit("Type=simple\n");
    reveal_strlit("ExecStart=");
    reveal_strlit("Restart=on-failure\n");
    reveal_strlit("RestartSec=5\n");
    reveal_strlit("User=root\n");
    reveal_strlit("Environment=RUST_LOG=info\n");
    reveal_strlit("[Install]\n");
    reveal_strlit("WantedBy=multi-user.target\n");
    reveal_strlit("[Unit]\nDescription=Gforce Node Agent\nAfter=network.target\nWants=network-online.target\n\n[Service]\nType=simple\nExecStart=");
    reveal_strlit("\nRestart=on-failure\nRestartSec=5\nUser=root\nEnvironment=RUST_LOG=info\n\n[Install]\nWantedBy=multi-user.target\n");
    assert(systemd_unit_text(daemon) =~= "[Unit]\n"@ + "Description=Gforce Node Agent\n"@ + "After=network.target\n"@ + "Wants=network-online.target\n"@ + "\n"@ + "[Service]\n"@ + "Type=simple\n"@ + "ExecStart="@ + daemon + "\n"@ + "Restart=on-failure\n"@ + "RestartSec=5\n"@ + "User=root\n"@ + "Environment=RUST_LOG=info\n"@ + "\n"@ + "[Install]\n"@ + "WantedBy=multi-user.target\n"@);
}

/// The launchd plist is this text, line by line, with the daemon path as the
/// program: the daemon starts when the job is loaded (`RunAtLoad` true) and
/// is kept running (`KeepAlive` true).
pub proof fn law_launchd_plist_template(daemon: Seq<char>)
    ensures
        launchd_plist_text(daemon) == "<?xml version=\"1.0\" encoding=\"UTF-8\"?>\n"@ + "<!DOCTYPE plist PUBLIC \"-//Apple//DTD PLIST 1.0//EN\" \"http://www.apple.com/DTDs/PropertyList-1.0.dtd\">\n"@ + "<plist version=\"1.0\">\n"@ + "<dict>\n"@ + "  <key>Label</key>\n"@ + "  <string>com.nearminds.gforce-node</string>\n"@ + "  <key>ProgramArguments</key>\n"@ + "  <array>\n"@ + "    <string>"@ + daemon + "</string>\n"@ + "  </array>\n"@ + "  <key>RunAtLoad</key>\n"@ + "  <true/>\n"@ + "  <key>KeepAlive</key>\n"@ + "  <true/>\n"@ + "  <key>StandardOutPath</key>\n"@ + "  <string>/var/log/gforce-node.log</string>\n"@ + "  <key>StandardErrorPath</key>\n"@ + "  <string>/var/log/gforce-node.err.log</string>\n"@ + "  <key>EnvironmentVariables</key>\n"@ + "  <dict>\n"@ + "    <key>RUST_LOG</key>\n"@ + "    <string>info</string>\n"@ + "  </dict>\n"@ + "</dict>\n"@ + "</plist>\n"@,
{
    reveal_strlit("<?xml version=\"1.0\" encoding=\"UTF-8\"?>\n");
    reveal_strlit("<!DOCTYPE plist PUBLIC \"-//Apple//DTD PLIST 1.0//EN\" \"http://www.apple.com/DTDs/PropertyList-1.0.dtd\">\n");
    reveal_strlit("<plist version=\"1.0\">\n");
    reveal_strlit("<dict>\n");
    reveal_strlit("  <key>Label</key>\n");
    reveal_strlit("  <string>com.nearminds.gforce-node</string>\n");
    reveal_strlit("  <key>ProgramArguments</key>\n");
    reveal_strlit("  <array>\n");
    reveal_strlit("    <string>");
    reveal_strlit("</string>\n");
    reveal_strlit("  </array>\n");
    reveal_strlit("  <key>RunAtLoad</key>\n");
    reveal_strlit("  <true/>\n");
    reveal_strlit("  <key>KeepAlive</key>\n");
    reveal_strlit("  <key>StandardOutPath</key>\n");
    reveal_strlit("  <string>/var/log/gforce-node.log</string>\n");
    reveal_strlit("  <key>StandardErrorPath</key>\n");
    reveal_strlit("  <string>/var/log/gforce-node.err.log</string>\n");
    reveal_strlit("  <key>EnvironmentVariables</key>\n");
    reveal_strlit("  <dict>\n");
    reveal_strlit("    <key>RUST_LOG</key>\n");
    reveal_strlit("    <string>info</string>\n");
    reveal_strlit("  </dict>\n");
    reveal_strlit("</dict>\n");
    reveal_strlit("</plist>\n");
    reveal_strlit("<?xml version=\"1.0\" encoding=\"UTF-8\"?>\n<!DOCTYPE plist PUBLIC \"-//Apple//DTD PLIST 1.0//EN\" \"http://www.apple.com/DTDs/PropertyList-1.0.dtd\">\n<plist version=\"1.0\">\n<dict>\n  <key>Label</key>\n  <string>com.nearminds.gforce-node</string>\n  <key>ProgramArguments</key>\n  <array>\n    <string>");
    reveal_strlit("</string>\n  </array>\n  <key>RunAtLoad</key>\n  <true/>\n  <key>KeepAlive</key>\n  <true/>\n  <key>StandardOutPath</key>\n  <string>/var/log/gforce-node.log</string>\n  <key>StandardErrorPath</key>\n  <string>/var/log/gforce-node.err.log</string>\n  <key>EnvironmentVariables</key>\n  <dict>\n    <key>RUST_LOG</key>\n    <string>info</string>\n  </dict>\n</dict>\n</plist>\n");
    assert(launchd_plist_text(daemon) =~= "<?xml version=\"1.0\" encoding=\"UTF-8\"?>\n"@ + "<!DOCTYPE plist PUBLIC \"-//Apple//DTD PLIST 1.0//EN\" \"http://www.apple.com/DTDs/PropertyList-1.0.dtd\">\n"@ + "<plist version=\"1.0\">\n"@ + "<dict>\n"@ + "  <key>Label</key>\n"@ + "  <string>com.nearminds.gforce-node</string>\n"@ + "  <key>ProgramArguments</key>\n"@ + "  <array>\n"@ + "    <string>"@ + daemon + "</string>\n"@ + "  </array>\n"@ + "  <key>RunAtLoad</key>\n"@ + "  <true/>\n"@ + "  <key>KeepAlive</key>\n"@ + "  <true/>\n"@ + "  <key>StandardOutPath</key>\n"@ + "  <string>/var/log/gforce-node.log</string>\n"@ + "  <key>StandardErrorPath</key>\n"@ + "  <string>/var/log/gforce-node.err.log</string>\n"@ + "  <key>EnvironmentVariables</key>\n"@ + "  <dict>\n"@ + "    <key>RUST_LOG</key>\n"@ + "    <string>info</string>\n"@ + "  </dict>\n"@ + "</dict>\n"@ + "</plist>\n"@);
}

} // verus!

verus! {

/// The program and arguments of a run step, if it is one.
pub open spec fn run_of(step: StepView) -> Option<(Seq<char>, Seq<Seq<char>>)> {
    match step {
        StepView::Run(program, args, _) => Some((program, args)),
        _ => None,
    }
}

/// The contents a step writes, if it writes a file.
pub open spec fn written_contents(step: StepView) -> Option<Seq<char>> {
    match step {
        StepView::WriteFile(_, contents, _) => Some(contents),
        _ => None,
    }
}

/// Installing on Linux or macOS writes the unit or plist for the daemon and
/// then loads it, and a failure of any of these steps is a failure of the
/// install; on Linux the service is enabled and started at once (`--now`).
pub proof fn law_install_writes_then_starts(daemon: Seq<char>)
    ensures
        written_contents(install_plan(Platform::Linux, daemon)[0]) == Some(
            systemd_unit_text(daemon),
        ),
        written_contents(install_plan(Platform::Macos, daemon)[0]) == Some(
            launchd_plist_text(daemon),
        ),
        forall|i: int|
            0 <= i < install_plan(Platform::Linux, daemon).len() ==> failure_ends_plan(
                #[trigger] install_plan(Platform::Linux, daemon)[i],
            ),
        forall|i: int|
            0 <= i < install_plan(Platform::Macos, daemon).len() ==> failure_ends_plan(
                #[trigger] install_plan(Platform::Macos, daemon)[i],
            ),
        run_of(install_plan(Platform::Linux, daemon).last()) == Some(
            ("systemctl"@, seq!["enable"@, "--now"@, "gforce-node"@]),
        ),
        run_of(install_plan(Platform::Macos, daemon).last()) == Some(
            (
                "launchctl"@,
                seq!["load"@, "-w"@, "/Library/LaunchDaemons/com.nearminds.gforce-node.plist"@],
            ),
        ),
{
}

/// On Windows the service is created for the daemon path in double quotes
/// and must be created; starting it, and stopping it before deletion, are
/// best effort; deleting it must succeed.
pub proof fn law_windows_service(daemon: Seq<char>)
    ensures
        run_of(install_plan(Platform::Windows, daemon)[0]) matches Some((program, args)) && program
            == "sc.exe"@ && args[0] == "create"@ && args[3] == "\""@ + daemon + "\""@,
        failure_ends_plan(install_plan(Platform::Windows, daemon)[0]),
        !failure_ends_plan(install_plan(Platform::Windows, daemon)[1]),
        !failure_ends_plan(uninstall_plan(Platform::Windows)[0]),
        failure_ends_plan(uninstall_plan(Platform::Windows)[1]),
{
}

/// Every mechanism acts on the one service name `gforce-node` (launchd on
/// its label `com.nearminds.gforce-node`): the name installed is the name
/// uninstalled and the name whose status is asked.
pub proof fn law_one_service_name(daemon: Seq<char>)
    ensures
        run_of(install_plan(Platform::Linux, daemon)[2]) matches Some((_, args)) && args[2]
            == "gforce-node"@,
        run_of(uninstall_plan(Platform::Linux)[0]) matches Some((_, args)) && args[2]
            == "gforce-node"@,
        status_query_of(Platform::Linux).1[1] == "gforce-node"@,
        sc_target(install_plan(Platform::Windows, daemon)[0], "create"@) == Some("gforce-node"@),
        sc_target(uninstall_plan(Platform::Windows)[1], "delete"@) == Some("gforce-node"@),
        status_query_of(Platform::Windows).1[1] == "gforce-node"@,
        status_query_of(Platform::Macos).1[1] == "com.nearminds.gforce-node"@,
{
}

/// Uninstalling on Linux stops and disables the service as best effort,
/// must remove the unit file, and reloads systemd as best effort.
pub proof fn law_linux_uninstall()
    ensures
        !failure_ends_plan(uninstall_plan(Platform::Linux)[0]),
        run_of(uninstall_plan(Platform::Linux)[0]) == Some(
            ("systemctl"@, seq!["disable"@, "--now"@, "gforce-node"@]),
        ),
        failure_ends_plan(uninstall_plan(Platform::Linux)[1]),
        removed_file(uninstall_plan(Platform::Linux)[1]) == Some(
            "/etc/systemd/system/gforce-node.service"@,
        ),
        !failure_ends_plan(uninstall_plan(Platform::Linux)[2]),
{
}

} // verus!

verus! {

/// Arguments are joined with one space between neighbours and none at the ends.
pub proof fn law_join_words(ws: Seq<Seq<char>>, w: Seq<char>)
    ensures
        join_words(Seq::empty()) == Seq::<char>::empty(),
        join_words(seq![w]) == w,
        ws.len() > 0 ==> join_words(ws.push(w)) == join_words(ws) + seq![' '] + w,
{
    reveal_strlit(" ");
    if ws.len() > 0 {
        assert(ws.push(w).drop_last() =~= ws);
    }
}

/// A successful status query reports its output, or its error output where
/// the output is empty; a failed one names the command, its arguments, the
/// exit status and the error output.
pub proof fn law_capture_summary(
    program: Seq<char>,
    args: Seq<Seq<char>>,
    exit_status: Seq<char>,
    stdout: Seq<char>,
    stderr: Seq<char>,
)
    ensures
        stdout.len() > 0 ==> capture_summary_text(program, args, true, exit_status, stdout, stderr)
            == stdout,
        stdout.len() == 0 ==> capture_summary_text(program, args, true, exit_status, stdout, stderr)
            == stderr,
        capture_summary_text(program, args, false, exit_status, stdout, stderr) == program + seq![' ']
            + join_words(args) + seq![' ', 'e', 'x', 'i', 't', 'e', 'd', ' ', 'w', 'i', 't', 'h', ' ']
            + exit_status + seq![' ', '\u{2014}', ' ', 's', 't', 'd', 'e', 'r', 'r', ':', ' '] + stderr,
{
    reveal_strlit(" ");
    reveal_strlit(" exited with ");
    reveal_strlit(" \u{2014} stderr: ");
    assert(capture_summary_text(program, args, false, exit_status, stdout, stderr) =~= program
        + seq![' '] + join_words(args) + seq![' ', 'e', 'x', 'i', 't', 'e', 'd', ' ', 'w', 'i', 't', 'h', ' ']
        + exit_status + seq![' ', '\u{2014}', ' ', 's', 't', 'd', 'e', 'r', 'r', ':', ' '] + stderr);
}

} // verus!
