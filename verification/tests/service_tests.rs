use gforce_node::service::{
    capture_summary, default_daemon_path, install, launchd_plist, status, systemd_unit, uninstall,
    Platform, ServiceError, ServiceStep,
};

#[test]
fn systemd_unit_contains_daemon_path() {
    let unit = systemd_unit("/usr/local/bin/gforce-node-daemon");
    assert!(unit.contains("ExecStart=/usr/local/bin/gforce-node-daemon"));
    assert!(unit.contains("WantedBy=multi-user.target"));
    assert!(unit.contains("Restart=on-failure"));
}

#[test]
fn launchd_plist_contains_daemon_path() {
    let plist = launchd_plist("/usr/local/bin/gforce-node-daemon");
    assert!(plist.contains("com.nearminds.gforce-node"));
    assert!(plist.contains("<string>/usr/local/bin/gforce-node-daemon</string>"));
    assert!(plist.contains("<key>KeepAlive</key>"));
}

#[test]
fn default_daemon_path_picks_platform() {
    let p = default_daemon_path(true);
    assert!(p.ends_with("gforce-node-daemon.exe"));
    let p = default_daemon_path(false);
    assert_eq!(p, "/usr/local/bin/gforce-node-daemon".to_string());
}

#[test]
fn systemd_unit_exact_text() {
    let unit = systemd_unit("/opt/d");
    assert_eq!(
        unit,
        "[Unit]\nDescription=Gforce Node Agent\nAfter=network.target\nWants=network-online.target\n\n[Service]\nType=simple\nExecStart=/opt/d\nRestart=on-failure\nRestartSec=5\nUser=root\nEnvironment=RUST_LOG=info\n\n[Install]\nWantedBy=multi-user.target\n"
    );
}

#[test]
fn launchd_plist_starts_and_ends() {
    let plist = launchd_plist("/opt/d");
    assert!(plist.starts_with("<?xml version=\"1.0\" encoding=\"UTF-8\"?>\n"));
    assert!(plist.ends_with("</dict>\n</plist>\n"));
    assert!(plist.contains("    <string>/opt/d</string>\n  </array>\n"));
}

#[test]
fn platform_from_os_name() {
    assert_eq!(Platform::current("linux"), Some(Platform::Linux));
    assert_eq!(Platform::current("macos"), Some(Platform::Macos));
    assert_eq!(Platform::current("windows"), Some(Platform::Windows));
    assert_eq!(Platform::current("freebsd"), None);
    assert_eq!(Platform::current("Linux"), None);
}

fn run_parts(step: &ServiceStep) -> (String, Vec<String>, bool) {
    match step {
        ServiceStep::Run { program, args, must_succeed } => (program.clone(), args.clone(), *must_succeed),
        other => panic!("not a run step: {:?}", other),
    }
}

#[test]
fn install_on_linux_writes_unit_then_enables() {
    let steps = install(Some(Platform::Linux), "/usr/local/bin/gforce-node-daemon").unwrap();
    assert_eq!(steps.len(), 3);
    match &steps[0] {
        ServiceStep::WriteFile { path, contents, context } => {
            assert_eq!(path, "/etc/systemd/system/gforce-node.service");
            assert_eq!(contents, &systemd_unit("/usr/local/bin/gforce-node-daemon"));
            assert_eq!(context, "writing /etc/systemd/system/gforce-node.service (needs root)");
        }
        other => panic!("unexpected {:?}", other),
    }
    assert_eq!(run_parts(&steps[1]), ("systemctl".to_string(), vec!["daemon-reload".to_string()], true));
    assert_eq!(
        run_parts(&steps[2]),
        ("systemctl".to_string(), vec!["enable".to_string(), "--now".to_string(), "gforce-node".to_string()], true)
    );
}

#[test]
fn uninstall_on_linux_is_best_effort_around_removal() {
    let steps = uninstall(Some(Platform::Linux)).unwrap();
    assert_eq!(steps.len(), 3);
    assert_eq!(
        run_parts(&steps[0]),
        ("systemctl".to_string(), vec!["disable".to_string(), "--now".to_string(), "gforce-node".to_string()], false)
    );
    match &steps[1] {
        ServiceStep::RemoveIfExists { path, .. } => assert_eq!(path, "/etc/systemd/system/gforce-node.service"),
        other => panic!("unexpected {:?}", other),
    }
    assert_eq!(run_parts(&steps[2]), ("systemctl".to_string(), vec!["daemon-reload".to_string()], false));
}

#[test]
fn install_and_uninstall_on_macos() {
    let steps = install(Some(Platform::Macos), "/x/daemon").unwrap();
    assert_eq!(steps.len(), 2);
    match &steps[0] {
        ServiceStep::WriteFile { path, contents, context } => {
            assert_eq!(path, "/Library/LaunchDaemons/com.nearminds.gforce-node.plist");
            assert_eq!(contents, &launchd_plist("/x/daemon"));
            assert!(context.ends_with("(needs sudo)"));
        }
        other => panic!("unexpected {:?}", other),
    }
    let (program, args, must) = run_parts(&steps[1]);
    assert_eq!(program, "launchctl");
    assert_eq!(args, vec!["load", "-w", "/Library/LaunchDaemons/com.nearminds.gforce-node.plist"]);
    assert!(must);
    let steps = uninstall(Some(Platform::Macos)).unwrap();
    assert_eq!(steps.len(), 2);
    match &steps[0] {
        ServiceStep::RunIfExists { path, program, args } => {
            assert_eq!(path, "/Library/LaunchDaemons/com.nearminds.gforce-node.plist");
            assert_eq!(program, "launchctl");
            assert_eq!(args, &vec!["unload", "-w", "/Library/LaunchDaemons/com.nearminds.gforce-node.plist"]);
        }
        other => panic!("unexpected {:?}", other),
    }
    assert!(matches!(&steps[1], ServiceStep::RemoveIfExists { .. }));
}

#[test]
fn install_on_windows_quotes_the_binary_path() {
    let steps = install(Some(Platform::Windows), "C:\\Program Files\\Gforce\\gforce-node-daemon.exe").unwrap();
    assert_eq!(steps.len(), 2);
    let (program, args, must) = run_parts(&steps[0]);
    assert_eq!(program, "sc.exe");
    assert_eq!(
        args,
        vec![
            "create",
            "gforce-node",
            "binPath=",
            "\"C:\\Program Files\\Gforce\\gforce-node-daemon.exe\"",
            "start=",
            "auto",
            "DisplayName=",
            "Gforce Node Agent"
        ]
    );
    assert!(must);
    assert_eq!(run_parts(&steps[1]), ("sc.exe".to_string(), vec!["start".to_string(), "gforce-node".to_string()], false));
    let steps = uninstall(Some(Platform::Windows)).unwrap();
    assert_eq!(run_parts(&steps[0]), ("sc.exe".to_string(), vec!["stop".to_string(), "gforce-node".to_string()], false));
    assert_eq!(run_parts(&steps[1]), ("sc.exe".to_string(), vec!["delete".to_string(), "gforce-node".to_string()], true));
}

#[test]
fn unsupported_platform_is_refused() {
    assert!(matches!(install(None, "/d"), Err(ServiceError::UnsupportedPlatform)));
    assert!(matches!(uninstall(None), Err(ServiceError::UnsupportedPlatform)));
    assert!(matches!(status(None), Err(ServiceError::UnsupportedPlatform)));
}

#[test]
fn status_queries_per_platform() {
    let q = status(Some(Platform::Linux)).unwrap();
    assert_eq!((q.program.as_str(), q.args.clone()), ("systemctl", vec!["is-active".to_string(), "gforce-node".to_string()]));
    let q = status(Some(Platform::Macos)).unwrap();
    assert_eq!((q.program.as_str(), q.args.clone()), ("launchctl", vec!["list".to_string(), "com.nearminds.gforce-node".to_string()]));
    let q = status(Some(Platform::Windows)).unwrap();
    assert_eq!((q.program.as_str(), q.args.clone()), ("sc.exe", vec!["query".to_string(), "gforce-node".to_string()]));
}

#[test]
fn capture_summary_cases() {
    let args = vec!["is-active".to_string(), "gforce-node".to_string()];
    assert_eq!(capture_summary("systemctl", &args, true, "exit status: 0", "active", ""), "active");
    assert_eq!(capture_summary("systemctl", &args, true, "exit status: 0", "", "warn"), "warn");
    assert_eq!(
        capture_summary("systemctl", &args, false, "exit status: 3", "inactive", "boom"),
        "systemctl is-active gforce-node exited with exit status: 3 \u{2014} stderr: boom"
    );
    assert_eq!(capture_summary("x", &vec![], false, "s", "", ""), "x  exited with s \u{2014} stderr: ");
}

#[test]
fn which_failures_end_a_plan() {
    let install_steps = install(Some(Platform::Linux), "/d").unwrap();
    assert!(install_steps.iter().all(|s| s.failure_ends_plan()));
    let steps = uninstall(Some(Platform::Linux)).unwrap();
    let ends: Vec<bool> = steps.iter().map(|s| s.failure_ends_plan()).collect();
    assert_eq!(ends, vec![false, true, false]);
    let steps = uninstall(Some(Platform::Macos)).unwrap();
    let ends: Vec<bool> = steps.iter().map(|s| s.failure_ends_plan()).collect();
    assert_eq!(ends, vec![false, true]);
}
