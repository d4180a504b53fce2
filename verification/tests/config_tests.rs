use gforce_node::auth::{
    check_enroll_status, enroll_request_from_info, enroll_url, enrolled_config, enrollment_result, EnrollData, EnrollError,
    EnrollRequest,
};
use gforce_node::cli::last_lines;
use gforce_node::config::{
    config_dir, default_allowed_commands, default_heartbeat_interval, default_true,
    default_workspace_root, join_path, NodeConfig, PathStyle,
};

fn sample_config(use_tls: bool) -> NodeConfig {
    NodeConfig {
        server: "gforce.nearminds.org".to_string(),
        node_token: "tok".to_string(),
        node_id: None,
        infrastructure_id: None,
        workspace_root: "/home/u/gforce-workspaces".to_string(),
        use_tls,
        allowed_commands: vec![],
        unrestricted_mode: false,
        heartbeat_interval_seconds: 30,
    }
}

#[test]
fn config_paths_under_home() {
    let u = PathStyle::Unix;
    assert_eq!(config_dir(u, "/home/u"), "/home/u/.gforce-node");
    assert_eq!(config_dir(u, "/home/u/"), "/home/u/.gforce-node");
    assert_eq!(config_dir(u, ""), ".gforce-node");
    assert_eq!(default_workspace_root(u, "/root"), "/root/gforce-workspaces");
    assert_eq!(join_path(u, ".", "config.toml"), "./config.toml");
    let w = PathStyle::Windows;
    assert_eq!(config_dir(w, "C:\\Users\\u"), "C:\\Users\\u\\.gforce-node");
    assert_eq!(config_dir(w, "C:\\Users\\u\\"), "C:\\Users\\u\\.gforce-node");
    assert_eq!(default_workspace_root(w, "C:/Users/u/"), "C:/Users/u/gforce-workspaces");
    assert_eq!(config_dir(w, "C:"), "C:.gforce-node");
    assert_eq!(config_dir(u, "C:"), "C:/.gforce-node");
}

#[test]
fn defaults() {
    assert!(default_true());
    assert_eq!(default_heartbeat_interval(), 30);
    let cmds = default_allowed_commands();
    assert_eq!(cmds.len(), 20);
    assert_eq!(cmds[0], "git");
    assert_eq!(cmds[6], "python3");
    assert_eq!(cmds[19], "tail");
    assert!(cmds.contains(&"docker".to_string()));
}

#[test]
fn ws_url_follows_tls() {
    assert_eq!(sample_config(true).ws_url(), "wss://gforce.nearminds.org/api/v1/nodes/ws");
    assert_eq!(sample_config(false).ws_url(), "ws://gforce.nearminds.org/api/v1/nodes/ws");
}

#[test]
fn enrollment_urls() {
    assert_eq!(enroll_url("gforce.nearminds.org", true), "https://gforce.nearminds.org/api/v1/nodes/enroll");
    assert_eq!(enroll_url("localhost:8000", false), "http://localhost:8000/api/v1/nodes/enroll");
}

#[test]
fn enrollment_request_fills_unknown() {
    let r = EnrollRequest::new("et", Some("linux".to_string()), None, None, Some(8), Some(16), None, None, "0.1.0");
    assert_eq!(r.enrollment_token, "et");
    assert_eq!(r.os, "linux");
    assert_eq!(r.arch, "unknown");
    assert_eq!(r.hostname, "unknown");
    assert_eq!((r.cpu_cores, r.ram_gb, r.disk_gb), (Some(8), Some(16), None));
    assert_eq!(r.gpu, None);
    assert_eq!(r.agent_version, "0.1.0");
}

fn data() -> EnrollData {
    EnrollData {
        node_id: "n-1".to_string(),
        infrastructure_id: "i-1".to_string(),
        auth_token: "secret".to_string(),
        enrolled_at: "2024-01-01T00:00:00Z".to_string(),
    }
}

#[test]
fn enrollment_replies() {
    assert!(check_enroll_status(200, String::new()).is_ok());
    assert!(check_enroll_status(299, String::new()).is_ok());
    match check_enroll_status(409, "used".to_string()) {
        Err(EnrollError::Http { status, body }) => assert_eq!((status, body.as_str()), (409, "used")),
        other => panic!("unexpected {:?}", other),
    }
    match enrollment_result(Some("\"token consumed\"".to_string()), Some(data())) {
        Err(EnrollError::Rejected(m)) => assert_eq!(m, "\"token consumed\""),
        other => panic!("unexpected {:?}", other),
    }
    assert!(matches!(enrollment_result(None, None), Err(EnrollError::NoData)));
    assert_eq!(enrollment_result(None, Some(data())).unwrap().auth_token, "secret");
}

#[test]
fn enrolled_config_takes_server_token() {
    let c = enrolled_config("gforce.nearminds.org", data(), "/home/u/gforce-workspaces".to_string(), true);
    assert_eq!(c.server, "gforce.nearminds.org");
    assert_eq!(c.node_token, "secret");
    assert_eq!(c.node_id.as_deref(), Some("n-1"));
    assert_eq!(c.infrastructure_id.as_deref(), Some("i-1"));
    assert_eq!(c.workspace_root, "/home/u/gforce-workspaces");
    assert!(c.use_tls);
    assert!(c.allowed_commands.is_empty());
    assert!(!c.unrestricted_mode);
    assert_eq!(c.heartbeat_interval_seconds, 30);
}

#[test]
fn last_lines_of_log() {
    let lines: Vec<String> = (1..=5).map(|i| format!("l{}", i)).collect();
    assert_eq!(last_lines(lines.clone(), 2), vec!["l4".to_string(), "l5".to_string()]);
    assert_eq!(last_lines(lines.clone(), 50), lines);
    assert_eq!(last_lines(lines.clone(), 0), Vec::<String>::new());
}

#[test]
fn enrollment_request_from_system_info() {
    let info: serde_json::Value = serde_json::from_str(
        r#"{"hostname":"box","os":"linux","arch":"x86_64","cpu_cores":8,"memory_total_gb":15.6,"disk_total_gb":512.0}"#,
    )
    .unwrap();
    let r = enroll_request_from_info("et", &info, Some(16), Some(512), "0.1.0");
    assert_eq!((r.os.as_str(), r.arch.as_str(), r.hostname.as_str()), ("linux", "x86_64", "box"));
    assert_eq!((r.cpu_cores, r.ram_gb, r.disk_gb), (Some(8), Some(16), Some(512)));
    assert_eq!(r.gpu, None);
    assert_eq!((r.enrollment_token.as_str(), r.agent_version.as_str()), ("et", "0.1.0"));

    let info: serde_json::Value =
        serde_json::from_str(r#"{"os":7,"cpu_cores":4294967298,"gpu":"A100"}"#).unwrap();
    let r = enroll_request_from_info("et", &info, None, None, "v");
    assert_eq!((r.os.as_str(), r.arch.as_str(), r.hostname.as_str()), ("unknown", "unknown", "unknown"));
    assert_eq!(r.cpu_cores, Some(2));
    assert_eq!(r.gpu.as_deref(), Some("A100"));

    let info: serde_json::Value = serde_json::from_str(r#"{"cpu_cores":-1}"#).unwrap();
    assert_eq!(enroll_request_from_info("et", &info, None, None, "v").cpu_cores, None);
}
