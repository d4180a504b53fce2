use gforce_node::commands::{default_timeout, AuthMessage, OutputMessage, ResultMessage};
use gforce_node::config::NodeConfig;
use gforce_node::connection::{
    action_for_text, disconnect_event, initial_backoff, next_backoff, on_incoming, on_outbound,
    ConnectionEvent, FrameAction, IncomingFrame, OutboundAction, OutboundMessage,
};
use gforce_node::heartbeat::{
    after_heartbeat, build_url, heartbeat_interval_secs, outcome_for_body, outcome_for_status,
    HeartbeatError, HeartbeatOutcome,
};

#[test]
fn output_messages() {
    let m = OutputMessage::stdout("c1", "hello".to_string());
    assert_eq!((m.msg_type.as_str(), m.command_id.as_str(), m.stream.as_str(), m.data.as_str()), ("output", "c1", "stdout", "hello"));
    let m = OutputMessage::stderr("c2", "oops".to_string());
    assert_eq!((m.msg_type.as_str(), m.command_id.as_str(), m.stream.as_str(), m.data.as_str()), ("output", "c2", "stderr", "oops"));
}

#[test]
fn result_messages() {
    let r = ResultMessage::ok("c", 12);
    assert_eq!((r.msg_type.as_str(), r.exit_code, r.success, r.duration_ms), ("result", Some(0), true, Some(12)));
    assert!(r.data.is_none());
    let payload: serde_json::Value = serde_json::from_str(r#"{"files":["a","b"]}"#).unwrap();
    let r = ResultMessage::ok_with_data("c", 3, payload.clone());
    assert_eq!(r.data, Some(payload));
    assert!(r.success);
    let r = ResultMessage::fail("c", 2, 9);
    assert_eq!((r.exit_code, r.success, r.duration_ms), (Some(2), false, Some(9)));
    let r = ResultMessage::error("c", "not allowed");
    assert_eq!((r.exit_code, r.success, r.duration_ms), (None, false, None));
    let expected: serde_json::Value = serde_json::from_str(r#"{"error":"not allowed"}"#).unwrap();
    assert_eq!(r.data, Some(expected));
    assert_eq!(r.command_id, "c");
}

#[test]
fn auth_message_carries_token() {
    let info: serde_json::Value = serde_json::from_str(r#"{"os":"linux"}"#).unwrap();
    let a = AuthMessage::new("tok", info.clone());
    assert_eq!((a.msg_type.as_str(), a.node_token.as_str()), ("auth", "tok"));
    assert_eq!(a.system_info, Some(info));
}

#[test]
fn timeout_default() {
    assert_eq!(default_timeout(), 300);
}

#[test]
fn backoff_doubles_until_five_minutes() {
    let mut b = initial_backoff();
    let mut seen = vec![b];
    for _ in 0..9 {
        b = next_backoff(b);
        seen.push(b);
    }
    assert_eq!(seen, vec![3, 6, 12, 24, 48, 96, 192, 300, 300, 300]);
    assert_eq!(next_backoff(u64::MAX), 300);
    assert_eq!(next_backoff(150), 300);
    assert_eq!(next_backoff(149), 298);
}

#[test]
fn text_frames() {
    let cmd = r#"{"type":"command","command_id":"1","action":"shell","payload":{}}"#;
    match on_incoming(IncomingFrame::Text(cmd.to_string())) {
        FrameAction::DeliverCommand(t) => assert_eq!(t, cmd),
        other => panic!("unexpected {:?}", other),
    }
    assert!(matches!(on_incoming(IncomingFrame::Text(r#"{"type":"ping"}"#.to_string())), FrameAction::Ignore));
    assert!(matches!(on_incoming(IncomingFrame::Text(r#"{"type":1}"#.to_string())), FrameAction::Ignore));
    assert!(matches!(on_incoming(IncomingFrame::Text("not json".to_string())), FrameAction::Ignore));
    assert!(matches!(on_incoming(IncomingFrame::Text(r#"["command"]"#.to_string())), FrameAction::Ignore));
}

#[test]
fn text_action_given_type_member() {
    assert!(matches!(action_for_text("x".to_string(), Some(Some("command".to_string()))), FrameAction::DeliverCommand(_)));
    assert!(matches!(action_for_text("x".to_string(), Some(Some("Command".to_string()))), FrameAction::Ignore));
    assert!(matches!(action_for_text("x".to_string(), Some(None)), FrameAction::Ignore));
    assert!(matches!(action_for_text("x".to_string(), None), FrameAction::Ignore));
}

#[test]
fn other_frames() {
    assert!(matches!(on_incoming(IncomingFrame::Close), FrameAction::Finish));
    assert!(matches!(on_incoming(IncomingFrame::Ended), FrameAction::Finish));
    match on_incoming(IncomingFrame::Ping(vec![1, 2])) {
        FrameAction::Pong(d) => assert_eq!(d, vec![1, 2]),
        other => panic!("unexpected {:?}", other),
    }
    assert!(matches!(on_incoming(IncomingFrame::Other), FrameAction::Ignore));
    match on_incoming(IncomingFrame::Failed("reset".to_string())) {
        FrameAction::Fail(e) => assert_eq!(e, "reset"),
        other => panic!("unexpected {:?}", other),
    }
}

#[test]
fn outbound_and_disconnect() {
    let v: serde_json::Value = serde_json::from_str(r#"{"type":"output"}"#).unwrap();
    match on_outbound(Some(OutboundMessage::Json(v.clone()))) {
        OutboundAction::Send(s) => assert_eq!(s, v),
        other => panic!("unexpected {:?}", other),
    }
    assert!(matches!(on_outbound(None), OutboundAction::Finish));
    match disconnect_event(Ok(())) {
        ConnectionEvent::Disconnected(m) => assert_eq!(m, "clean disconnect"),
        other => panic!("unexpected {:?}", other),
    }
    match disconnect_event(Err("boom".to_string())) {
        ConnectionEvent::Disconnected(m) => assert_eq!(m, "boom"),
        other => panic!("unexpected {:?}", other),
    }
}

fn config(use_tls: bool, interval: u64) -> NodeConfig {
    NodeConfig {
        server: "example.org".to_string(),
        node_token: "tok".to_string(),
        node_id: None,
        infrastructure_id: None,
        workspace_root: "/w".to_string(),
        use_tls,
        allowed_commands: vec![],
        unrestricted_mode: false,
        heartbeat_interval_seconds: interval,
    }
}

#[test]
fn heartbeat_urls_and_interval() {
    assert_eq!(build_url(&config(true, 30)), "https://example.org/api/v1/nodes/heartbeat");
    assert_eq!(build_url(&config(false, 30)), "http://example.org/api/v1/nodes/heartbeat");
    assert_eq!(heartbeat_interval_secs(&config(true, 30)), 30);
    assert_eq!(heartbeat_interval_secs(&config(true, 1)), 5);
    assert_eq!(heartbeat_interval_secs(&config(true, 0)), 5);
    assert_eq!(heartbeat_interval_secs(&config(true, 5)), 5);
}

#[test]
fn heartbeat_status_judgement() {
    assert!(matches!(outcome_for_status(401), Some(HeartbeatOutcome::Unauthorized)));
    assert!(matches!(outcome_for_status(500), Some(HeartbeatOutcome::ServerError(500))));
    assert!(matches!(outcome_for_status(403), Some(HeartbeatOutcome::ServerError(403))));
    assert!(matches!(outcome_for_status(302), Some(HeartbeatOutcome::ServerError(302))));
    assert!(outcome_for_status(200).is_none());
    assert!(outcome_for_status(204).is_none());
    assert!(matches!(outcome_for_body(Ok(())), HeartbeatOutcome::Delivered));
    match outcome_for_body(Err("bad json".to_string())) {
        HeartbeatOutcome::NetworkError(e) => assert_eq!(e, "bad json"),
        other => panic!("unexpected {:?}", other),
    }
}

#[test]
fn heartbeat_loop_stops_only_on_401() {
    assert_eq!(after_heartbeat(&HeartbeatOutcome::Unauthorized), Err(HeartbeatError::TokenRejected));
    assert_eq!(after_heartbeat(&HeartbeatOutcome::Delivered), Ok(()));
    assert_eq!(after_heartbeat(&HeartbeatOutcome::ServerError(503)), Ok(()));
    assert_eq!(after_heartbeat(&HeartbeatOutcome::NetworkError("timeout".to_string())), Ok(()));
}
