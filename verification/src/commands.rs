//! Messages of the node protocol.

use vstd::prelude::*;
use crate::json::{json_string_object, string_object};

verus! {

/// Default per-command timeout, in seconds.
pub fn default_timeout() -> (r: u64)
    ensures
        r == 300,
{
    300
}

/// A command sent from the server to this node agent.
#[derive(Debug, Clone)]
pub struct ServerCommand {
    /// Always `"command"`.
    pub msg_type: String,
    pub command_id: String,
    pub action: String,
    pub payload: serde_json::Value,
    pub timeout_seconds: u64,
}

/// Streaming output sent from the agent to the server.
#[derive(Debug, Clone)]
pub struct OutputMessage {
    /// Always `"output"`.
    pub msg_type: String,
    pub command_id: String,
    /// `"stdout"` or `"stderr"`.
    pub stream: String,
    pub data: String,
}

impl OutputMessage {
    /// Output that a command wrote to its standard output.
    pub fn stdout(command_id: &str, data: String) -> (r: Self)
        ensures
            r.msg_type@ == "output"@,
            r.command_id@ == command_id@,
            r.stream@ == "stdout"@,
            r.data == data,
    {
        OutputMessage {
            msg_type: String::from_str("output"),
            command_id: String::from_str(command_id),
            stream: String::from_str("stdout"),
            data,
        }
    }

    /// Output that a command wrote to its standard error.
    pub fn stderr(command_id: &str, data: String) -> (r: Self)
        ensures
            r.msg_type@ == "output"@,
            r.command_id@ == command_id@,
            r.stream@ == "stderr"@,
            r.data == data,
    {
        OutputMessage {
            msg_type: String::from_str("output"),
            command_id: String::from_str(command_id),
            stream: String::from_str("stderr"),
            data,
        }
    }
}

/// Final result sent from the agent to the server.
#[derive(Debug, Clone)]
pub struct ResultMessage {
    /// Always `"result"`.
    pub msg_type: String,
    pub command_id: String,
    pub exit_code: Option<i32>,
    pub success: bool,
    pub duration_ms: Option<u64>,
    pub data: Option<serde_json::Value>,
}

impl ResultMessage {
    /// A command that finished with exit code 0.
    pub fn ok(command_id: &str, duration_ms: u64) -> (r: Self)
        ensures
            r.msg_type@ == "result"@,
            r.command_id@ == command_id@,
            r.exit_code == Some(0i32),
            r.success,
            r.duration_ms == Some(duration_ms),
            r.data.is_none(),
    {
        ResultMessage {
            msg_type: String::from_str("result"),
            command_id: String::from_str(command_id),
            exit_code: Some(0),
            success: true,
            duration_ms: Some(duration_ms),
            data: None,
        }
    }

    /// A command that finished with exit code 0 and produced data.
    pub fn ok_with_data(command_id: &str, duration_ms: u64, data: serde_json::Value) -> (r: Self)
        ensures
            r.msg_type@ == "result"@,
            r.command_id@ == command_id@,
            r.exit_code == Some(0i32),
            r.success,
            r.duration_ms == Some(duration_ms),
            r.data == Some(data),
    {
        ResultMessage {
            msg_type: String::from_str("result"),
            command_id: String::from_str(command_id),
            exit_code: Some(0),
            success: true,
            duration_ms: Some(duration_ms),
            data: Some(data),
        }
    }

    /// A command that finished with a failing exit code.
    pub fn fail(command_id: &str, exit_code: i32, duration_ms: u64) -> (r: Self)
        ensures
            r.msg_type@ == "result"@,
            r.command_id@ == command_id@,
            r.exit_code == Some(exit_code),
            !r.success,
            r.duration_ms == Some(duration_ms),
            r.data.is_none(),
    {
        ResultMessage {
            msg_type: String::from_str("result"),
            command_id: String::from_str(command_id),
            exit_code: Some(exit_code),
            success: false,
            duration_ms: Some(duration_ms),
            data: None,
        }
    }

    /// A command that could not be run; the data is `{"error": message}`.
    pub fn error(command_id: &str, message: &str) -> (r: Self)
        ensures
            r.msg_type@ == "result"@,
            r.command_id@ == command_id@,
            r.exit_code.is_none(),
            !r.success,
            r.duration_ms.is_none(),
            r.data == Some(json_string_object("error"@, message@)),
    {
        ResultMessage {
            msg_type: String::from_str("result"),
            command_id: String::from_str(command_id),
            exit_code: None,
            success: false,
            duration_ms: None,
            data: Some(string_object("error", message)),
        }
    }
}

/// Authentication message sent as the first message after connecting.
#[derive(Debug, Clone)]
pub struct AuthMessage {
    /// Always `"auth"`.
    pub msg_type: String,
    pub node_token: String,
    pub system_info: Option<serde_json::Value>,
}

impl AuthMessage {
    /// The authentication message for a node token and its system information.
    pub fn new(node_token: &str, system_info: serde_json::Value) -> (r: Self)
        ensures
            r.msg_type@ == "auth"@,
            r.node_token@ == node_token@,
            r.system_info == Some(system_info),
    {
        AuthMessage {
            msg_type: String::from_str("auth"),
            node_token: String::from_str(node_token),
            system_info: Some(system_info),
        }
    }
}

} // verus!
