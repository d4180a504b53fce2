//! Periodic heartbeat reporting: the URL it goes to, how a reply is
//! judged, and when the heartbeat loop stops.
//!
//! Network and transient server errors are retried on the next tick; a 401
//! stops the loop so that the daemon exits instead of looping with a
//! revoked token.

use vstd::prelude::*;
use crate::config::NodeConfig;
use crate::text::concat3;

verus! {

/// Outcome of one heartbeat attempt.
#[derive(Debug)]
pub enum HeartbeatOutcome {
    /// The server took the heartbeat.
    Delivered,
    /// The request could not be made or its reply could not be read; the message says why.
    NetworkError(String),
    Unauthorized,
    ServerError(u16),
}

/// Why the heartbeat loop stopped.
#[derive(Debug, Clone, Copy, PartialEq, Eq, Structural)]
pub enum HeartbeatError {
    /// The server rejected the node token with a 401.
    TokenRejected,
}

/// The smallest interval between two heartbeats, in seconds.
pub open spec fn min_interval_secs() -> u64 {
    5
}

/// The interval used for a configured interval: at least the minimum.
pub open spec fn interval_for(configured: u64) -> u64 {
    if configured < min_interval_secs() {
        min_interval_secs()
    } else {
        configured
    }
}

/// The heartbeat URL of a server.
pub open spec fn heartbeat_url_of(use_tls: bool, server: Seq<char>) -> Seq<char> {
    (if use_tls {
        "https://"@
    } else {
        "http://"@
    }) + server + "/api/v1/nodes/heartbeat"@
}

/// The URL that heartbeats are posted to.
pub fn build_url(config: &NodeConfig) -> (r: String)
    ensures
        r@ == heartbeat_url_of(config.use_tls, config.server@),
{
    let scheme = if config.use_tls {
        "https://"
    } else {
        "http://"
    };
    concat3(scheme, config.server.as_str(), "/api/v1/nodes/heartbeat")
}

/// Whether an HTTP status is a success (2xx).
pub open spec fn is_success_status(status: u16) -> bool {
    200 <= status <= 299
}

/// How a heartbeat reply is judged by its status alone: `Some` outcome
/// where the status settles it, `None` where the body must be read.
pub open spec fn status_outcome(status: u16) -> Option<HeartbeatOutcome> {
    if status == 401 {
        Some(HeartbeatOutcome::Unauthorized)
    } else if !is_success_status(status) {
        Some(HeartbeatOutcome::ServerError(status))
    } else {
        None
    }
}

/// Judge a heartbeat reply by its HTTP status: 401 means the token was
/// rejected, any other status outside 2xx is a server error, and a 2xx
/// reply is judged by its body (`None`).
pub fn outcome_for_status(status: u16) -> (r: Option<HeartbeatOutcome>)
    ensures
        r == status_outcome(status),
{
    if status == 401 {
        Some(HeartbeatOutcome::Unauthorized)
    } else if status < 200 || status > 299 {
        Some(HeartbeatOutcome::ServerError(status))
    } else {
        None
    }
}

/// Judge a 2xx heartbeat reply by whether its body could be read as the
/// API envelope; a body that could not is reported as a network error.
pub fn outcome_for_body(body: Result<(), String>) -> (r: HeartbeatOutcome)
    ensures
        body is Ok ==> r == HeartbeatOutcome::Delivered,
        body matches Err(e) ==> r == HeartbeatOutcome::NetworkError(e),
{
    match body {
        Ok(()) => HeartbeatOutcome::Delivered,
        Err(e) => HeartbeatOutcome::NetworkError(e),
    }
}

/// The interval between heartbeats: the configured one, but never under 5 seconds.
pub fn heartbeat_interval_secs(config: &NodeConfig) -> (r: u64)
    ensures
        r == interval_for(config.heartbeat_interval_seconds),
{
    if config.heartbeat_interval_seconds < 5 {
        5
    } else {
        config.heartbeat_interval_seconds
    }
}

/// What the heartbeat loop does after an attempt: go on to the next tick
/// (`Ok`), or stop because the token was rejected.
pub fn after_heartbeat(outcome: &HeartbeatOutcome) -> (r: Result<(), HeartbeatError>)
    ensures
        r is Err <==> *outcome is Unauthorized,
        r is Err ==> r == Err::<(), HeartbeatError>(HeartbeatError::TokenRejected),
{
    match outcome {
        HeartbeatOutcome::Unauthorized => Err(HeartbeatError::TokenRejected),
        _ => Ok(()),
    }
}

/// The heartbeat interval never falls below 5 seconds, and a configured
/// interval of at least 5 seconds is kept as it is.
pub proof fn law_interval_floor(configured: u64)
    ensures
        interval_for(configured) >= 5,
        configured >= 5 ==> interval_for(configured) == configured,
{
}

/// Only a 401 reply stops the heartbeat loop: every other status, and every
/// network failure, leaves it running.
pub proof fn law_only_401_stops(status: u16)
    ensures
        status_outcome(status) == Some(HeartbeatOutcome::Unauthorized) <==> status == 401,
{
}

} // verus!

verus! {

/// Every 2xx reply is judged by its body; a 401 is an authorization
/// failure; any other status is a server error carrying that status.
pub proof fn law_status_judgement(status: u16)
    ensures
        200 <= status <= 299 ==> status_outcome(status) is None,
        status == 401 ==> status_outcome(status) == Some(HeartbeatOutcome::Unauthorized),
        (status < 200 || status > 299) && status != 401 ==> status_outcome(status) == Some(
            HeartbeatOutcome::ServerError(status),
        ),
{
}

} // verus!

verus! {

/// Heartbeats go to `/api/v1/nodes/heartbeat` over HTTPS exactly when TLS is on.
pub proof fn law_heartbeat_url(server: Seq<char>)
    ensures
        heartbeat_url_of(true, server) == "https://"@ + server + "/api/v1/nodes/heartbeat"@,
        heartbeat_url_of(false, server) == "http://"@ + server + "/api/v1/nodes/heartbeat"@,
{
}

} // verus!
