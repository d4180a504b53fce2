//! WebSocket connection decisions: how long to wait before reconnecting,
//! and what to do with each frame that arrives or message that is queued.
//!
//! The connection loop connects, authenticates, forwards incoming commands,
//! forwards outbound messages, and on disconnect waits with exponential
//! backoff (capped at five minutes) before it reconnects.

use vstd::prelude::*;
use vstd::arithmetic::power2::{pow2, lemma_pow2, lemma_pow2_unfold};
use vstd::arithmetic::power::pow;
use crate::commands::ServerCommand;
use crate::json::{json_parse, json_str_member, opt_string_view, parse_json, str_member};
use crate::text::str_eq;

verus! {

/// Events produced by the connection for the daemon to handle.
#[derive(Debug)]
pub enum ConnectionEvent {
    /// A command received from the server.
    Command(ServerCommand),
    /// Connection was closed (will auto-reconnect).
    Disconnected(String),
    /// Connection established.
    Connected,
}

/// Outbound messages to send to the server.
#[derive(Debug)]
pub enum OutboundMessage {
    /// JSON message to send.
    Json(serde_json::Value),
}

/// The wait before the first reconnect, in seconds.
pub open spec fn initial_backoff_secs() -> u64 {
    3
}

/// The longest wait between reconnects, in seconds.
pub open spec fn max_backoff_secs() -> u64 {
    300
}

/// The wait after `b` seconds: doubled, capped at the maximum.
pub open spec fn backoff_step(b: u64) -> u64 {
    if 2 * b < max_backoff_secs() {
        (2 * b) as u64
    } else {
        max_backoff_secs()
    }
}

/// The wait before reconnect number `n` (counting from 0).
pub open spec fn backoff_after(n: nat) -> u64
    decreases n,
{
    if n == 0 {
        initial_backoff_secs()
    } else {
        backoff_step(backoff_after((n - 1) as nat))
    }
}

/// The wait before the first reconnect, in seconds.
pub fn initial_backoff() -> (r: u64)
    ensures
        r == initial_backoff_secs(),
{
    3
}

/// Exponential backoff with cap: the wait that follows a wait of `b` seconds.
pub fn next_backoff(b: u64) -> (r: u64)
    ensures
        r == backoff_step(b),
{
    if b >= 150 {
        300
    } else {
        2 * b
    }
}

/// The wait before reconnect number `n` is `3 * 2^n` seconds, capped at 300.
pub proof fn law_backoff_doubles_to_cap(n: nat)
    ensures
        backoff_after(n) == if 3 * pow2(n) < 300 {
            3 * pow2(n)
        } else {
            300
        },
    decreases n,
{
    if n == 0 {
        lemma_pow2(0);
        reveal(pow);
    } else {
        law_backoff_doubles_to_cap((n - 1) as nat);
        lemma_pow2_unfold(n);
    }
}

/// The waits never shrink from one reconnect to the next and never exceed the cap.
pub proof fn law_backoff_monotone_bounded(n: nat)
    ensures
        initial_backoff_secs() <= backoff_after(n) <= backoff_after(n + 1) <= max_backoff_secs(),
    decreases n,
{
    if n > 0 {
        law_backoff_monotone_bounded((n - 1) as nat);
    }
}

/// A frame read from the WebSocket, or the end of the stream.
#[derive(Debug)]
pub enum IncomingFrame {
    Text(String),
    Close,
    /// The stream ended without a close frame.
    Ended,
    Ping(Vec<u8>),
    /// A binary or pong frame.
    Other,
    /// Reading failed; the message says why.
    Failed(String),
}

/// What to do about an incoming frame.
#[derive(Debug)]
pub enum FrameAction {
    /// The text is a command message: decode it as a `ServerCommand` and hand it to the daemon.
    DeliverCommand(String),
    /// Nothing to do.
    Ignore,
    /// Answer with a pong carrying the data.
    Pong(Vec<u8>),
    /// The server closed the connection: end it cleanly.
    Finish,
    /// End the connection with an error.
    Fail(String),
}

/// What a text gives for its member `"type"`: `None` where it is not JSON,
/// `Some(None)` where it has no string member `"type"`, `Some(Some(t))` otherwise.
pub open spec fn type_member_of(text: Seq<char>) -> Option<Option<Seq<char>>> {
    match json_parse(text) {
        None => None,
        Some(v) => Some(json_str_member(v, "type"@)),
    }
}

/// The view of a doubly optional string.
pub open spec fn opt_opt_view(o: Option<Option<String>>) -> Option<Option<Seq<char>>> {
    match o {
        None => None,
        Some(x) => Some(opt_string_view(x)),
    }
}

/// What a text gives for its member `"type"`.
pub fn read_type_member(text: &str) -> (r: Option<Option<String>>)
    ensures
        opt_opt_view(r) == type_member_of(text@),
{
    match parse_json(text) {
        None => None,
        Some(v) => Some(str_member(&v, "type")),
    }
}

/// Whether the parse result of a text frame marks it as a command message.
pub open spec fn is_command_message(type_member: Option<Option<Seq<char>>>) -> bool {
    type_member == Some(Some("command"@))
}

/// What to do with a text frame, given what parsing it as JSON gave for
/// its member `"type"`: a command message is delivered, anything else
/// (another message type, or text that is not JSON) is ignored.
pub fn action_for_text(text: String, type_member: Option<Option<String>>) -> (r: FrameAction)
    ensures
        is_command_message(opt_opt_view(type_member)) ==> r == FrameAction::DeliverCommand(text),
        !is_command_message(opt_opt_view(type_member)) ==> r is Ignore,
{
    match type_member {
        Some(Some(t)) => {
            if str_eq(t.as_str(), "command") {
                FrameAction::DeliverCommand(text)
            } else {
                FrameAction::Ignore
            }
        },
        _ => FrameAction::Ignore,
    }
}

/// What to do with a frame that arrived from the server.
pub fn on_incoming(frame: IncomingFrame) -> (r: FrameAction)
    ensures
        frame matches IncomingFrame::Text(t) ==> (if is_command_message(type_member_of(t@)) {
            r == FrameAction::DeliverCommand(t)
        } else {
            r is Ignore
        }),
        (frame is Close || frame is Ended) ==> r is Finish,
        frame matches IncomingFrame::Ping(d) ==> r == FrameAction::Pong(d),
        frame is Other ==> r is Ignore,
        frame matches IncomingFrame::Failed(e) ==> r == FrameAction::Fail(e),
{
    match frame {
        IncomingFrame::Text(t) => {
            let tm = read_type_member(t.as_str());
            action_for_text(t, tm)
        },
        IncomingFrame::Close => FrameAction::Finish,
        IncomingFrame::Ended => FrameAction::Finish,
        IncomingFrame::Ping(d) => FrameAction::Pong(d),
        IncomingFrame::Other => FrameAction::Ignore,
        IncomingFrame::Failed(e) => FrameAction::Fail(e),
    }
}

/// What to do about the outbound queue.
#[derive(Debug)]
pub enum OutboundAction {
    /// Serialize the value and send it as a text frame.
    Send(serde_json::Value),
    /// Every sender is gone: end the connection cleanly.
    Finish,
}

/// What to do with the next item of the outbound queue (`None` once every sender is gone).
pub fn on_outbound(msg: Option<OutboundMessage>) -> (r: OutboundAction)
    ensures
        msg matches Some(OutboundMessage::Json(v)) ==> r == OutboundAction::Send(v),
        msg is None ==> r is Finish,
{
    match msg {
        Some(OutboundMessage::Json(v)) => OutboundAction::Send(v),
        None => OutboundAction::Finish,
    }
}

/// The event reported when a connection ends: a clean end, or the error that ended it.
pub fn disconnect_event(ended: Result<(), String>) -> (r: ConnectionEvent)
    ensures
        ended is Ok ==> (r matches ConnectionEvent::Disconnected(m) && m@ == "clean disconnect"@),
        ended matches Err(e) ==> r == ConnectionEvent::Disconnected(e),
{
    match ended {
        Ok(()) => ConnectionEvent::Disconnected(String::from_str("clean disconnect")),
        Err(e) => ConnectionEvent::Disconnected(e),
    }
}

} // verus!

verus! {

/// A text frame is a command message exactly when it is JSON whose string
/// member `type` is `command`; the member read is `type`, nothing else.
pub proof fn law_command_message(text: Seq<char>)
    ensures
        is_command_message(type_member_of(text)) <==> (json_parse(text) matches Some(v)
            && json_str_member(v, seq!['t', 'y', 'p', 'e']) == Some(
            seq!['c', 'o', 'm', 'm', 'a', 'n', 'd'],
        )),
{
    reveal_strlit("type");
    reveal_strlit("command");
    assert("type"@ =~= seq!['t', 'y', 'p', 'e']);
    assert("command"@ =~= seq!['c', 'o', 'm', 'm', 'a', 'n', 'd']);
}

} // verus!
