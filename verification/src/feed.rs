//! The feed reader's decision logic.
//!
//! The reader owns the WebSocket connection to the local feed. The connection
//! work itself (connect, receive, forward over the channel) happens outside
//! the library; each thing that happens on the connection is reported here as
//! a [`FeedEvent`], and [`feed_step`] answers with the one [`FeedDirective`]
//! the reader must follow. Every failure directs the same recovery: log, wait
//! the fixed backoff, connect again - the reader never terminates on its own.

use vstd::prelude::*;

verus! {

/// Seconds the reader waits after any connection failure before reconnecting.
pub const RECONNECT_DELAY_SECS: u64 = 60;

/// One thing that happened on the feed connection.
#[derive(Debug, PartialEq, Eq)]
pub enum FeedEvent {
    /// A connection attempt succeeded.
    Connected,
    /// A text frame arrived, with its payload.
    TextFrame(String),
    /// A non-text frame arrived.
    NonTextFrame,
    /// The stream ended without an error.
    StreamEnded,
    /// Receiving from the stream failed.
    StreamError,
    /// Forwarding a signal failed because the consumer is gone.
    SendFailed,
    /// A connection attempt failed.
    ConnectFailed,
}

/// What the reader must do next. There is no variant that stops the reader:
/// by design it runs for the life of the process.
#[derive(Clone, Copy, Debug, PartialEq, Eq)]
pub enum FeedDirective {
    /// Log the established connection and keep reading.
    LogConnected,
    /// Forward this meeting signal to the coordinator.
    Emit(bool),
    /// The frame carries no signal: skip it silently and keep reading.
    Ignore,
    /// Log the failure, wait the fixed backoff, and connect again.
    Reconnect,
}

/// The boolean at `meetingUpdate.meetingPermissions.canPair` of a frame's
/// JSON text, or nothing when the text is not JSON or lacks that field.
pub uninterp spec fn can_pair_of(frame: Seq<char>) -> Option<bool>;

/// Relies on `serde_json::from_str` and `serde_json::Value`'s indexing and
/// `as_bool`: what they extract depends on the frame text alone; a frame that
/// is not JSON, or whose `meetingUpdate.meetingPermissions.canPair` is absent
/// or not a boolean, yields `None`.
#[verifier::external_body]
fn extract_can_pair(text: &str) -> (r: Option<bool>)
    ensures
        r == can_pair_of(text@),
{
    let json: serde_json::Value = serde_json::from_str(text).unwrap_or(serde_json::Value::Null);
    json["meetingUpdate"]["meetingPermissions"]["canPair"].as_bool()
}

/// The meeting signal carried by one text frame, if any.
///
/// A malformed frame or one without the boolean field is no error: it simply
/// carries no signal.
pub fn frame_signal(text: &str) -> (r: Option<bool>)
    ensures
        r == can_pair_of(text@),
{
    extract_can_pair(text)
}

/// The directive for one feed event.
pub open spec fn feed_step_spec(ev: FeedEvent) -> FeedDirective {
    match ev {
        FeedEvent::Connected => FeedDirective::LogConnected,
        FeedEvent::TextFrame(t) => match can_pair_of(t@) {
            Some(b) => FeedDirective::Emit(b),
            None => FeedDirective::Ignore,
        },
        FeedEvent::NonTextFrame => FeedDirective::Ignore,
        FeedEvent::StreamEnded => FeedDirective::Reconnect,
        FeedEvent::StreamError => FeedDirective::Reconnect,
        FeedEvent::SendFailed => FeedDirective::Reconnect,
        FeedEvent::ConnectFailed => FeedDirective::Reconnect,
    }
}

/// Decide what the reader does with one event.
pub fn feed_step(ev: &FeedEvent) -> (d: FeedDirective)
    ensures
        d == feed_step_spec(*ev),
{
    match ev {
        FeedEvent::Connected => FeedDirective::LogConnected,
        FeedEvent::TextFrame(t) => match frame_signal(t.as_str()) {
            Some(b) => FeedDirective::Emit(b),
            None => FeedDirective::Ignore,
        },
        FeedEvent::NonTextFrame => FeedDirective::Ignore,
        FeedEvent::StreamEnded => FeedDirective::Reconnect,
        FeedEvent::StreamError => FeedDirective::Reconnect,
        FeedEvent::SendFailed => FeedDirective::Reconnect,
        FeedEvent::ConnectFailed => FeedDirective::Reconnect,
    }
}

/// Law: every failure of the connection - a failed connect, a receive error,
/// an ended stream, or a departed consumer - directs the reader to reconnect
/// after the fixed backoff. [`FeedDirective`] has no stopping variant, so the
/// reader retries indefinitely and never terminates the process.
pub proof fn lemma_failure_always_reconnects(ev: FeedEvent)
    requires
        ev is StreamEnded || ev is StreamError || ev is SendFailed || ev is ConnectFailed,
    ensures
        feed_step_spec(ev) == FeedDirective::Reconnect,
{
}

/// The fixed feed endpoint, with the static query identifying the monitor.
pub fn feed_url() -> (r: String)
    ensures
        r@
            == "ws://localhost:8124?protocol-version=2.0.0&manufacturer=FawenYo&device=teams_meeting_monitor&app=Teams Meeting Monitor&app-version=1.0.0"@,
{
    String::from_str(
        "ws://localhost:8124?protocol-version=2.0.0&manufacturer=FawenYo&device=teams_meeting_monitor&app=Teams Meeting Monitor&app-version=1.0.0",
    )
}

} // verus!
