//! The heartbeat task's decision logic.
//!
//! While a meeting is active, a heartbeat task periodically re-sends the
//! "in meeting" notification. The task polls the shared active flag before
//! every beat; the flag is its only stop signal, so after the flag falls the
//! task sends nothing further and exits within one interval.

use vstd::prelude::*;

verus! {

/// Seconds between two heartbeat notifications while a meeting is active.
pub const HEARTBEAT_INTERVAL_SECS: u64 = 60;

/// What the heartbeat task must do after reading the shared active flag once.
#[derive(Clone, Copy, Debug, PartialEq, Eq)]
pub enum HeartbeatDirective {
    /// Send one notification with meeting status `true`, then sleep one interval.
    Beat,
    /// The meeting has ended: send nothing and exit the task.
    Stop,
}

/// One poll of the heartbeat loop: beat exactly while the shared flag is true.
///
/// The task never sends after the flag has fallen: a `false` reading maps to
/// `Stop`, under which the caller exits without a notification.
pub fn heartbeat_step(active: bool) -> (d: HeartbeatDirective)
    ensures
        d == (if active {
            HeartbeatDirective::Beat
        } else {
            HeartbeatDirective::Stop
        }),
{
    if active {
        HeartbeatDirective::Beat
    } else {
        HeartbeatDirective::Stop
    }
}

} // verus!
