//! The state coordinator: an edge-triggered state machine over the boolean
//! meeting-signal stream.
//!
//! The coordinator consumes one signal at a time and answers with a
//! [`Directive`]: the value to write to the shared active flag, the log line
//! to emit (if any), whether to send an immediate "meeting over" notification,
//! and whether to spawn the heartbeat task. Notifications and heartbeat
//! spawns are directed only while a notification target is configured;
//! the log lines are directed either way.

use vstd::prelude::*;

verus! {

/// The coordinator's memory: a three-state edge detector.
///
/// `Unobserved` holds only before the first signal ever arrives; afterwards
/// the state is `Active` or `Inactive`, the value of the last signal.
#[derive(Clone, Copy, Debug, PartialEq, Eq)]
pub enum MeetingState {
    Unobserved,
    Inactive,
    Active,
}

/// Log lines the coordinator directs its caller to emit.
#[derive(Clone, Copy, Debug, PartialEq, Eq)]
pub enum LogEvent {
    MeetingStarted,
    MeetingEnded,
    NoMeetingInProgress,
}

/// Everything the caller must do after feeding one signal to the coordinator.
#[derive(Clone, Copy, Debug, PartialEq, Eq)]
pub struct Directive {
    /// The value to store into the shared active flag (always the signal itself).
    pub flag: bool,
    /// The log line to emit, if this signal is an edge.
    pub log: Option<LogEvent>,
    /// Send one notification with meeting status `false` now.
    pub notify_end: bool,
    /// Spawn a heartbeat task now.
    pub spawn_heartbeat: bool,
}

/// The state after one signal: the detector simply remembers the signal.
pub open spec fn next_state(st: MeetingState, signal: bool) -> MeetingState {
    if signal {
        MeetingState::Active
    } else {
        MeetingState::Inactive
    }
}

/// The log line one signal produces: an edge logs, a steady repeat is silent.
pub open spec fn step_log(st: MeetingState, signal: bool) -> Option<LogEvent> {
    if signal {
        if st == MeetingState::Active {
            None
        } else {
            Some(LogEvent::MeetingStarted)
        }
    } else {
        if st == MeetingState::Active {
            Some(LogEvent::MeetingEnded)
        } else if st == MeetingState::Unobserved {
            Some(LogEvent::NoMeetingInProgress)
        } else {
            None
        }
    }
}

/// A "meeting over" notification is sent on a true-to-false edge, or for a
/// first-ever `false` signal (the initial announcement) - and only while a
/// notification target is configured.
pub open spec fn step_notify_end(st: MeetingState, signal: bool, enabled: bool) -> bool {
    enabled && !signal && (st == MeetingState::Active || st == MeetingState::Unobserved)
}

/// A heartbeat task is spawned exactly on a start edge, and only while a
/// notification target is configured.
pub open spec fn step_spawn(st: MeetingState, signal: bool, enabled: bool) -> bool {
    enabled && signal && st != MeetingState::Active
}

/// The full directive for one signal.
pub open spec fn step_directive(st: MeetingState, signal: bool, enabled: bool) -> Directive {
    Directive {
        flag: signal,
        log: step_log(st, signal),
        notify_end: step_notify_end(st, signal, enabled),
        spawn_heartbeat: step_spawn(st, signal, enabled),
    }
}

/// The coordinator: the edge detector plus the fixed notification switch.
pub struct Coordinator {
    pub state: MeetingState,
    pub notify_enabled: bool,
}

impl Coordinator {
    /// A fresh coordinator: nothing observed yet.
    ///
    /// `notify_enabled` says whether a notification target is configured;
    /// with `false`, no step ever directs a notification or a heartbeat spawn.
    pub fn new(notify_enabled: bool) -> (c: Coordinator)
        ensures
            c.state == MeetingState::Unobserved,
            c.notify_enabled == notify_enabled,
    {
        Coordinator { state: MeetingState::Unobserved, notify_enabled }
    }

    /// Consume one signal: advance the edge detector and direct the caller.
    pub fn step(&mut self, signal: bool) -> (d: Directive)
        ensures
            final(self).state == next_state(old(self).state, signal),
            final(self).notify_enabled == old(self).notify_enabled,
            d == step_directive(old(self).state, signal, old(self).notify_enabled),
    {
        let was_active = match self.state {
            MeetingState::Active => true,
            _ => false,
        };
        let was_unobserved = match self.state {
            MeetingState::Unobserved => true,
            _ => false,
        };
        let log: Option<LogEvent> = if signal {
            if was_active {
                None
            } else {
                Some(LogEvent::MeetingStarted)
            }
        } else {
            if was_active {
                Some(LogEvent::MeetingEnded)
            } else if was_unobserved {
                Some(LogEvent::NoMeetingInProgress)
            } else {
                None
            }
        };
        let d = Directive {
            flag: signal,
            log,
            notify_end: self.notify_enabled && !signal && (was_active || was_unobserved),
            spawn_heartbeat: self.notify_enabled && signal && !was_active,
        };
        self.state = if signal {
            MeetingState::Active
        } else {
            MeetingState::Inactive
        };
        d
    }
}

/// The state after a whole signal sequence.
pub open spec fn state_after(st: MeetingState, signals: Seq<bool>) -> MeetingState
    decreases signals.len(),
{
    if signals.len() == 0 {
        st
    } else {
        state_after(next_state(st, signals[0]), signals.drop_first())
    }
}

/// How many "meeting started" log lines a signal sequence produces from `st`.
pub open spec fn count_started(st: MeetingState, signals: Seq<bool>) -> nat
    decreases signals.len(),
{
    if signals.len() == 0 {
        0
    } else {
        (if step_log(st, signals[0]) == Some(LogEvent::MeetingStarted) {
            1nat
        } else {
            0nat
        }) + count_started(next_state(st, signals[0]), signals.drop_first())
    }
}

/// How many "meeting over" notifications a signal sequence directs from `st`.
pub open spec fn count_notify_false(st: MeetingState, signals: Seq<bool>, enabled: bool) -> nat
    decreases signals.len(),
{
    if signals.len() == 0 {
        0
    } else {
        (if step_notify_end(st, signals[0], enabled) {
            1nat
        } else {
            0nat
        }) + count_notify_false(next_state(st, signals[0]), signals.drop_first(), enabled)
    }
}

/// How many heartbeat spawns a signal sequence directs from `st`.
pub open spec fn count_spawns(st: MeetingState, signals: Seq<bool>, enabled: bool) -> nat
    decreases signals.len(),
{
    if signals.len() == 0 {
        0
    } else {
        (if step_spawn(st, signals[0], enabled) {
            1nat
        } else {
            0nat
        }) + count_spawns(next_state(st, signals[0]), signals.drop_first(), enabled)
    }
}

/// The number of maximal runs of consecutive `true` in a sequence, where
/// `prev` is the signal just before the sequence (`false` at process start).
pub open spec fn count_true_runs(prev: bool, signals: Seq<bool>) -> nat
    decreases signals.len(),
{
    if signals.len() == 0 {
        0
    } else {
        (if signals[0] && !prev {
            1nat
        } else {
            0nat
        }) + count_true_runs(signals[0], signals.drop_first())
    }
}

/// The number of true-to-false edges in a sequence, where `prev` is the
/// signal just before the sequence.
pub open spec fn count_end_edges(prev: bool, signals: Seq<bool>) -> nat
    decreases signals.len(),
{
    if signals.len() == 0 {
        0
    } else {
        (if !signals[0] && prev {
            1nat
        } else {
            0nat
        }) + count_end_edges(signals[0], signals.drop_first())
    }
}

/// Law: the coordinator logs "meeting started" exactly once per maximal run
/// of consecutive `true` signals.
///
/// Since every step writes `flag = signal` into the shared active flag, the
/// flag's false-to-true writes also happen exactly at the first `true` of
/// each such run: the same count bounds them.
///
/// `prev` mirrors the state: it is `true` exactly when `st` is `Active`. The
/// coordinator starts at `Unobserved` with no signal before it, so the pair
/// `(Unobserved, false)` satisfies the premise.
pub proof fn lemma_started_once_per_true_run(st: MeetingState, prev: bool, signals: Seq<bool>)
    requires
        prev <==> st == MeetingState::Active,
    ensures
        count_started(st, signals) == count_true_runs(prev, signals),
    decreases signals.len(),
{
    if signals.len() > 0 {
        lemma_started_once_per_true_run(
            next_state(st, signals[0]),
            signals[0],
            signals.drop_first(),
        );
    }
}

/// Law: with a notification target configured, heartbeat spawns happen
/// exactly where "meeting started" is logged: once per maximal run of
/// consecutive `true` signals. Before a run can spawn again, a true-to-false
/// edge has lowered the shared flag and stopped the earlier task, so at most
/// one heartbeat task is logically active at a time.
pub proof fn lemma_one_spawn_per_true_run(st: MeetingState, prev: bool, signals: Seq<bool>)
    requires
        prev <==> st == MeetingState::Active,
    ensures
        count_spawns(st, signals, true) == count_true_runs(prev, signals),
    decreases signals.len(),
{
    if signals.len() > 0 {
        lemma_one_spawn_per_true_run(next_state(st, signals[0]), signals[0], signals.drop_first());
    }
}

/// Helper for the notification count: once the first signal has been seen,
/// "meeting over" notifications happen exactly on true-to-false edges.
pub proof fn lemma_notify_false_matches_end_edges(st: MeetingState, signals: Seq<bool>)
    requires
        st != MeetingState::Unobserved,
    ensures
        count_notify_false(st, signals, true) == count_end_edges(
            st == MeetingState::Active,
            signals,
        ),
    decreases signals.len(),
{
    if signals.len() > 0 {
        lemma_notify_false_matches_end_edges(next_state(st, signals[0]), signals.drop_first());
    }
}

/// Law: with a notification target configured, the number of "meeting over"
/// notifications equals the number of true-to-false edges, plus one if the
/// very first signal ever received is `false` (the initial announcement),
/// and is zero for the empty sequence.
pub proof fn lemma_notify_false_count(signals: Seq<bool>)
    ensures
        count_notify_false(MeetingState::Unobserved, signals, true) == count_end_edges(
            false,
            signals,
        ) + (if signals.len() > 0 && !signals[0] {
            1int
        } else {
            0int
        }),
{
    if signals.len() > 0 {
        lemma_notify_false_matches_end_edges(
            next_state(MeetingState::Unobserved, signals[0]),
            signals.drop_first(),
        );
    }
}

/// Law: a signal that repeats the state's own reading is silent - no log, no
/// notification, no heartbeat spawn, and the state does not move.
pub proof fn lemma_repeat_signal_silent(st: MeetingState, signal: bool, enabled: bool)
    requires
        st == next_state(st, signal),
    ensures
        step_directive(st, signal, enabled).log is None,
        !step_directive(st, signal, enabled).notify_end,
        !step_directive(st, signal, enabled).spawn_heartbeat,
{
}

/// Law: after the first signal of a constant run, the rest of the run
/// produces no further logs, notifications, or spawns, and leaves the state
/// where the first signal put it.
pub proof fn lemma_steady_run_silent(
    st: MeetingState,
    signal: bool,
    signals: Seq<bool>,
    enabled: bool,
)
    requires
        st == next_state(st, signal),
        forall|i: int| 0 <= i < signals.len() ==> signals[i] == signal,
    ensures
        count_started(st, signals) == 0,
        count_notify_false(st, signals, enabled) == 0,
        count_spawns(st, signals, enabled) == 0,
        state_after(st, signals) == st,
    decreases signals.len(),
{
    if signals.len() > 0 {
        assert(signals[0] == signal);
        assert(forall|i: int|
            0 <= i < signals.drop_first().len() ==> signals.drop_first()[i] == signal);
        lemma_steady_run_silent(st, signal, signals.drop_first(), enabled);
    }
}

/// Law: with no notification target configured, no signal sequence ever
/// directs a notification or a heartbeat spawn - the monitor only logs.
pub proof fn lemma_disabled_never_notifies(st: MeetingState, signals: Seq<bool>)
    ensures
        count_notify_false(st, signals, false) == 0,
        count_spawns(st, signals, false) == 0,
    decreases signals.len(),
{
    if signals.len() > 0 {
        lemma_disabled_never_notifies(next_state(st, signals[0]), signals.drop_first());
    }
}

} // verus!
