//! Movement breaks: every interval of work, a break surface is shown, put
//! off while the microphone is in use, and only within working hours.
use crate::calendar::{LocalDateTime, Weekday, WeekdaySet};
use vstd::prelude::*;

verus! {

/// Seconds between two evaluations of the break rule.
pub const TICK_SECS: u64 = 60;

/// When breaks may come and how often.
#[derive(Clone, Copy, Debug)]
pub struct BreakPolicy {
    /// Seconds of work between two breaks.
    pub interval_secs: u64,
    /// Seconds a break waits while the microphone is in use.
    pub defer_secs: u64,
    /// First hour of the working day.
    pub work_start_hour: u8,
    /// Hour at which the working day ends, not included; 24 for midnight.
    pub work_end_hour: u8,
    /// Days on which breaks come.
    pub work_days: WeekdaySet,
}

impl BreakPolicy {
    /// A break every 30 minutes, put off 5 minutes at a time, from 8:00 to
    /// midnight on every day but Sunday.
    pub fn evidence_based() -> (r: BreakPolicy)
        ensures
            r.interval_secs == 1800,
            r.defer_secs == 300,
            r.work_start_hour == 8,
            r.work_end_hour == 24,
            forall|d: Weekday| r.work_days.has(d) == (d != Weekday::Sun),
    {
        BreakPolicy {
            interval_secs: 1800,
            defer_secs: 300,
            work_start_hour: 8,
            work_end_hour: 24,
            work_days: WeekdaySet::all_except(Weekday::Sun),
        }
    }
}

/// Breaks may come on a working day within working hours.
pub open spec fn in_work_hours(policy: BreakPolicy, weekday: Weekday, hour: nat) -> bool {
    policy.work_days.has(weekday) && policy.work_start_hour <= hour && hour < policy.work_end_hour
}

/// Whether a break may come at `now`.
pub fn should_trigger_break(policy: &BreakPolicy, now: &LocalDateTime) -> (r: bool)
    ensures
        r == in_work_hours(*policy, now@.weekday, now@.hour),
{
    if !policy.work_days.contains(now.weekday()) {
        return false;
    }
    let hour = now.hour();
    policy.work_start_hour <= hour && hour < policy.work_end_hour
}

/// What the break scheduler does on a tick.
#[derive(Clone, Copy, Debug, PartialEq, Eq, Structural)]
pub enum BreakAction {
    /// Nothing is due.
    Wait,
    /// Show the break surface.
    Show,
    /// Put the break off: the microphone is in use.
    Defer,
}

/// Seconds from `last` to `now`; none where the clock reads earlier.
pub open spec fn elapsed(now: u64, last: u64) -> nat {
    if now >= last {
        (now - last) as nat
    } else {
        0
    }
}

/// `now + secs`, held at the largest instant.
pub open spec fn later(now: u64, secs: u64) -> u64 {
    if now + secs <= u64::MAX {
        (now + secs) as u64
    } else {
        u64::MAX
    }
}

/// Clock readings are whole seconds of a monotonic clock.
#[derive(Clone, Copy, Debug, PartialEq, Eq, Structural)]
pub struct OverlayState {
    /// When the last break was shown.
    pub last_break: u64,
    /// While a break is put off, when to look again.
    pub deferred_until: Option<u64>,
}

/// Whether a decision falls due: within working hours, and either a put-off
/// break's time has come, or, with none put off, a whole interval has passed
/// since the last break.
pub open spec fn due(state: OverlayState, policy: BreakPolicy, now: u64, gate_open: bool) -> bool {
    &&& gate_open
    &&& match state.deferred_until {
        Some(t) => now >= t,
        None => elapsed(now, state.last_break) >= policy.interval_secs,
    }
}

/// The state after a tick, and what the tick does.
pub open spec fn next(state: OverlayState, policy: BreakPolicy, now: u64, gate_open: bool, presence_active: bool) -> (OverlayState, BreakAction) {
    if !due(state, policy, now, gate_open) {
        (state, BreakAction::Wait)
    } else if presence_active {
        (OverlayState { last_break: state.last_break, deferred_until: Some(later(now, policy.defer_secs)) }, BreakAction::Defer)
    } else {
        (OverlayState { last_break: now, deferred_until: None }, BreakAction::Show)
    }
}

/// A break due after a whole interval, with none put off and within working
/// hours: with the microphone idle it is shown and its time recorded; with
/// the microphone in use it is put off by the defer time and the time of the
/// last break is kept. Putting off reaches `now + defer` only where that
/// instant fits the clock; above it the instant is held at the largest one.
pub proof fn lemma_due_break(state: OverlayState, policy: BreakPolicy, now: u64)
    requires
        state.deferred_until.is_none(),
        elapsed(now, state.last_break) >= policy.interval_secs,
    ensures
        next(state, policy, now, true, false) == (OverlayState { last_break: now, deferred_until: None }, BreakAction::Show),
        now + policy.defer_secs <= u64::MAX ==> next(state, policy, now, true, true) == (
            OverlayState { last_break: state.last_break, deferred_until: Some((now + policy.defer_secs) as u64) },
            BreakAction::Defer,
        ),
{
}

impl OverlayState {
    /// A scheduler whose clock starts at `now`.
    pub fn new(now: u64) -> (r: OverlayState)
        ensures
            r.last_break == now,
            r.deferred_until.is_none(),
    {
        OverlayState { last_break: now, deferred_until: None }
    }

    pub open spec fn is_deferred(self) -> bool {
        self.deferred_until.is_some()
    }

    /// Whether this tick reaches a decision, for which the presence signal
    /// must be read.
    pub fn is_due(&self, policy: &BreakPolicy, now: u64, gate_open: bool) -> (r: bool)
        ensures
            r == due(*self, *policy, now, gate_open),
    {
        let r = if !gate_open {
            false
        } else if self.deferred_until.is_some() {
            let t = self.deferred_until.unwrap();
            now >= t
        } else {
            let since = if now >= self.last_break { now - self.last_break } else { 0 };
            since >= policy.interval_secs
        };
        r
    }

    /// One tick at `now`. A due break is shown unless the microphone is in
    /// use; then it is put off by the defer time, again and again for as long
    /// as the microphone stays in use. The time of the break is recorded even
    /// where showing the surface fails, so a failing surface is not retried at
    /// once.
    pub fn tick(&mut self, policy: &BreakPolicy, now: u64, gate_open: bool, presence_active: bool) -> (r: BreakAction)
        ensures
            (*final(self), r) == next(*old(self), *policy, now, gate_open, presence_active),
    {
        if !self.is_due(policy, now, gate_open) {
            return BreakAction::Wait;
        }
        if presence_active {
            self.deferred_until = Some(now.saturating_add(policy.defer_secs));
            BreakAction::Defer
        } else {
            self.last_break = now;
            self.deferred_until = None;
            BreakAction::Show
        }
    }
}

} // verus!
