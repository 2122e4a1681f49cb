//! Training-day enforcement: on a training day with no session logged, a
//! full-screen surface blocks the computer until a session appears.
use crate::calendar::{LocalDateTime, Weekday, WeekdaySet};
use crate::store::{SessionStore, WorkoutSession};
use vstd::prelude::*;

verus! {

/// Seconds between two evaluations of the blocking rule.
pub const CHECK_INTERVAL_SECS: u64 = 10;

/// What to do with a surface on this tick.
#[derive(Clone, Copy, Debug, PartialEq, Eq, Structural)]
pub enum SurfaceAction {
    Show,
    Hide,
    Keep,
}

/// The day blocks when it is a training day and no session is stored under
/// its key.
pub open spec fn blocks(training_days: WeekdaySet, weekday: Weekday, today_key: Seq<char>, sessions: Map<Seq<char>, WorkoutSession>) -> bool {
    training_days.has(weekday) && !sessions.contains_key(today_key)
}

/// Whether the computer should be blocked at `now`.
pub fn check_should_block(training_days: &WeekdaySet, now: &LocalDateTime, store: &SessionStore) -> (r: bool)
    requires
        store.wf(),
    ensures
        r == blocks(*training_days, now@.weekday, now.key(), store.sessions()),
{
    if !training_days.contains(now.weekday()) {
        return false;
    }
    let key = now.date_key();
    !store.contains_key(key.as_str())
}

/// Once a session is stored under today's key, today no longer blocks,
/// whatever was stored before.
pub proof fn lemma_logged_session_unblocks(
    training_days: WeekdaySet,
    now: LocalDateTime,
    sessions: Map<Seq<char>, WorkoutSession>,
    session: WorkoutSession,
)
    ensures
        !blocks(training_days, now@.weekday, now.key(), sessions.insert(now.key(), session)),
{
}

/// The surface step for a blocking verdict and whether the surface is shown.
pub open spec fn action_for(block: bool, window_open: bool) -> SurfaceAction {
    if block && !window_open {
        SurfaceAction::Show
    } else if !block && window_open {
        SurfaceAction::Hide
    } else {
        SurfaceAction::Keep
    }
}

/// Whether the surface is shown after `action` was attempted.
pub open spec fn open_after(window_open: bool, action: SurfaceAction, succeeded: bool) -> bool {
    if !succeeded {
        window_open
    } else {
        match action {
            SurfaceAction::Show => true,
            SurfaceAction::Hide => false,
            SurfaceAction::Keep => window_open,
        }
    }
}

pub struct BlockerState {
    pub enabled: bool,
    pub window_open: bool,
}

impl BlockerState {
    pub fn new() -> (r: BlockerState)
        ensures
            !r.enabled,
            !r.window_open,
    {
        BlockerState { enabled: false, window_open: false }
    }

    /// The surface step for this tick: show when blocking and hidden, hide
    /// when not blocking and shown, else leave it.
    pub fn decide(&self, block: bool) -> (r: SurfaceAction)
        ensures
            r == action_for(block, self.window_open),
    {
        if block && !self.window_open {
            SurfaceAction::Show
        } else if !block && self.window_open {
            SurfaceAction::Hide
        } else {
            SurfaceAction::Keep
        }
    }

    /// Records how the attempt at `action` went. A failed attempt leaves the
    /// state as it was, so the next tick tries again.
    pub fn record(&mut self, action: SurfaceAction, succeeded: bool)
        ensures
            final(self).window_open == open_after(old(self).window_open, action, succeeded),
            final(self).enabled == old(self).enabled,
    {
        if succeeded {
            match action {
                SurfaceAction::Show => self.window_open = true,
                SurfaceAction::Hide => self.window_open = false,
                SurfaceAction::Keep => {},
            }
        }
    }
}

} // verus!
