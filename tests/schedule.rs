use traindaily::blocker::{check_should_block, BlockerState, SurfaceAction};
use traindaily::calendar::{LocalDateTime, Weekday, WeekdaySet};
use traindaily::overlay::{should_trigger_break, BreakAction, BreakPolicy, OverlayState};
use traindaily::store::{SessionStore, WorkoutSession};

fn at(year: i32, month: u32, day: u32, hour: u32, weekday: Weekday) -> LocalDateTime {
    LocalDateTime::from_parts(year, month, day, hour, 0, weekday).unwrap()
}

fn empty_session() -> WorkoutSession {
    WorkoutSession {
        inverted_row: None,
        single_arm_row: None,
        pike_pushup: None,
        face_pull: None,
        pushup: Some(vec![10]),
        wall_lateral_raise: None,
        plank: None,
        logged_at: "2026-02-16T07:30:00Z".to_string(),
        week_number: 1,
    }
}

#[test]
fn date_key_has_fixed_width() {
    assert_eq!(at(2026, 2, 16, 9, Weekday::Mon).date_key(), "2026-02-16");
    assert_eq!(at(987, 12, 1, 0, Weekday::Tue).date_key(), "0987-12-01");
}

#[test]
fn parts_out_of_range_are_refused() {
    assert!(LocalDateTime::from_parts(2026, 13, 1, 0, 0, Weekday::Mon).is_none());
    assert!(LocalDateTime::from_parts(2026, 1, 0, 0, 0, Weekday::Mon).is_none());
    assert!(LocalDateTime::from_parts(2026, 1, 1, 24, 0, Weekday::Mon).is_none());
    assert!(LocalDateTime::from_parts(10000, 1, 1, 0, 0, Weekday::Mon).is_none());
    assert!(LocalDateTime::from_parts(-1, 1, 1, 0, 0, Weekday::Mon).is_none());
    assert!(LocalDateTime::from_parts(2026, 1, 1, 0, 60, Weekday::Mon).is_none());
}

#[test]
fn weekday_numbers() {
    assert_eq!(Weekday::Mon.num_days_from_monday(), 0);
    assert_eq!(Weekday::Sun.num_days_from_monday(), 6);
    assert_eq!(Weekday::from_days_from_monday(2), Some(Weekday::Wed));
    assert_eq!(Weekday::from_days_from_monday(7), None);
}

#[test]
fn training_day_without_session_blocks_until_one_is_saved() {
    let days = WeekdaySet::training_default();
    let monday = at(2026, 2, 16, 9, Weekday::Mon);
    let mut store = SessionStore::new();
    assert!(check_should_block(&days, &monday, &store));
    store.save("2026-02-16", empty_session());
    assert!(!check_should_block(&days, &monday, &store));
}

#[test]
fn rest_day_never_blocks() {
    let days = WeekdaySet::training_default();
    let store = SessionStore::new();
    assert!(!check_should_block(&days, &at(2026, 2, 17, 9, Weekday::Tue), &store));
    assert!(!check_should_block(&days, &at(2026, 2, 22, 9, Weekday::Sun), &store));
    assert!(check_should_block(&days, &at(2026, 2, 20, 9, Weekday::Fri), &store));
}

#[test]
fn blocker_shows_then_hides() {
    let mut state = BlockerState::new();
    assert!(!state.window_open);
    assert_eq!(state.decide(true), SurfaceAction::Show);
    state.record(SurfaceAction::Show, false);
    assert!(!state.window_open);
    assert_eq!(state.decide(true), SurfaceAction::Show);
    state.record(SurfaceAction::Show, true);
    assert!(state.window_open);
    assert_eq!(state.decide(true), SurfaceAction::Keep);
    assert_eq!(state.decide(false), SurfaceAction::Hide);
    state.record(SurfaceAction::Hide, true);
    assert!(!state.window_open);
    assert_eq!(state.decide(false), SurfaceAction::Keep);
}

#[test]
fn work_hours_gate() {
    let p = BreakPolicy::evidence_based();
    assert!(should_trigger_break(&p, &at(2026, 2, 16, 8, Weekday::Mon)));
    assert!(should_trigger_break(&p, &at(2026, 2, 16, 23, Weekday::Mon)));
    assert!(!should_trigger_break(&p, &at(2026, 2, 16, 7, Weekday::Mon)));
    assert!(!should_trigger_break(&p, &at(2026, 2, 22, 12, Weekday::Sun)));
}

#[test]
fn due_break_is_shown_when_presence_is_inactive() {
    let p = BreakPolicy::evidence_based();
    let now: u64 = 100_000;
    let mut s = OverlayState::new(now - 31 * 60);
    assert!(s.is_due(&p, now, true));
    assert_eq!(s.tick(&p, now, true, false), BreakAction::Show);
    assert_eq!(s.last_break, now);
    assert_eq!(s.deferred_until, None);
    assert_eq!(s.tick(&p, now + 60, true, false), BreakAction::Wait);
}

#[test]
fn due_break_is_deferred_while_presence_is_active() {
    let p = BreakPolicy::evidence_based();
    let now: u64 = 100_000;
    let mut s = OverlayState::new(now - 31 * 60);
    assert_eq!(s.tick(&p, now, true, true), BreakAction::Defer);
    assert_eq!(s.deferred_until, Some(now + 5 * 60));
    assert_eq!(s.last_break, now - 31 * 60);
    assert_eq!(s.tick(&p, now + 60, true, false), BreakAction::Wait);
    assert_eq!(s.tick(&p, now + 300, true, true), BreakAction::Defer);
    assert_eq!(s.deferred_until, Some(now + 600));
    assert_eq!(s.tick(&p, now + 600, true, false), BreakAction::Show);
    assert_eq!(s.last_break, now + 600);
    assert_eq!(s.deferred_until, None);
}

#[test]
fn nothing_happens_outside_work_hours() {
    let p = BreakPolicy::evidence_based();
    let mut s = OverlayState::new(0);
    assert!(!s.is_due(&p, 10_000, false));
    assert_eq!(s.tick(&p, 10_000, false, false), BreakAction::Wait);
    assert_eq!(s.last_break, 0);
    assert_eq!(s.tick(&p, 10_000, true, false), BreakAction::Show);
}

#[test]
fn break_not_due_before_the_interval() {
    let p = BreakPolicy::evidence_based();
    let mut s = OverlayState::new(1_000);
    assert_eq!(s.tick(&p, 1_000 + 1_799, true, false), BreakAction::Wait);
    assert_eq!(s.tick(&p, 500, true, false), BreakAction::Wait);
    assert_eq!(s.tick(&p, 1_000 + 1_800, true, false), BreakAction::Show);
}

#[test]
fn weekday_sets() {
    let t = WeekdaySet::training_default();
    assert!(t.contains(Weekday::Mon) && t.contains(Weekday::Wed) && t.contains(Weekday::Fri));
    assert!(!t.contains(Weekday::Tue) && !t.contains(Weekday::Sun));
    let w = WeekdaySet::all_except(Weekday::Sun);
    assert!(w.contains(Weekday::Sat) && !w.contains(Weekday::Sun));
    assert!(!WeekdaySet::empty().contains(Weekday::Thu));
}

#[test]
fn clock_reading_gives_a_date_key() {
    let now = LocalDateTime::now().unwrap();
    let key = now.date_key();
    assert_eq!(key.len(), 10);
    assert_eq!(&key[4..5], "-");
    assert_eq!(&key[7..8], "-");
    assert!(now.hour() < 24);
}
