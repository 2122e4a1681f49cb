use traindaily::relay::{Relay, Status, UPDATE_CAPACITY};
use traindaily::store::{SessionStore, WorkoutSession};

const SECRET: &str = "0123456789abcdef0123456789abcdef";

fn session(week_number: i32, pushup: Vec<i32>) -> WorkoutSession {
    WorkoutSession {
        inverted_row: None,
        single_arm_row: None,
        pike_pushup: None,
        face_pull: None,
        pushup: Some(pushup),
        wall_lateral_raise: None,
        plank: None,
        logged_at: "2026-02-16T07:30:00Z".to_string(),
        week_number,
    }
}

fn relay() -> Relay {
    Relay::new("studio-a1b2c3".to_string(), SECRET.to_string())
}

#[test]
fn ping_needs_no_credentials() {
    let r = relay();
    let reply = r.ping();
    assert_eq!(reply.device_id, "studio-a1b2c3");
    assert_eq!(reply.status, "ok");
    assert_eq!(Status::Success.code(), 200);
}

#[test]
fn status_codes() {
    assert_eq!(Status::BadRequest.code(), 400);
    assert_eq!(Status::Unauthorized.code(), 401);
    assert_eq!(Status::InternalError.code(), 500);
}

#[test]
fn post_then_get_shows_the_session() {
    let mut r = relay();
    let mut store = SessionStore::new();
    assert_eq!(r.post_session(&mut store, Some(SECRET), None, "2026-02-16", session(1, vec![10, 8])), Ok(()));
    let bearer = format!("Bearer {}", SECRET);
    let all = r.get_sessions(&store, None, Some(&bearer)).unwrap();
    assert_eq!(all.len(), 1);
    assert_eq!(all[0].0, "2026-02-16");
    assert_eq!(all[0].1.pushup, Some(vec![10, 8]));
    assert_eq!(all[0].1.week_number, 1);
}

#[test]
fn post_replaces_an_earlier_session() {
    let mut r = relay();
    let mut store = SessionStore::new();
    assert!(r.post_session(&mut store, Some(SECRET), None, "2026-02-16", session(1, vec![10, 8])).is_ok());
    assert!(r.post_session(&mut store, Some(SECRET), None, "2026-02-16", session(2, vec![12])).is_ok());
    let all = r.get_sessions(&store, Some(SECRET), None).unwrap();
    assert_eq!(all.len(), 1);
    assert_eq!(all[0].1.pushup, Some(vec![12]));
    assert_eq!(all[0].1.week_number, 2);
}

#[test]
fn wrong_or_missing_token_is_refused_without_change() {
    let mut r = relay();
    let mut store = SessionStore::new();
    assert_eq!(r.get_sessions(&store, None, None).unwrap_err(), Status::Unauthorized);
    assert_eq!(r.get_sessions(&store, Some("nope"), None).unwrap_err(), Status::Unauthorized);
    assert_eq!(
        r.post_session(&mut store, Some("nope"), None, "2026-02-16", session(1, vec![1])),
        Err(Status::Unauthorized)
    );
    assert_eq!(
        r.post_session(&mut store, None, Some("Bearer nope"), "2026-02-16", session(1, vec![1])),
        Err(Status::Unauthorized)
    );
    assert_eq!(r.post_session(&mut store, None, None, "2026-02-16", session(1, vec![1])), Err(Status::Unauthorized));
    assert_eq!(store.len(), 0);
    assert_eq!(r.subscribe(None, None), Err(Status::Unauthorized));
    assert_eq!(r.subscribe(Some("nope"), None), Err(Status::Unauthorized));
    assert_eq!(r.subscribe(None, Some(SECRET)), Err(Status::Unauthorized));
}

#[test]
fn query_token_is_checked_before_the_header() {
    let r = relay();
    let store = SessionStore::new();
    let bearer = format!("Bearer {}", SECRET);
    assert_eq!(r.get_sessions(&store, Some("nope"), Some(&bearer)).unwrap_err(), Status::Unauthorized);
    assert!(r.get_sessions(&store, Some(SECRET), Some("Bearer nope")).is_ok());
}

#[test]
fn notification_reaches_current_subscribers_once() {
    let mut r = relay();
    let mut store = SessionStore::new();
    let early = r.subscribe(Some(SECRET), None).unwrap();
    assert!(r.post_session(&mut store, Some(SECRET), None, "2026-02-16", session(1, vec![1])).is_ok());
    let late = r.subscribe(Some(SECRET), None).unwrap();
    assert_eq!(r.take_updates(early), vec!["2026-02-16".to_string()]);
    assert!(r.take_updates(early).is_empty());
    assert!(r.take_updates(late).is_empty());
    assert!(r.post_session(&mut store, Some(SECRET), None, "2026-02-18", session(1, vec![2])).is_ok());
    assert_eq!(r.take_updates(late), vec!["2026-02-18".to_string()]);
    r.unsubscribe(early);
    assert!(r.take_updates(early).is_empty());
}

#[test]
fn slow_subscriber_keeps_the_newest_notifications() {
    let mut r = relay();
    let mut store = SessionStore::new();
    let id = r.subscribe(Some(SECRET), None).unwrap();
    for day in 0..(UPDATE_CAPACITY + 1) {
        let key = format!("2026-01-{:03}", day);
        assert!(r.post_session(&mut store, Some(SECRET), None, &key, session(1, vec![1])).is_ok());
    }
    let got = r.take_updates(id);
    assert_eq!(got.len(), UPDATE_CAPACITY);
    assert_eq!(got[0], "2026-01-001");
    assert_eq!(got[UPDATE_CAPACITY - 1], format!("2026-01-{:03}", UPDATE_CAPACITY));
}

#[test]
fn credentials_are_checked_against_the_secret() {
    let r = relay();
    assert!(r.is_authorized(Some(SECRET), None));
    assert!(r.is_authorized(None, Some(&format!("Bearer {}", SECRET))));
    assert!(!r.is_authorized(None, None));
    assert!(!r.is_authorized(Some("x"), None));
}
