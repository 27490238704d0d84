use rhythm_win::session::{RestSession, SessionStore, MAX_SESSIONS};

#[test]
fn recent_should_return_latest_first() {
    let mut store = SessionStore::default();
    store.push_completed(60, 60, 1, 2);
    store.push_completed(90, 80, 3, 4);
    let recent = store.recent(1);
    assert_eq!(recent.len(), 1);
    assert_eq!(recent[0].scheduled_rest_seconds, 90);
}

#[test]
fn completed_record_fields() {
    let mut store = SessionStore::default();
    store.push_completed(300, 297, 1000, 1297);
    let r = store.recent(10);
    assert_eq!(r.len(), 1);
    assert_eq!(r[0].id, "session-1000-1297");
    assert_eq!(r[0].actual_rest_seconds, 297);
    assert_eq!(r[0].started_at_epoch, 1000);
    assert_eq!(r[0].ended_at_epoch, 1297);
    assert_eq!(r[0].created_at_epoch, 1297);
    assert!(!r[0].skipped);
    assert!(r[0].skip_reason.is_none());
}

#[test]
fn skipped_record_fields() {
    let mut store = SessionStore::default();
    store.push_skipped(120, -5, 7, "esc");
    let r = store.recent(1);
    assert_eq!(r[0].id, "session--5-7");
    assert_eq!(r[0].scheduled_rest_seconds, 120);
    assert_eq!(r[0].actual_rest_seconds, 0);
    assert!(r[0].skipped);
    assert_eq!(r[0].skip_reason.as_deref(), Some("esc"));
    assert_eq!(r[0].created_at_epoch, 7);
}

#[test]
fn recent_orders_and_limits() {
    let mut store = SessionStore::default();
    for i in 0..5i64 {
        store.push_completed(10, 10, i, i + 1);
    }
    let r = store.recent(3);
    let starts: Vec<i64> = r.iter().map(|s| s.started_at_epoch).collect();
    assert_eq!(starts, vec![4, 3, 2]);
    assert_eq!(store.recent(100).len(), 5);
    assert_eq!(store.recent(0).len(), 0);
}

#[test]
fn history_is_capped_at_the_latest_records() {
    let mut store = SessionStore::default();
    for i in 0..(MAX_SESSIONS as i64 + 5) {
        store.push_completed(1, 1, i, i);
    }
    assert_eq!(store.len(), MAX_SESSIONS);
    assert_eq!(store.sessions()[0].started_at_epoch, 5);
    assert_eq!(store.recent(1)[0].started_at_epoch, MAX_SESSIONS as i64 + 4);
}

#[test]
fn a_loaded_oversized_history_is_trimmed_on_the_next_push() {
    let mut all = Vec::new();
    for i in 0..(MAX_SESSIONS as i64 + 20) {
        all.push(RestSession {
            id: format!("x{i}"),
            scheduled_rest_seconds: 1,
            actual_rest_seconds: 1,
            started_at_epoch: i,
            ended_at_epoch: i,
            skipped: false,
            skip_reason: None,
            created_at_epoch: i,
        });
    }
    let mut store = SessionStore::from_sessions(all);
    assert_eq!(store.len(), MAX_SESSIONS + 20);
    store.push_skipped(5, 9, 9, "skip-mode");
    assert_eq!(store.len(), MAX_SESSIONS);
    assert_eq!(store.sessions()[0].started_at_epoch, 21);
    assert_eq!(store.recent(1)[0].skip_reason.as_deref(), Some("skip-mode"));
}
