use rhythm_win::display::{
    format_count, format_focus_text, format_local_time, format_rest_text, format_seconds,
    format_session_time, phase_label,
};
use rhythm_win::session::SessionStore;
use rhythm_win::text::{i64_text, u64_text};
use rhythm_win::timer_engine::Phase;

#[test]
fn decimal_texts() {
    assert_eq!(u64_text(0), "0");
    assert_eq!(u64_text(907), "907");
    assert_eq!(u64_text(u64::MAX), u64::MAX.to_string());
    assert_eq!(i64_text(-42), "-42");
    assert_eq!(i64_text(i64::MIN), i64::MIN.to_string());
    assert_eq!(i64_text(i64::MAX), i64::MAX.to_string());
}

#[test]
fn clock_texts() {
    assert_eq!(format_seconds(0), "00:00");
    assert_eq!(format_seconds(125), "02:05");
    assert_eq!(format_seconds(1500), "25:00");
    assert_eq!(format_seconds(6000), "100:00");
}

#[test]
fn settings_texts() {
    assert_eq!(format_rest_text(300), "5 分钟");
    assert_eq!(format_rest_text(90), "90 秒");
    assert_eq!(format_rest_text(0), "0 分钟");
    assert_eq!(format_focus_text(25), "25 分钟");
    assert_eq!(format_count(7), "7 次");
    assert_eq!(phase_label(Phase::Focusing), "专注中");
    assert_eq!(phase_label(Phase::Resting), "休息中");
}

#[test]
fn record_texts() {
    let mut store = SessionStore::default();
    store.push_completed(300, 299, 10, 309);
    store.push_skipped(300, 400, 420, "esc");
    let r = store.recent(2);
    assert_eq!(r[0].outcome_label(), "跳过 05:00");
    assert_eq!(r[1].outcome_label(), "完成 04:59");
    assert_eq!(
        r[0].summary_line(),
        "[session-400-420] scheduled=300s actual=0s skipped=true reason=esc"
    );
    assert_eq!(
        r[1].summary_line(),
        "[session-10-309] scheduled=300s actual=299s skipped=false reason=-"
    );
}

#[test]
fn local_time_texts() {
    assert_eq!(format_local_time(Some((3, 7, 9, 5))), "03-07 09:05");
    assert_eq!(format_local_time(Some((12, 31, 23, 59))), "12-31 23:59");
    assert_eq!(format_local_time(None), "-");
}

#[test]
fn session_time_has_the_month_day_time_shape() {
    let mut store = SessionStore::default();
    store.push_completed(60, 60, 1_700_000_000, 1_700_000_060);
    let label = format_session_time(store.recent(1)[0]);
    let b = label.as_bytes();
    assert_eq!(b.len(), 11, "{label}");
    assert_eq!((b[2], b[5], b[8]), (b'-', b' ', b':'));
    let field = |i: usize| ((b[i] - b'0') as u32) * 10 + (b[i + 1] - b'0') as u32;
    assert!((1..=12).contains(&field(0)));
    assert!((1..=31).contains(&field(3)));
    assert!(field(6) <= 23);
    assert!(field(9) <= 59);
}

#[test]
fn session_time_outside_the_date_range_is_a_dash() {
    let mut store = SessionStore::default();
    store.push_completed(60, 60, i64::MAX, i64::MAX);
    assert_eq!(format_session_time(store.recent(1)[0]), "-");
    let mut far = SessionStore::default();
    far.push_completed(60, 60, -8_000_000_000_000, 0);
    assert_eq!(format_session_time(far.recent(1)[0]).len(), 11);
}

#[test]
fn session_time_is_the_start_read_in_some_zone() {
    let start = 1_700_000_000i64;
    let mut store = SessionStore::default();
    store.push_completed(60, 60, start, start + 60);
    let label = format_session_time(store.recent(1)[0]);
    let matches_some_offset = (-86_399i64..86_400).step_by(60).any(|off| {
        chrono::DateTime::from_timestamp(start + off, 0)
            .unwrap()
            .format("%m-%d %H:%M")
            .to_string()
            == label
    });
    assert!(matches_some_offset, "{label}");
    assert!(["11-13", "11-14", "11-15"].contains(&&label[..5]), "{label}");
}
