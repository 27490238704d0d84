use rhythm_win::config::AppConfig;
use rhythm_win::rhythm::{catch_up, lock_poll_due, CatchUp, PendingRest, RhythmCore};
use rhythm_win::session::SessionStore;
use rhythm_win::timer_engine::{EngineTransition, Phase};

fn new_core(focus_minutes: u64, rest_seconds: u64, skip: bool) -> RhythmCore {
    let config = AppConfig {
        focus_minutes,
        rest_seconds,
        skip_rest_enabled: skip,
        launch_at_login: false,
    };
    RhythmCore::new(config, SessionStore::default())
}

#[test]
fn new_core_normalizes_and_starts_focusing() {
    let c = new_core(1, 5000, false);
    assert_eq!(c.config().focus_minutes, 10);
    assert_eq!(c.config().rest_seconds, 600);
    assert_eq!(c.engine().phase(), Phase::Focusing);
    assert_eq!(c.engine().remaining_seconds(), 600);
    assert!(c.pending_rest().is_none());
}

#[test]
fn catch_up_plans() {
    assert_eq!(catch_up(0), CatchUp::Wait);
    assert_eq!(catch_up(1), CatchUp::Advance(1));
    assert_eq!(catch_up(9), CatchUp::Advance(9));
    assert_eq!(catch_up(10), CatchUp::Reset);
}

#[test]
fn focus_period_then_completed_rest_is_recorded() {
    let mut c = new_core(10, 30, false);
    let mut now = 1_000i64;
    for _ in 0..600 {
        assert_eq!(c.tick_second(now), EngineTransition::Continue);
        now += 1;
    }
    let t = c.tick_second(now);
    assert_eq!(t, EngineTransition::FocusToRest { scheduled_rest_seconds: 30, started_at_epoch: 1600 });
    c.begin_rest(30, 1600);
    assert_eq!(c.pending_rest(), Some(PendingRest { started_at_epoch: 1600, scheduled_rest_seconds: 30 }));
    assert!(!c.skip_rest_if_enabled(30, 1600, 1600));
    for _ in 0..30 {
        now += 1;
        assert_eq!(c.tick_second(now), EngineTransition::Continue);
    }
    now += 1;
    match c.tick_second(now) {
        EngineTransition::RestCompleted { scheduled_rest_seconds, actual_rest_seconds, started_at_epoch, ended_at_epoch } => {
            assert_eq!((scheduled_rest_seconds, actual_rest_seconds, started_at_epoch, ended_at_epoch), (30, 31, 1600, 1631));
            c.finish_rest(scheduled_rest_seconds, actual_rest_seconds, started_at_epoch, ended_at_epoch);
        }
        other => panic!("unexpected {other:?}"),
    }
    assert!(c.pending_rest().is_none());
    let r = c.sessions().recent(1);
    assert_eq!(r[0].id, "session-1600-1631");
    assert!(!r[0].skipped);
    assert_eq!(c.engine().phase(), Phase::Focusing);
    assert_eq!(c.engine().remaining_seconds(), 600);
}

#[test]
fn skip_mode_records_a_skipped_rest() {
    let mut c = new_core(10, 60, true);
    let t = c.start_rest(50);
    assert_eq!(t, EngineTransition::FocusToRest { scheduled_rest_seconds: 60, started_at_epoch: 50 });
    c.begin_rest(60, 50);
    assert!(c.skip_rest_if_enabled(60, 50, 51));
    assert!(c.pending_rest().is_none());
    assert_eq!(c.engine().phase(), Phase::Focusing);
    let r = c.sessions().recent(1);
    assert_eq!(r[0].skip_reason.as_deref(), Some("skip-mode"));
    assert_eq!(r[0].started_at_epoch, 50);
    assert_eq!(r[0].ended_at_epoch, 51);
}

#[test]
fn esc_while_resting_is_recorded_from_the_pending_rest() {
    let mut c = new_core(10, 60, false);
    c.start_rest(100);
    c.begin_rest(60, 100);
    assert!(c.overlay_skipped(130));
    let r = c.sessions().recent(1);
    assert_eq!(r[0].skip_reason.as_deref(), Some("esc"));
    assert_eq!((r[0].started_at_epoch, r[0].ended_at_epoch, r[0].scheduled_rest_seconds), (100, 130, 60));
    assert_eq!(c.engine().phase(), Phase::Focusing);
    assert_eq!(c.engine().remaining_seconds(), 600);
}

#[test]
fn esc_without_pending_rest_uses_the_configured_length() {
    let mut c = new_core(10, 90, false);
    c.start_rest(100);
    assert!(c.overlay_skipped(1000));
    let r = c.sessions().recent(1);
    assert_eq!((r[0].started_at_epoch, r[0].ended_at_epoch, r[0].scheduled_rest_seconds), (910, 1000, 90));
}

#[test]
fn esc_while_focusing_changes_nothing() {
    let mut c = new_core(10, 90, false);
    c.tick_second(1);
    assert!(!c.overlay_skipped(2));
    assert_eq!(c.sessions().len(), 0);
    assert_eq!(c.engine().remaining_seconds(), 599);
}

#[test]
fn lock_resets_only_on_the_edge() {
    let mut c = new_core(10, 90, false);
    c.start_rest(5);
    c.begin_rest(90, 5);
    assert!(!c.lock_observed(false));
    assert!(c.lock_observed(true));
    assert_eq!(c.engine().phase(), Phase::Focusing);
    assert!(c.pending_rest().is_none());
    c.tick_second(6);
    assert!(!c.lock_observed(true));
    assert_eq!(c.engine().remaining_seconds(), 599);
    assert!(!c.lock_observed(false));
    assert!(c.lock_observed(true));
    assert_eq!(c.engine().remaining_seconds(), 600);
}

#[test]
fn applying_settings_takes_effect_at_once() {
    let mut c = new_core(10, 90, false);
    c.tick_second(1);
    c.apply_config(AppConfig { focus_minutes: 45, rest_seconds: 1, skip_rest_enabled: true, launch_at_login: true });
    assert_eq!(c.config().focus_minutes, 45);
    assert_eq!(c.config().rest_seconds, 30);
    assert_eq!(c.engine().remaining_seconds(), 2700);
    c.start_rest(9);
    c.apply_config(AppConfig { rest_seconds: 120, ..c.config() });
    assert_eq!(c.engine().phase(), Phase::Resting);
    assert_eq!(c.engine().remaining_seconds(), 120);
    c.reset_focus();
    assert_eq!(c.engine().remaining_seconds(), 2700);
}

#[test]
fn skip_mode_at_the_end_of_a_focus_period() {
    let mut c = new_core(10, 60, true);
    for i in 0..600 {
        assert_eq!(c.tick_second(i), EngineTransition::Continue);
    }
    let t = c.tick_second(600);
    assert_eq!(t, EngineTransition::FocusToRest { scheduled_rest_seconds: 60, started_at_epoch: 600 });
    assert_eq!(c.engine().phase(), Phase::Focusing);
    c.begin_rest(60, 600);
    assert!(c.skip_rest_if_enabled(60, 600, 601));
    assert_eq!(c.sessions().len(), 1);
    let r = c.sessions().recent(1);
    assert_eq!(r[0].id, "session-600-601");
    assert!(r[0].skipped);
    assert_eq!(c.engine().remaining_seconds(), 600);
}

#[test]
fn lock_poll_runs_every_two_seconds() {
    assert!(!lock_poll_due(0));
    assert!(!lock_poll_due(1999));
    assert!(lock_poll_due(2000));
    assert!(lock_poll_due(60_000));
}

#[test]
fn esc_with_a_pending_rest_near_the_clock_minimum() {
    let mut c = new_core(10, 60, false);
    c.start_rest(i64::MIN);
    c.begin_rest(60, i64::MIN);
    assert!(c.overlay_skipped(i64::MIN + 1));
    c.ensure_consistent();
    c.engine().ensure_well_formed();
    let r = c.sessions().recent(1);
    assert_eq!((r[0].started_at_epoch, r[0].ended_at_epoch), (i64::MIN, i64::MIN + 1));
}
