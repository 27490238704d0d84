use rhythm_win::timer_engine::{EngineTransition, Phase, TimerEngine};

#[test]
fn should_enter_rest_after_focus_countdown() {
    let mut engine = TimerEngine::new(1, 2);
    assert!(matches!(engine.tick(false), EngineTransition::Continue));
    assert!(matches!(engine.tick(false), EngineTransition::FocusToRest { .. }));
}

#[test]
fn should_complete_rest_and_back_to_focus() {
    let mut engine = TimerEngine::new(0, 0);
    assert!(matches!(engine.tick(false), EngineTransition::FocusToRest { .. }));
    assert!(matches!(engine.tick(false), EngineTransition::RestCompleted { .. }));
}

#[test]
fn full_cycle_with_clock_readings() {
    let mut e = TimerEngine::new(2, 3);
    assert_eq!(e.phase(), Phase::Focusing);
    assert_eq!(e.remaining_seconds(), 2);
    assert_eq!(e.tick_at(false, 100), EngineTransition::Continue);
    assert_eq!(e.tick_at(false, 101), EngineTransition::Continue);
    assert_eq!(e.remaining_seconds(), 0);
    assert_eq!(
        e.tick_at(false, 102),
        EngineTransition::FocusToRest { scheduled_rest_seconds: 3, started_at_epoch: 102 }
    );
    assert_eq!(e.phase(), Phase::Resting);
    assert_eq!(e.remaining_seconds(), 3);
    for now in 103..106 {
        assert_eq!(e.tick_at(false, now), EngineTransition::Continue);
    }
    assert_eq!(
        e.tick_at(false, 106),
        EngineTransition::RestCompleted {
            scheduled_rest_seconds: 3,
            actual_rest_seconds: 4,
            started_at_epoch: 102,
            ended_at_epoch: 106,
        }
    );
    assert_eq!(e.phase(), Phase::Focusing);
    assert_eq!(e.remaining_seconds(), 2);
}

#[test]
fn skip_mode_returns_to_focus_at_once() {
    let mut e = TimerEngine::new(1, 60);
    assert_eq!(e.tick_at(true, 5), EngineTransition::Continue);
    assert_eq!(
        e.tick_at(true, 6),
        EngineTransition::FocusToRest { scheduled_rest_seconds: 60, started_at_epoch: 6 }
    );
    assert_eq!(e.phase(), Phase::Focusing);
    assert_eq!(e.remaining_seconds(), 1);
}

#[test]
fn rest_with_clock_going_back_has_zero_length() {
    let mut e = TimerEngine::new(0, 0);
    e.tick_at(false, 500);
    assert_eq!(
        e.tick_at(false, 400),
        EngineTransition::RestCompleted {
            scheduled_rest_seconds: 0,
            actual_rest_seconds: 0,
            started_at_epoch: 500,
            ended_at_epoch: 400,
        }
    );
}

#[test]
fn rest_length_across_the_whole_clock_range() {
    let mut e = TimerEngine::new(0, 0);
    e.tick_at(false, i64::MIN);
    match e.tick_at(false, i64::MAX) {
        EngineTransition::RestCompleted { actual_rest_seconds, .. } => {
            assert_eq!(actual_rest_seconds, u64::MAX)
        }
        other => panic!("unexpected {other:?}"),
    }
}

#[test]
fn update_schedule_restarts_current_phase() {
    let mut e = TimerEngine::new(10, 5);
    e.tick_at(false, 0);
    e.update_schedule(20, 7);
    assert_eq!(e.phase(), Phase::Focusing);
    assert_eq!(e.remaining_seconds(), 20);
    e.start_rest_at(50);
    e.tick_at(false, 51);
    e.update_schedule(20, 9);
    assert_eq!(e.phase(), Phase::Resting);
    assert_eq!(e.remaining_seconds(), 9);
}

#[test]
fn start_rest_and_reset() {
    let mut e = TimerEngine::new(10, 5);
    assert_eq!(
        e.start_rest_at(77),
        EngineTransition::FocusToRest { scheduled_rest_seconds: 5, started_at_epoch: 77 }
    );
    assert_eq!(e.phase(), Phase::Resting);
    assert_eq!(e.remaining_seconds(), 5);
    e.reset_focus();
    assert_eq!(e.phase(), Phase::Focusing);
    assert_eq!(e.remaining_seconds(), 10);
    assert!(matches!(e.start_rest_now(), EngineTransition::FocusToRest { scheduled_rest_seconds: 5, .. }));
    e.force_back_to_focus();
    assert_eq!(e.phase(), Phase::Focusing);
    assert_eq!(e.remaining_seconds(), 10);
}

#[test]
fn clock_tick_reports_recent_time() {
    let mut e = TimerEngine::new(0, 10);
    match e.tick(false) {
        EngineTransition::FocusToRest { scheduled_rest_seconds, started_at_epoch } => {
            assert_eq!(scheduled_rest_seconds, 10);
            assert!(started_at_epoch > 1_600_000_000);
        }
        other => panic!("unexpected {other:?}"),
    }
}
