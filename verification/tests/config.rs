use rhythm_win::config::{step_down, step_up, AppConfig, LegacyConfig};

#[test]
fn normalize_should_clamp_range() {
    let mut c = AppConfig {
        focus_minutes: 1,
        rest_seconds: 9999,
        skip_rest_enabled: false,
        launch_at_login: false,
    };
    c.normalize();
    assert_eq!(c.focus_minutes, 10);
    assert_eq!(c.rest_seconds, 600);
}

#[test]
fn normalize_keeps_values_in_range_and_switches() {
    let mut c = AppConfig {
        focus_minutes: 45,
        rest_seconds: 180,
        skip_rest_enabled: true,
        launch_at_login: true,
    };
    c.normalize();
    assert_eq!(c.focus_minutes, 45);
    assert_eq!(c.rest_seconds, 180);
    assert!(c.skip_rest_enabled);
    assert!(c.launch_at_login);
    let mut high = AppConfig { focus_minutes: 500, rest_seconds: 0, ..c };
    high.normalize();
    assert_eq!(high.focus_minutes, 120);
    assert_eq!(high.rest_seconds, 30);
    let once = high;
    high.normalize();
    assert_eq!(high, once);
}

#[test]
fn default_config_values() {
    let c = AppConfig::default();
    assert_eq!(c.focus_minutes, 25);
    assert_eq!(c.rest_seconds, 300);
    assert!(!c.skip_rest_enabled);
    assert!(!c.launch_at_login);
}

fn empty_legacy() -> LegacyConfig {
    LegacyConfig {
        focus_minutes: None,
        rest_seconds: None,
        rest_minutes: None,
        skip_rest_enabled: None,
        launch_at_login: None,
    }
}

#[test]
fn legacy_rest_minutes_are_converted() {
    let old = LegacyConfig { focus_minutes: Some(40), rest_minutes: Some(3), ..empty_legacy() };
    let c = AppConfig::from_legacy(old);
    assert_eq!(c.focus_minutes, 40);
    assert_eq!(c.rest_seconds, 180);
    assert!(!c.skip_rest_enabled);
}

#[test]
fn legacy_rest_seconds_win_over_minutes() {
    let old = LegacyConfig {
        rest_seconds: Some(45),
        rest_minutes: Some(7),
        skip_rest_enabled: Some(true),
        launch_at_login: Some(true),
        ..empty_legacy()
    };
    let c = AppConfig::from_legacy(old);
    assert_eq!(c.focus_minutes, 25);
    assert_eq!(c.rest_seconds, 45);
    assert!(c.skip_rest_enabled);
    assert!(c.launch_at_login);
}

#[test]
fn legacy_rest_minutes_saturate() {
    let old = LegacyConfig { rest_minutes: Some(u64::MAX / 2), ..empty_legacy() };
    assert_eq!(AppConfig::from_legacy(old).rest_seconds, u64::MAX);
    assert_eq!(AppConfig::from_legacy(empty_legacy()), AppConfig::default());
}

#[test]
fn stored_settings_are_normalized() {
    let current = AppConfig {
        focus_minutes: 5,
        rest_seconds: 60,
        skip_rest_enabled: false,
        launch_at_login: true,
    };
    let c = AppConfig::from_stored(Some(current), None).unwrap();
    assert_eq!(c.focus_minutes, 10);
    assert_eq!(c.rest_seconds, 60);
    assert!(c.launch_at_login);

    let old = LegacyConfig { rest_minutes: Some(20), ..empty_legacy() };
    let m = AppConfig::from_stored(None, Some(old)).unwrap();
    assert_eq!(m.rest_seconds, 600);
    assert_eq!(m.focus_minutes, 25);

    assert!(AppConfig::from_stored(None, None).is_none());
}

#[test]
fn overrides_replace_given_fields_then_normalize() {
    let mut c = AppConfig::default();
    c.apply_overrides(Some(45), Some(180), Some(false), Some(true));
    assert_eq!(c.focus_minutes, 45);
    assert_eq!(c.rest_seconds, 180);
    assert!(c.launch_at_login);
    c.apply_overrides(None, Some(5), Some(true), None);
    assert_eq!(c.focus_minutes, 45);
    assert_eq!(c.rest_seconds, 30);
    assert!(c.skip_rest_enabled);
    assert!(c.launch_at_login);
}

#[test]
fn step_buttons_stay_in_range() {
    assert_eq!(step_up(115, 5, 120), Some(120));
    assert_eq!(step_up(120, 5, 120), None);
    assert_eq!(step_up(u64::MAX, 5, 120), None);
    assert_eq!(step_down(15, 10, 5), Some(10));
    assert_eq!(step_down(10, 10, 5), None);
    assert_eq!(step_down(3, 0, 5), None);
    assert_eq!(step_up(570, 30, 600), Some(600));
    assert_eq!(step_down(60, 30, 30), Some(30));
}
