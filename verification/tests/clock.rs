use rhythm_win::clock::{epoch_seconds_from, now_epoch_seconds};

#[test]
fn clock_readings_become_unix_times() {
    assert_eq!(epoch_seconds_from(Some(1_700_000_000)), 1_700_000_000);
    assert_eq!(epoch_seconds_from(None), 0);
    assert_eq!(epoch_seconds_from(Some(u64::MAX)), -1);
    assert!(now_epoch_seconds() > 1_600_000_000);
}
