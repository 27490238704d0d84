use rhythm_win::platform::autostart::{AutoStartManager, RegistryStep, RUN_KEY, RUN_VALUE_NAME};
use rhythm_win::platform::lock_monitor::LockMonitor;
use rhythm_win::platform::overlay::{
    classify_exit, countdown_seconds, overlay_script, OverlayEvent, OVERLAY_SCRIPT_HEAD,
    OVERLAY_SCRIPT_TAIL,
};

#[test]
fn lock_probe_output_is_read() {
    let m = LockMonitor::new();
    assert!(m.is_locked_output("True\r\n"));
    assert!(m.is_locked_output("  TRUE "));
    assert!(m.is_locked_output("\u{3000}true\u{a0}"));
    assert!(!m.is_locked_output("False\r\n"));
    assert!(!m.is_locked_output(""));
    assert!(!m.is_locked_output("Tru e"));
    assert!(!m.is_locked_output("True\nTrue"));
}

#[test]
fn autostart_steps() {
    let a = AutoStartManager::new();
    assert_eq!(a.next_step(true, None), RegistryStep::Add);
    assert_eq!(a.next_step(true, Some(false)), RegistryStep::Add);
    assert_eq!(a.next_step(false, None), RegistryStep::Query);
    assert_eq!(a.next_step(false, Some(false)), RegistryStep::Done);
    assert_eq!(a.next_step(false, Some(true)), RegistryStep::Delete);
}

#[test]
fn autostart_command_and_key() {
    let a = AutoStartManager::new();
    assert_eq!(a.run_command(r"C:\Apps\rhythm-win.exe"), "\"C:\\Apps\\rhythm-win.exe\" run");
    assert_eq!(RUN_KEY, r"HKCU\Software\Microsoft\Windows\CurrentVersion\Run");
    assert_eq!(RUN_VALUE_NAME, "RhythmWin");
}

#[test]
fn overlay_exit_is_classified() {
    assert_eq!(classify_exit(300, 300), OverlayEvent::Completed);
    assert_eq!(classify_exit(299, 300), OverlayEvent::Completed);
    assert_eq!(classify_exit(298, 300), OverlayEvent::Skipped);
    assert_eq!(classify_exit(0, 1), OverlayEvent::Completed);
    assert_eq!(classify_exit(0, 0), OverlayEvent::Completed);
    assert_eq!(classify_exit(3, 60), OverlayEvent::Skipped);
}

#[test]
fn overlay_script_holds_the_countdown() {
    assert_eq!(countdown_seconds(0), 1);
    assert_eq!(countdown_seconds(90), 90);
    let s = overlay_script(90);
    assert_eq!(s, format!("{OVERLAY_SCRIPT_HEAD}90{OVERLAY_SCRIPT_TAIL}"));
    assert!(s.contains("$script:remaining = [Math]::Max(1, 90)"));
    assert!(overlay_script(0).contains("[Math]::Max(1, 1)"));
}
