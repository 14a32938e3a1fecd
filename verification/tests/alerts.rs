use ps_battery::alerts::{
    choose_controller_alert, is_balloon_suppressed, is_dnd_active, is_low_on_battery,
    AlertScheduler, AlertSound, BalloonIcon, ALERT_INTERVAL_MS, QUNS_ACCEPTS_NOTIFICATIONS,
    QUNS_APP, QUNS_BUSY, QUNS_NOT_PRESENT, QUNS_PRESENTATION_MODE, QUNS_QUIET_TIME,
    QUNS_RUNNING_D3D_FULL_SCREEN,
};
use ps_battery::controller_store::ControllerStatus;

fn bluetooth(name: &str, percent: u8) -> ControllerStatus {
    ControllerStatus {
        name: name.to_string(),
        battery_percent: percent,
        is_charging: false,
        is_fully_charged: false,
        is_bluetooth: true,
        path: name.to_string(),
        last_read_failed: false,
        unexpected_battery_data: false,
    }
}

#[test]
fn low_means_twenty_percent_or_less_on_bluetooth_and_discharging() {
    assert!(is_low_on_battery(&bluetooth("a", 20)));
    assert!(is_low_on_battery(&bluetooth("a", 0)));
    assert!(!is_low_on_battery(&bluetooth("a", 30)));
    assert!(!is_low_on_battery(&ControllerStatus { is_bluetooth: false, ..bluetooth("a", 10) }));
    assert!(!is_low_on_battery(&ControllerStatus { is_charging: true, ..bluetooth("a", 10) }));
    assert!(!is_low_on_battery(&ControllerStatus { is_fully_charged: true, ..bluetooth("a", 10) }));
    assert!(!is_low_on_battery(&ControllerStatus { unexpected_battery_data: true, ..bluetooth("a", 10) }));
}

#[test]
fn no_alert_without_a_low_controller() {
    assert!(choose_controller_alert(&[]).is_none());
    assert!(choose_controller_alert(&[bluetooth("a", 50), bluetooth("b", 30)]).is_none());
}

#[test]
fn the_alert_is_about_the_lowest_controller_first_on_a_tie() {
    let controllers = vec![
        bluetooth("a", 20),
        bluetooth("b", 10),
        bluetooth("c", 10),
        ControllerStatus { is_bluetooth: false, ..bluetooth("usb", 0) },
    ];
    let alert = choose_controller_alert(&controllers).unwrap();
    assert_eq!(alert.title, "PS controller 10% battery");
    assert_eq!(alert.message, "b [Bluetooth] — 10% — Not Charging");
    assert_eq!(alert.sound, AlertSound::Exclamation);
    assert_eq!(alert.icon, BalloonIcon::Warning);
}

#[test]
fn alert_levels_follow_the_readme() {
    let empty = choose_controller_alert(&[bluetooth("a", 0)]).unwrap();
    assert_eq!((empty.sound, empty.icon), (AlertSound::Critical, BalloonIcon::Error));
    assert_eq!(empty.title, "PS controller 0% battery");
    let low = choose_controller_alert(&[bluetooth("a", 20)]).unwrap();
    assert_eq!((low.sound, low.icon), (AlertSound::Notify, BalloonIcon::Info));
    assert_eq!(AlertSound::Critical.alias(), "SystemHand");
    assert_eq!(AlertSound::Exclamation.alias(), "SystemExclamation");
    assert_eq!(AlertSound::Notify.alias(), "SystemNotification");
}

#[test]
fn balloons_are_suppressed_in_busy_presentation_fullscreen_quiet_and_app_states() {
    for state in [QUNS_BUSY, QUNS_RUNNING_D3D_FULL_SCREEN, QUNS_PRESENTATION_MODE, QUNS_QUIET_TIME, QUNS_APP] {
        assert!(is_balloon_suppressed(state));
    }
    assert!(!is_balloon_suppressed(QUNS_ACCEPTS_NOTIFICATIONS));
    assert!(!is_balloon_suppressed(QUNS_NOT_PRESENT));
    assert!(is_dnd_active(QUNS_BUSY));
    assert!(!is_dnd_active(QUNS_QUIET_TIME));
}

#[test]
fn alerts_wait_for_fresh_data_and_the_interval() {
    let mut scheduler = AlertScheduler::new();
    // Generation 0 is what the empty store starts at: nothing to alert on.
    assert!(!scheduler.should_try_alert(1_000, 0));
    assert!(scheduler.should_try_alert(2_000, 1));
    // The same poll is not looked at twice.
    assert!(!scheduler.should_try_alert(3_000, 1));
    // Nothing was sent, so the next poll is looked at at once.
    assert!(scheduler.should_try_alert(4_000, 2));
    scheduler.record_alert(4_000);
    assert!(!scheduler.should_try_alert(5_000, 3));
    assert!(!scheduler.should_try_alert(4_000 + ALERT_INTERVAL_MS - 1, 3));
    assert!(scheduler.should_try_alert(4_000 + ALERT_INTERVAL_MS, 3));
}
