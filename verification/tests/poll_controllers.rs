use ps_battery::controller_info::{get_controller_info, DUALSENSE_PRODUCT_ID, DUALSHOCK_GEN_1_PRODUCT_ID};
use ps_battery::controller_store::ControllerStatus;
use ps_battery::parse_battery_and_charging::BLUETOOTH_BATTERY_BYTE_INDEX;
use ps_battery::poll_controllers::{
    carry_over_previous_read, collect_controller_statuses, feature_report_buffer,
    status_from_reading, DeviceReading, InputReportReader, PollSignal, ReadAction,
};

fn previous(path: &str, percent: u8, failed: bool) -> ControllerStatus {
    ControllerStatus {
        name: "DualSense".to_string(),
        battery_percent: percent,
        is_charging: false,
        is_fully_charged: false,
        is_bluetooth: true,
        path: path.to_string(),
        last_read_failed: failed,
        unexpected_battery_data: false,
    }
}

const BT_PATH: &str = "hid#{00001124-0000-1000-8000-00805f9b34fb}#a";

fn bluetooth_report(battery_byte: u8) -> Vec<u8> {
    let mut report = vec![0u8; BLUETOOTH_BATTERY_BYTE_INDEX + 1];
    report[0] = 0x31;
    report[BLUETOOTH_BATTERY_BYTE_INDEX] = battery_byte;
    report
}

#[test]
fn a_first_failed_read_keeps_the_previous_values() {
    let prev = vec![previous("other", 80, false), previous("p", 40, false)];
    let kept = carry_over_previous_read(&prev, "p").expect("kept");
    assert_eq!(kept.battery_percent, 40);
    assert!(kept.last_read_failed);
    assert_eq!(kept.path, "p");
}

#[test]
fn a_second_failed_read_drops_the_controller() {
    let prev = vec![previous("p", 40, true)];
    assert!(carry_over_previous_read(&prev, "p").is_none());
    let kept = carry_over_previous_read(&[previous("p", 40, false)], "p").unwrap();
    assert!(carry_over_previous_read(&[kept], "p").is_none());
}

#[test]
fn a_failed_read_of_a_new_controller_gives_nothing() {
    assert!(carry_over_previous_read(&[previous("q", 40, false)], "p").is_none());
    assert!(carry_over_previous_read(&[], "p").is_none());
}

#[test]
fn the_first_previous_status_with_the_path_is_the_one_carried_over() {
    let prev = vec![previous("p", 30, false), previous("p", 90, true)];
    assert_eq!(carry_over_previous_read(&prev, "p").unwrap().battery_percent, 30);
}

#[test]
fn a_poll_parses_fresh_reports_and_carries_empty_ones_over() {
    let fresh = DeviceReading {
        info: get_controller_info(BT_PATH, Some("DualSense"), DUALSENSE_PRODUCT_ID),
        report: bluetooth_report(0b0001_0100),
    };
    let empty = DeviceReading {
        info: get_controller_info("p", Some("DualSense"), DUALSENSE_PRODUCT_ID),
        report: Vec::new(),
    };
    let zero_id = DeviceReading {
        info: get_controller_info("gone", Some("DualSense"), DUALSENSE_PRODUCT_ID),
        report: vec![0u8; 80],
    };
    let unparsable = DeviceReading {
        info: get_controller_info("short", Some("DualShock"), DUALSHOCK_GEN_1_PRODUCT_ID),
        report: vec![0x11, 0x22],
    };
    let prev = vec![previous("p", 60, false)];
    let statuses = collect_controller_statuses(&vec![fresh, empty, zero_id, unparsable], &prev);
    assert_eq!(statuses.len(), 2);
    assert_eq!(statuses[0].battery_percent, 40);
    assert!(statuses[0].is_charging);
    assert!(statuses[0].is_bluetooth);
    assert!(!statuses[0].last_read_failed);
    assert_eq!(statuses[0].path, BT_PATH);
    assert_eq!(statuses[1].battery_percent, 60);
    assert!(statuses[1].last_read_failed);
}

#[test]
fn a_poll_without_controllers_stores_nothing() {
    assert!(collect_controller_statuses(&Vec::new(), &[previous("p", 60, false)]).is_empty());
}

#[test]
fn a_reading_with_a_report_ignores_the_previous_values() {
    let reading = DeviceReading {
        info: get_controller_info(BT_PATH, None, DUALSENSE_PRODUCT_ID),
        report: bluetooth_report(0b0010_0011),
    };
    let status = status_from_reading(&reading, &[previous(BT_PATH, 10, true)]).unwrap();
    assert_eq!(status.name, "Unknown");
    assert_eq!(status.battery_percent, 100);
    assert!(status.is_fully_charged);
    assert!(!status.last_read_failed);
}

#[test]
fn feature_report_requests_depend_on_the_family() {
    let dualsense = feature_report_buffer(DUALSENSE_PRODUCT_ID).unwrap();
    assert_eq!(dualsense.len(), 78);
    assert_eq!(dualsense[0], 0x05);
    assert!(dualsense[1..].iter().all(|b| *b == 0));
    let dualshock = feature_report_buffer(DUALSHOCK_GEN_1_PRODUCT_ID).unwrap();
    assert_eq!(dualshock.len(), 64);
    assert_eq!(dualshock[0], 0x02);
    assert!(feature_report_buffer(0x1234).is_none());
}

#[test]
fn a_full_report_needs_no_mode_switch() {
    let mut reader = InputReportReader::new(true);
    assert_eq!(reader.next_action(78, 0x31), ReadAction::Finish);
    let mut reader = InputReportReader::new(true);
    assert_eq!(reader.next_action(0, 0x01), ReadAction::Finish);
}

#[test]
fn a_truncated_usb_report_is_kept_as_it_is() {
    let mut reader = InputReportReader::new(false);
    assert_eq!(reader.next_action(10, 0x01), ReadAction::Finish);
}

#[test]
fn a_truncated_bluetooth_report_switches_mode_and_skips_stale_reports() {
    let mut reader = InputReportReader::new(true);
    assert_eq!(reader.next_action(10, 0x01), ReadAction::SwitchReportModeAndRead);
    assert_eq!(reader.next_action(10, 0x01), ReadAction::ReadAgain);
    assert_eq!(reader.next_action(78, 0x31), ReadAction::Finish);
}

#[test]
fn stale_reports_are_skipped_at_most_five_times() {
    let mut reader = InputReportReader::new(true);
    assert_eq!(reader.next_action(10, 0x01), ReadAction::SwitchReportModeAndRead);
    for _ in 0..4 {
        assert_eq!(reader.next_action(10, 0x01), ReadAction::ReadAgain);
    }
    assert_eq!(reader.next_action(10, 0x01), ReadAction::Finish);
}

#[test]
fn an_empty_read_after_the_switch_ends_the_reading() {
    let mut reader = InputReportReader::new(true);
    assert_eq!(reader.next_action(10, 0x01), ReadAction::SwitchReportModeAndRead);
    assert_eq!(reader.next_action(0, 0x01), ReadAction::Finish);
}

#[test]
fn a_poll_request_is_kept_until_the_wait_takes_it() {
    let mut signal = PollSignal::new();
    assert!(!signal.is_poll_requested());
    assert!(!signal.is_polling());
    signal.set_polling(true);
    signal.request_poll();
    assert!(signal.is_polling());
    signal.set_polling(false);
    assert!(signal.is_poll_requested());
    assert!(signal.wait_for_next_poll());
    assert!(!signal.is_poll_requested());
    assert!(!signal.wait_for_next_poll());
}

#[test]
fn two_failed_polls_in_a_row_drop_a_controller_from_the_store() {
    let fresh = DeviceReading {
        info: get_controller_info(BT_PATH, Some("DualSense"), DUALSENSE_PRODUCT_ID),
        report: bluetooth_report(0b0000_0011),
    };
    let other = || DeviceReading {
        info: get_controller_info("usb", Some("DualShock"), DUALSHOCK_GEN_1_PRODUCT_ID),
        report: vec![0x11; 40],
    };
    let failed = || DeviceReading {
        info: get_controller_info(BT_PATH, Some("DualSense"), DUALSENSE_PRODUCT_ID),
        report: Vec::new(),
    };
    let first = collect_controller_statuses(&vec![other(), fresh], &[]);
    assert_eq!(first.len(), 2);
    let second = collect_controller_statuses(&vec![other(), failed()], &first);
    assert_eq!(second.len(), 2);
    assert_eq!(second[1].path, BT_PATH);
    assert_eq!(second[1].battery_percent, 30);
    assert!(second[1].last_read_failed);
    let third = collect_controller_statuses(&vec![failed(), other()], &second);
    assert_eq!(third.len(), 1);
    assert!(third.iter().all(|status| status.path != BT_PATH));
}

#[test]
fn repeated_poll_requests_act_as_one() {
    let mut signal = PollSignal::new();
    signal.request_poll();
    signal.request_poll();
    signal.request_poll();
    assert!(signal.wait_for_next_poll());
    assert!(!signal.wait_for_next_poll());
}
