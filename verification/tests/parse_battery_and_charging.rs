use ps_battery::controller_info::{
    DUALSENSE_EDGE_PRODUCT_ID, DUALSENSE_PRODUCT_ID, DUALSHOCK_GEN_1_PRODUCT_ID,
    DUALSHOCK_GEN_2_PRODUCT_ID,
};
use ps_battery::parse_battery_and_charging::{
    parse_battery_and_charging, BatteryAndChargingResult, BLUETOOTH_BATTERY_BYTE_INDEX,
    DUALSHOCK_BLUETOOTH_BATTERY_BYTE_INDEX, DUALSHOCK_USB_BATTERY_BYTE_INDEX,
    USB_BATTERY_BYTE_INDEX,
};

fn report_with_battery_byte(index: usize, battery_byte: u8) -> Vec<u8> {
    let mut buffer = vec![0u8; index + 1];
    buffer[index] = battery_byte;
    buffer
}

fn dualsense_bluetooth(battery_byte: u8) -> Option<BatteryAndChargingResult> {
    let buffer = report_with_battery_byte(BLUETOOTH_BATTERY_BYTE_INDEX, battery_byte);
    parse_battery_and_charging(&buffer, true, DUALSENSE_PRODUCT_ID)
}

#[test]
fn reads_the_level_as_tens_of_a_percent() {
    let result = dualsense_bluetooth(0b0000_0101).expect("should parse");
    assert_eq!(result.battery_percent, 50);
    assert!(!result.is_charging);
    assert!(!result.is_fully_charged);
    assert!(!result.unexpected_battery_data);
}

#[test]
fn reports_charging() {
    let result = dualsense_bluetooth(0b0001_0011).expect("should parse");
    assert_eq!(result.battery_percent, 30);
    assert!(result.is_charging);
    assert!(!result.is_fully_charged);
}

#[test]
fn reports_fully_charged_as_one_hundred_percent() {
    let result = dualsense_bluetooth(0b0010_0000).expect("should parse");
    assert_eq!(result.battery_percent, 100);
    assert!(result.is_fully_charged);
    assert!(!result.is_charging);
}

/// 0xB is one of the temperature and voltage states. Read as bit flags it
/// looks like charging and fully charged at once, which pins the reading
/// to 100% and stops the controller from ever being reported as low.
#[test]
fn an_error_state_is_neither_charging_nor_full() {
    let result = dualsense_bluetooth(0b1011_0001).expect("should parse");
    assert!(!result.is_charging);
    assert!(!result.is_fully_charged);
    assert!(result.unexpected_battery_data);
    assert_eq!(result.battery_percent, 10);
}

#[test]
fn a_level_above_ten_is_unexpected() {
    let result = dualsense_bluetooth(0b0000_1100).expect("should parse");
    assert!(result.unexpected_battery_data);
    assert_eq!(result.battery_percent, 100);
}

#[test]
fn usb_and_bluetooth_read_different_bytes() {
    let mut buffer = vec![0u8; BLUETOOTH_BATTERY_BYTE_INDEX + 1];
    buffer[USB_BATTERY_BYTE_INDEX] = 0b0000_0010;
    buffer[BLUETOOTH_BATTERY_BYTE_INDEX] = 0b0000_1000;

    let over_usb =
        parse_battery_and_charging(&buffer, false, DUALSENSE_PRODUCT_ID).expect("should parse");
    let over_bluetooth =
        parse_battery_and_charging(&buffer, true, DUALSENSE_PRODUCT_ID).expect("should parse");

    assert_eq!(over_usb.battery_percent, 20);
    assert_eq!(over_bluetooth.battery_percent, 80);
}

/// The status byte sits 29 bytes into a body that USB prefixes with one id
/// byte and Bluetooth with three.
#[test]
fn the_dualshock_status_byte_is_where_the_report_layout_puts_it() {
    assert_eq!(DUALSHOCK_USB_BATTERY_BYTE_INDEX, 1 + 29);
    assert_eq!(DUALSHOCK_BLUETOOTH_BATTERY_BYTE_INDEX, 3 + 29);
    assert_eq!(USB_BATTERY_BYTE_INDEX, 1 + 52);
    assert_eq!(BLUETOOTH_BATTERY_BYTE_INDEX, 2 + 52);
}

#[test]
fn the_dualshock_shifts_by_two_over_bluetooth() {
    let mut buffer = vec![0u8; DUALSHOCK_BLUETOOTH_BATTERY_BYTE_INDEX + 1];
    buffer[DUALSHOCK_USB_BATTERY_BYTE_INDEX] = 0b0000_0010;
    buffer[DUALSHOCK_BLUETOOTH_BATTERY_BYTE_INDEX] = 0b0000_1000;

    let over_usb = parse_battery_and_charging(&buffer, false, DUALSHOCK_GEN_1_PRODUCT_ID)
        .expect("should parse");
    let over_bluetooth = parse_battery_and_charging(&buffer, true, DUALSHOCK_GEN_1_PRODUCT_ID)
        .expect("should parse");

    assert_eq!(over_usb.battery_percent, 20);
    assert_eq!(over_bluetooth.battery_percent, 80);
}

fn dualshock_usb(battery_byte: u8) -> BatteryAndChargingResult {
    let buffer = report_with_battery_byte(DUALSHOCK_USB_BATTERY_BYTE_INDEX, battery_byte);
    parse_battery_and_charging(&buffer, false, DUALSHOCK_GEN_1_PRODUCT_ID).expect("should parse")
}

#[test]
fn a_dualshock_off_the_cable_is_discharging() {
    let result = dualshock_usb(0b0000_0110);
    assert_eq!(result.battery_percent, 60);
    assert!(!result.is_charging);
    assert!(!result.is_fully_charged);
    assert!(!result.unexpected_battery_data);
}

#[test]
fn a_dualshock_on_the_cable_is_charging() {
    let result = dualshock_usb(0b0001_0110);
    assert_eq!(result.battery_percent, 60);
    assert!(result.is_charging);
    assert!(!result.is_fully_charged);
}

/// The DualShock signals a full battery with a level of 11 rather than a
/// state, so it must not be read as a level out of range.
#[test]
fn a_dualshock_reports_full_as_level_eleven() {
    let result = dualshock_usb(0b0001_1011);
    assert_eq!(result.battery_percent, 100);
    assert!(result.is_fully_charged);
    assert!(!result.is_charging);
    assert!(!result.unexpected_battery_data);
}

#[test]
fn a_dualshock_level_above_eleven_is_unexpected() {
    assert!(dualshock_usb(0b0001_1100).unexpected_battery_data);
}

#[test]
fn a_report_that_ends_before_the_battery_byte_is_rejected() {
    let buffer = vec![0u8; BLUETOOTH_BATTERY_BYTE_INDEX];
    assert!(parse_battery_and_charging(&buffer, true, DUALSENSE_PRODUCT_ID).is_none());
}

#[test]
fn an_unknown_controller_is_rejected() {
    let buffer = report_with_battery_byte(BLUETOOTH_BATTERY_BYTE_INDEX, 0b0000_0101);
    assert!(parse_battery_and_charging(&buffer, true, 0x0000).is_none());
}

#[test]
fn the_edge_parses_like_the_dualsense() {
    let buffer = report_with_battery_byte(BLUETOOTH_BATTERY_BYTE_INDEX, 0b0000_0101);
    let result = parse_battery_and_charging(&buffer, true, DUALSENSE_EDGE_PRODUCT_ID)
        .expect("should parse");
    assert_eq!(result.battery_percent, 50);
}

#[test]
fn every_parsed_percentage_is_a_multiple_of_ten_up_to_one_hundred() {
    for product_id in [
        DUALSENSE_PRODUCT_ID,
        DUALSENSE_EDGE_PRODUCT_ID,
        DUALSHOCK_GEN_1_PRODUCT_ID,
        DUALSHOCK_GEN_2_PRODUCT_ID,
    ] {
        for is_bluetooth in [false, true] {
            for byte in 0..=255u8 {
                let buffer = vec![byte; 80];
                let result = parse_battery_and_charging(&buffer, is_bluetooth, product_id)
                    .expect("should parse");
                assert!(result.battery_percent <= 100);
                assert_eq!(result.battery_percent % 10, 0);
                if result.is_fully_charged {
                    assert_eq!(result.battery_percent, 100);
                    assert!(!result.is_charging);
                }
            }
        }
    }
}

#[test]
fn a_dualsense_fully_charged_state_over_usb_reads_one_hundred() {
    let buffer = report_with_battery_byte(USB_BATTERY_BYTE_INDEX, 0b0010_0111);
    let result =
        parse_battery_and_charging(&buffer, false, DUALSENSE_PRODUCT_ID).expect("should parse");
    assert_eq!(result.battery_percent, 100);
    assert!(result.is_fully_charged);
    assert!(!result.unexpected_battery_data);
}

#[test]
fn the_second_dualshock_generation_parses_like_the_first() {
    let buffer = report_with_battery_byte(DUALSHOCK_BLUETOOTH_BATTERY_BYTE_INDEX, 0b0001_0100);
    let first = parse_battery_and_charging(&buffer, true, DUALSHOCK_GEN_1_PRODUCT_ID).unwrap();
    let second = parse_battery_and_charging(&buffer, true, DUALSHOCK_GEN_2_PRODUCT_ID).unwrap();
    assert_eq!(first, second);
    assert_eq!(second.battery_percent, 40);
    assert!(second.is_charging);
}
