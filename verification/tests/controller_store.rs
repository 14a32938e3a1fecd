use ps_battery::controller_info::{
    get_controller_info, is_bluetooth_path, is_playstation_controller, DUALSENSE_PRODUCT_ID,
    DUALSHOCK_GEN_2_PRODUCT_ID, SONY_VENDOR_ID,
};
use ps_battery::controller_store::{
    controller_status_to_string, ControllerStatus, ControllerStore,
};

fn status(name: &str, percent: u8, charging: bool, full: bool, bluetooth: bool) -> ControllerStatus {
    ControllerStatus {
        name: name.to_string(),
        battery_percent: percent,
        is_charging: charging,
        is_fully_charged: full,
        is_bluetooth: bluetooth,
        path: format!("path-{name}"),
        last_read_failed: false,
        unexpected_battery_data: false,
    }
}

#[test]
fn a_status_line_names_the_transport_percent_and_state() {
    let line = controller_status_to_string(&status("DualSense", 50, false, false, true));
    assert_eq!(line, "DualSense [Bluetooth] — 50% — Not Charging");
    let line = controller_status_to_string(&status("Pad", 0, true, false, false));
    assert_eq!(line, "Pad [USB] — 0% — Charging");
}

#[test]
fn a_full_controller_reads_one_hundred_percent_whatever_its_level() {
    let line = controller_status_to_string(&status("Edge", 70, true, true, false));
    assert_eq!(line, "Edge [USB] — 100% — Fully charged");
}

#[test]
fn the_store_gives_back_what_was_stored_and_counts_generations() {
    let mut store = ControllerStore::new();
    assert_eq!(store.get_generation(), 0);
    assert!(store.get_controllers().is_empty());
    store.set_controllers(vec![status("A", 10, false, false, true), status("B", 90, true, false, false)]);
    assert_eq!(store.get_generation(), 1);
    let stored = store.get_controllers();
    assert_eq!(stored.len(), 2);
    assert_eq!(stored[0].name, "A");
    assert_eq!(stored[1].battery_percent, 90);
    store.set_controllers(Vec::new());
    assert_eq!(store.get_generation(), 2);
    assert!(store.get_controllers().is_empty());
}

#[test]
fn a_cloned_status_keeps_every_field() {
    let source = ControllerStatus { last_read_failed: true, unexpected_battery_data: true, ..status("X", 30, false, false, true) };
    let copy = source.clone();
    assert_eq!(copy.name, "X");
    assert_eq!(copy.path, "path-X");
    assert_eq!(copy.battery_percent, 30);
    assert!(copy.last_read_failed);
    assert!(copy.unexpected_battery_data);
    assert!(copy.is_bluetooth);
}

#[test]
fn only_sony_controllers_with_known_product_ids_are_read() {
    assert!(is_playstation_controller(SONY_VENDOR_ID, DUALSENSE_PRODUCT_ID));
    assert!(is_playstation_controller(0x054C, 0x09CC));
    assert!(!is_playstation_controller(0x045E, DUALSENSE_PRODUCT_ID));
    assert!(!is_playstation_controller(SONY_VENDOR_ID, 0x0268));
}

#[test]
fn a_bluetooth_path_carries_the_hid_service_guid_in_any_case() {
    assert!(is_bluetooth_path(
        r"\\?\hid#{00001124-0000-1000-8000-00805f9b34fb}_vid&0002054c_pid&0ce6#9&1&0000#{4d1e55b2}"
    ));
    assert!(is_bluetooth_path("00001124-0000-1000-8000-00805F9B34FB"));
    assert!(!is_bluetooth_path(r"\\?\hid#vid_054c&pid_0ce6&mi_03#7&2&0&0000#{4d1e55b2}"));
    assert!(!is_bluetooth_path("00001124-0000-1000-8000-00805F9B34F"));
    assert!(!is_bluetooth_path(""));
}

#[test]
fn controller_info_falls_back_to_unknown_for_a_missing_product_string() {
    let info = get_controller_info("usb-path", None, DUALSHOCK_GEN_2_PRODUCT_ID);
    assert_eq!(info.name, "Unknown");
    assert!(!info.is_bluetooth);
    assert_eq!(info.product_id, DUALSHOCK_GEN_2_PRODUCT_ID);
    assert_eq!(info.path, "usb-path");
    let info = get_controller_info(
        "x{00001124-0000-1000-8000-00805f9b34fb}y",
        Some("DualSense Wireless Controller"),
        DUALSENSE_PRODUCT_ID,
    );
    assert_eq!(info.name, "DualSense Wireless Controller");
    assert!(info.is_bluetooth);
}

#[test]
fn the_generation_counts_every_store() {
    let mut store = ControllerStore::new();
    for count in 1..=50u64 {
        store.set_controllers(Vec::new());
        assert_eq!(store.get_generation(), count);
    }
}
