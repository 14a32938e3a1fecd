use ps_battery::autostart::{
    is_packaged, registry_run_value, AutostartRequest, StartupTaskControl,
    APPMODEL_ERROR_NO_PACKAGE, STARTUP_TASK_DISABLED, STARTUP_TASK_DISABLED_BY_POLICY,
    STARTUP_TASK_DISABLED_BY_USER, STARTUP_TASK_ENABLED, STARTUP_TASK_ENABLED_BY_POLICY,
};
use ps_battery::controller_store::ControllerStatus;
use ps_battery::logger::{format_log_line, log_paths, LogLevel, LogLocation, LogTimer};
use ps_battery::text::{copy_str_to_utf16_buffer, encode_utf16, push_decimal, to_wide};
use ps_battery::tray::{
    populate_menu, tray_event, MenuCommand, MenuEntry, MenuSnapshot, ScanStatus, TrayEvent,
    MENU_ID_AUTOSTART, MENU_ID_EXIT, MENU_ID_OPEN_LOG, WM_COMMAND, WM_ENTERIDLE, WM_TRAYICON,
};

#[test]
fn decimal_numbers_have_no_leading_zeros() {
    let mut text = String::from("n=");
    push_decimal(&mut text, 0);
    push_decimal(&mut text, 7);
    text.push(' ');
    push_decimal(&mut text, 1_700_000_000);
    text.push(' ');
    push_decimal(&mut text, u64::MAX);
    assert_eq!(text, "n=07 1700000000 18446744073709551615");
}

#[test]
fn text_is_encoded_as_utf16_with_a_terminator() {
    assert_eq!(to_wide("Ab"), vec![0x41, 0x62, 0]);
    assert_eq!(to_wide(""), vec![0]);
    assert_eq!(encode_utf16("é—😀"), "é—😀".encode_utf16().collect::<Vec<u16>>());
}

#[test]
fn text_that_fits_is_copied_with_a_terminator_and_the_rest_is_left() {
    let mut buffer = [9u16; 6];
    copy_str_to_utf16_buffer("abc", &mut buffer);
    assert_eq!(buffer, [0x61, 0x62, 0x63, 0, 9, 9]);
}

#[test]
fn text_that_does_not_fit_is_truncated_and_terminated() {
    let mut buffer = [9u16; 3];
    copy_str_to_utf16_buffer("abcdef", &mut buffer);
    assert_eq!(buffer, [0x61, 0x62, 0]);
    let mut exact = [9u16; 3];
    copy_str_to_utf16_buffer("abc", &mut exact);
    assert_eq!(exact, [0x61, 0x62, 0]);
    let mut empty: [u16; 0] = [];
    copy_str_to_utf16_buffer("abc", &mut empty);
}

#[test]
fn log_lines_carry_the_time_and_level() {
    assert_eq!(format_log_line(1_700_000_000, LogLevel::Info, "hello"), "[1700000000] [INFO] hello");
    assert_eq!(format_log_line(5, LogLevel::Error, "bad"), "[5] [ERR ] bad");
    assert_eq!(LogLevel::Error.label().len(), LogLevel::Info.label().len());
}

#[test]
fn the_log_lives_under_appdata() {
    let paths = log_paths(r"C:\Users\me\AppData\Roaming");
    assert_eq!(paths.dir, r"C:\Users\me\AppData\Roaming\ps-battery");
    assert_eq!(paths.path, r"C:\Users\me\AppData\Roaming\ps-battery\ps-battery.log");
    assert_eq!(paths.old_path, r"C:\Users\me\AppData\Roaming\ps-battery\ps-battery.old.log");
    assert_eq!(LogLocation::disabled().get_log_path(), None);
    assert_eq!(LogLocation::opened(paths.path.clone()).get_log_path(), Some(paths.path.as_str()));
}

#[test]
fn periodic_logging_is_rate_limited() {
    let mut timer = LogTimer::new();
    assert!(timer.should_log(0, 10_000));
    assert!(!timer.should_log(9_999, 10_000));
    assert!(timer.should_log(10_000, 10_000));
    assert!(!timer.should_log(15_000, 10_000));
    // A clock reading before the last line counts as no time passed.
    assert!(!timer.should_log(5_000, 10_000));
    assert!(timer.should_log(5_000, 0));
}

fn status(name: &str, percent: u8) -> ControllerStatus {
    ControllerStatus {
        name: name.to_string(),
        battery_percent: percent,
        is_charging: false,
        is_fully_charged: false,
        is_bluetooth: true,
        path: name.to_string(),
        last_read_failed: false,
        unexpected_battery_data: false,
    }
}

fn texts(entries: &[MenuEntry]) -> Vec<String> {
    entries
        .iter()
        .map(|entry| match entry {
            MenuEntry::Separator => "---".to_string(),
            MenuEntry::Item { text, .. } => text.clone(),
        })
        .collect()
}

#[test]
fn the_menu_lists_controllers_then_the_settings() {
    let entries = populate_menu(ScanStatus::Scanning, &[status("A", 50), status("B", 10)], true, true, true);
    assert_eq!(
        texts(&entries),
        vec![
            "Scanning for controllers…",
            "A [Bluetooth] — 50% — Not Charging",
            "B [Bluetooth] — 10% — Not Charging",
            "---",
            "Run on startup",
            "---",
            "Open log",
            "Exit",
        ]
    );
    match &entries[4] {
        MenuEntry::Item { id, grayed, checked, .. } => {
            assert_eq!(*id, MENU_ID_AUTOSTART);
            assert!(!*grayed);
            assert!(*checked);
        }
        MenuEntry::Separator => panic!("expected the startup toggle"),
    }
}

#[test]
fn an_empty_menu_says_so_and_grays_unavailable_entries() {
    let entries = populate_menu(ScanStatus::NotStarted, &[], false, false, false);
    assert_eq!(
        texts(&entries),
        vec!["No controllers connected", "---", "Run on startup", "---", "Open log", "Exit"]
    );
    match (&entries[2], &entries[4], &entries[5]) {
        (
            MenuEntry::Item { grayed: toggle_grayed, checked, .. },
            MenuEntry::Item { grayed: log_grayed, id: log_id, .. },
            MenuEntry::Item { grayed: exit_grayed, id: exit_id, .. },
        ) => {
            assert!(*toggle_grayed);
            assert!(!*checked);
            assert!(*log_grayed);
            assert_eq!(*log_id, MENU_ID_OPEN_LOG);
            assert!(!*exit_grayed);
            assert_eq!(*exit_id, MENU_ID_EXIT);
        }
        _ => panic!("unexpected menu layout"),
    }
    let entries = populate_menu(ScanStatus::Completed, &[], false, true, true);
    assert_eq!(texts(&entries)[0], "Scan completed");
}

#[test]
fn the_scan_status_follows_the_polling_thread() {
    assert_eq!(ScanStatus::initial(true), ScanStatus::Scanning);
    assert_eq!(ScanStatus::initial(false), ScanStatus::NotStarted);
    assert_eq!(ScanStatus::NotStarted.next(false), ScanStatus::NotStarted);
    assert_eq!(ScanStatus::NotStarted.next(true), ScanStatus::Scanning);
    assert_eq!(ScanStatus::Scanning.next(false), ScanStatus::Completed);
    assert_eq!(ScanStatus::Completed.next(false), ScanStatus::Completed);
    assert_eq!(ScanStatus::Completed.next(true), ScanStatus::Scanning);
}

#[test]
fn an_open_menu_is_rebuilt_only_when_something_moved_on() {
    let mut snapshot = MenuSnapshot {
        last_generation: 3,
        scan_status: ScanStatus::Scanning,
        last_autostart_enabled: false,
        last_autostart_available: true,
    };
    assert_eq!(snapshot.refresh(3, true, false, true), None);
    assert_eq!(snapshot.refresh(3, false, false, true), Some(ScanStatus::Completed));
    assert_eq!(snapshot.scan_status, ScanStatus::Completed);
    assert_eq!(snapshot.refresh(3, false, false, true), None);
    assert_eq!(snapshot.refresh(4, false, false, true), Some(ScanStatus::Completed));
    assert_eq!(snapshot.last_generation, 4);
    assert_eq!(snapshot.refresh(4, false, true, true), Some(ScanStatus::Completed));
    assert!(snapshot.last_autostart_enabled);
}

#[test]
fn the_window_procedure_reads_tray_clicks_idle_menus_and_commands() {
    assert_eq!(tray_event(WM_TRAYICON, 0, 0x205, 0xC0DE), TrayEvent::OpenMenu);
    assert_eq!(tray_event(WM_TRAYICON, 0, 0x202, 0xC0DE), TrayEvent::OpenMenu);
    assert_eq!(tray_event(WM_TRAYICON, 0, 0x200, 0xC0DE), TrayEvent::Other);
    assert_eq!(tray_event(0xC0DE, 0, 0, 0xC0DE), TrayEvent::ReAddTrayIcon);
    assert_eq!(tray_event(0, 0, 0, 0), TrayEvent::Other);
    assert_eq!(tray_event(WM_ENTERIDLE, 2, 77, 0xC0DE), TrayEvent::MenuIdle);
    assert_eq!(tray_event(WM_ENTERIDLE, 0, 77, 0xC0DE), TrayEvent::Other);
    assert_eq!(tray_event(WM_COMMAND, 1001, 0, 0xC0DE), TrayEvent::Command(MenuCommand::ToggleAutostart));
    assert_eq!(tray_event(WM_COMMAND, 1002, 0, 0xC0DE), TrayEvent::Command(MenuCommand::OpenLog));
    assert_eq!(tray_event(WM_COMMAND, 0x1_0000 + 1003, 0, 0xC0DE), TrayEvent::Command(MenuCommand::Exit));
    assert_eq!(tray_event(WM_COMMAND, 1, 0, 0xC0DE), TrayEvent::Other);
}

#[test]
fn the_run_entry_is_the_quoted_path_as_little_endian_utf16() {
    let bytes = registry_run_value(r"C:\A b.exe");
    let expected: Vec<u8> = "\"C:\\A b.exe\"\0".encode_utf16().flat_map(|unit| unit.to_le_bytes()).collect();
    assert_eq!(bytes, expected);
    assert_eq!(&bytes[..4], &[0x22, 0x00, 0x43, 0x00]);
}

#[test]
fn only_a_process_with_package_identity_counts_as_packaged() {
    assert!(!is_packaged(APPMODEL_ERROR_NO_PACKAGE));
    assert!(is_packaged(0));
    assert!(is_packaged(122));
}

#[test]
fn the_startup_worker_takes_the_latest_request_and_caches_the_state() {
    let mut control = StartupTaskControl::new();
    assert!(!control.is_available());
    assert!(!control.is_enabled());
    assert_eq!(control.take_request(), None);
    control.enable();
    control.request_refresh();
    assert_eq!(control.take_request(), Some(AutostartRequest::Refresh));
    assert_eq!(control.take_request(), None);
    control.disable();
    assert_eq!(control.take_request(), Some(AutostartRequest::Disable));
    control.mark_available();
    assert!(control.is_available());
    control.enable();
    let _ = control.take_request();
    control.refresh_cached_state(STARTUP_TASK_DISABLED);
    assert!(control.is_available());
    control.refresh_cached_state(STARTUP_TASK_ENABLED);
    assert!(control.is_enabled());
    control.refresh_cached_state(STARTUP_TASK_ENABLED_BY_POLICY);
    assert!(control.is_enabled());
    for state in [STARTUP_TASK_DISABLED, STARTUP_TASK_DISABLED_BY_USER, STARTUP_TASK_DISABLED_BY_POLICY] {
        control.refresh_cached_state(state);
        assert!(!control.is_enabled());
    }
}
