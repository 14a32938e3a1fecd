use vstd::prelude::*;

use crate::text::{contains_ignoring_ascii_case, upper_code, upper_contains};

verus! {

/// USB vendor id of Sony.
pub const SONY_VENDOR_ID: u16 = 0x054C;

/// DualSense (PS5).
pub const DUALSENSE_PRODUCT_ID: u16 = 0x0CE6;

/// DualSense Edge (PS5).
pub const DUALSENSE_EDGE_PRODUCT_ID: u16 = 0x0DF2;

/// DualShock 4, first generation (PS4).
pub const DUALSHOCK_GEN_1_PRODUCT_ID: u16 = 0x05C4;

/// DualShock 4, second generation (PS4).
pub const DUALSHOCK_GEN_2_PRODUCT_ID: u16 = 0x09CC;

/// The controllers of the DualSense family.
pub open spec fn is_dualsense(product_id: u16) -> bool {
    product_id == DUALSENSE_PRODUCT_ID || product_id == DUALSENSE_EDGE_PRODUCT_ID
}

/// The controllers of the DualShock family.
pub open spec fn is_dualshock(product_id: u16) -> bool {
    product_id == DUALSHOCK_GEN_1_PRODUCT_ID || product_id == DUALSHOCK_GEN_2_PRODUCT_ID
}

/// The product ids this library knows how to read.
pub open spec fn is_known_product(product_id: u16) -> bool {
    is_dualsense(product_id) || is_dualshock(product_id)
}

/// The Bluetooth HID service class GUID. Windows puts it in the device path
/// of every HID device that is connected over Bluetooth.
pub const BLUETOOTH_GUID_SUBSTRING: &'static str = "00001124-0000-1000-8000-00805F9B34FB";

/// The name a controller goes by when it reports no product string.
pub const UNKNOWN_NAME: &'static str = "Unknown";

/// A PlayStation controller that this library reads: a Sony device with one
/// of the known product ids.
pub open spec fn spec_is_playstation_controller(vendor_id: u16, product_id: u16) -> bool {
    vendor_id == SONY_VENDOR_ID && is_known_product(product_id)
}

/// Whether a HID device is one of the PlayStation controllers this library
/// reads.
pub fn is_playstation_controller(vendor_id: u16, product_id: u16) -> (found: bool)
    ensures
        found == spec_is_playstation_controller(vendor_id, product_id),
{
    vendor_id == SONY_VENDOR_ID && (product_id == DUALSENSE_PRODUCT_ID || product_id
        == DUALSENSE_EDGE_PRODUCT_ID || product_id == DUALSHOCK_GEN_1_PRODUCT_ID || product_id
        == DUALSHOCK_GEN_2_PRODUCT_ID)
}

/// A device path that belongs to a Bluetooth connection.
pub open spec fn spec_is_bluetooth_path(path: Seq<char>) -> bool {
    upper_contains(path, BLUETOOTH_GUID_SUBSTRING@)
}

/// Whether the device path says the controller is connected over Bluetooth:
/// the path, upper-cased, holds the Bluetooth HID service GUID.
pub fn is_bluetooth_path(path: &str) -> (is_bluetooth: bool)
    ensures
        is_bluetooth == spec_is_bluetooth_path(path@),
{
    contains_ignoring_ascii_case(path, BLUETOOTH_GUID_SUBSTRING)
}

/// What the library needs to know of a connected controller.
pub struct ControllerInfo {
    pub name: String,
    pub is_bluetooth: bool,
    pub product_id: u16,
    pub path: String,
}

/// The name shown for a device: its product string, or `Unknown`.
pub open spec fn shown_name(product_string: Option<&str>) -> Seq<char> {
    match product_string {
        Some(name) => name@,
        None => UNKNOWN_NAME@,
    }
}

/// Builds the controller's description from what HID enumeration reports of
/// it: its device path (already converted to text), its product string and
/// its product id.
pub fn get_controller_info(path: &str, product_string: Option<&str>, product_id: u16) -> (info:
    ControllerInfo)
    ensures
        info.name@ == shown_name(product_string),
        info.is_bluetooth == spec_is_bluetooth_path(path@),
        info.product_id == product_id,
        info.path@ == path@,
{
    let is_bluetooth = is_bluetooth_path(path);
    let name = match product_string {
        Some(name) => name.to_owned(),
        None => UNKNOWN_NAME.to_owned(),
    };
    ControllerInfo { name, is_bluetooth, product_id, path: path.to_owned() }
}

/// A device path that holds the Bluetooth HID service GUID
/// 00001124-0000-1000-8000-00805F9B34FB, with its letters in either case, is
/// a Bluetooth path; a path too short to hold the GUID is not.
pub proof fn law_bluetooth_path(path: Seq<char>, start: int)
    ensures
        ({
            let guid = "00001124-0000-1000-8000-00805F9B34FB"@;
            &&& 0 <= start && start + 36 <= path.len() && (forall|j: int|
                0 <= j < 36 ==> #[trigger] path[start + j] == guid[j] || (65 <= guid[j] as int <= 90
                    && path[start + j] as int == guid[j] as int + 32)) ==> spec_is_bluetooth_path(path)
            &&& path.len() < 36 ==> !spec_is_bluetooth_path(path)
        }),
{
    let guid = "00001124-0000-1000-8000-00805F9B34FB"@;
    reveal_strlit("00001124-0000-1000-8000-00805F9B34FB");
    assert(guid.len() == 36);
    assert(BLUETOOTH_GUID_SUBSTRING@ == guid);
    assert forall|j: int| 0 <= j < 36 implies !(97 <= #[trigger] guid[j] as int <= 122) by {
        reveal_strlit("00001124-0000-1000-8000-00805F9B34FB");
    }
    if 0 <= start && start + 36 <= path.len() && (forall|j: int|
        0 <= j < 36 ==> #[trigger] path[start + j] == guid[j] || (65 <= guid[j] as int <= 90
            && path[start + j] as int == guid[j] as int + 32)) {
        assert forall|j: int| 0 <= j < guid.len() implies upper_code(#[trigger] path[start + j])
            == guid[j] as int by {
            assert(!(97 <= guid[j] as int <= 122));
        }
        assert(crate::text::upper_matches_at(path, guid, start));
    }
}

/// The controllers read are Sony's (vendor 0x054C) DualSense (0x0CE6),
/// DualSense Edge (0x0DF2) and both DualShock 4 generations (0x05C4 and
/// 0x09CC), and nothing else. A device without a product string is shown as
/// "Unknown", any other under its product string.
pub proof fn law_recognised_controllers_and_names(
    vendor_id: u16,
    product_id: u16,
    product_string: Option<&str>,
)
    ensures
        spec_is_playstation_controller(vendor_id, product_id) <==> vendor_id == 0x054C && (product_id
            == 0x0CE6 || product_id == 0x0DF2 || product_id == 0x05C4 || product_id == 0x09CC),
        product_string matches Some(name) ==> shown_name(product_string) == name@,
        product_string is None ==> shown_name(product_string) == "Unknown"@,
{
}

} // verus!
