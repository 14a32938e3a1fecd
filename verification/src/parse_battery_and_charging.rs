use vstd::prelude::*;

use crate::controller_info::{
    is_dualsense, is_dualshock, DUALSENSE_EDGE_PRODUCT_ID, DUALSENSE_PRODUCT_ID,
    DUALSHOCK_GEN_1_PRODUCT_ID, DUALSHOCK_GEN_2_PRODUCT_ID,
};

verus! {

/// Offsets of the status byte, counting the report id as byte 0. Each family
/// puts it at a fixed place inside its report body: 52 bytes in for the
/// DualSense and 29 for the DualShock. USB prefixes that body with a single id
/// byte, while Bluetooth prefixes it with the id plus one more byte on the
/// DualSense and the id plus two more on the DualShock.
pub const USB_BATTERY_BYTE_INDEX: usize = 53;

pub const BLUETOOTH_BATTERY_BYTE_INDEX: usize = 54;

pub const DUALSHOCK_USB_BATTERY_BYTE_INDEX: usize = 30;

pub const DUALSHOCK_BLUETOOTH_BATTERY_BYTE_INDEX: usize = 32;

/// DualSense battery states, read from the high nibble. One state, not a set
/// of flags: the DualSense also reports too hot, too cold and out of voltage
/// range, which share bits with these three.
pub const BATTERY_STATE_DISCHARGING: u8 = 0x0;

pub const BATTERY_STATE_CHARGING: u8 = 0x1;

pub const BATTERY_STATE_FULLY_CHARGED: u8 = 0x2;

/// The DualShock spends the high nibble differently: only the low bit means
/// anything, and a full battery is a level of 11 rather than a state.
pub const DUALSHOCK_CABLE_CONNECTED_FLAG: u8 = 0b0001;

pub const DUALSHOCK_FULLY_CHARGED_LEVEL: u8 = 11;

/// What one battery byte says about the controller.
#[derive(Clone, Copy, Debug, PartialEq, Eq, Structural)]
pub struct BatteryAndChargingResult {
    pub battery_percent: u8,
    pub is_charging: bool,
    pub is_fully_charged: bool,
    pub unexpected_battery_data: bool,
}

/// Where the battery byte sits in the input report of `product_id`, or
/// `None` for a controller this library does not know.
pub open spec fn battery_byte_index(is_bluetooth: bool, product_id: u16) -> Option<int> {
    if is_dualsense(product_id) {
        Some(if is_bluetooth { BLUETOOTH_BATTERY_BYTE_INDEX as int } else { USB_BATTERY_BYTE_INDEX as int })
    } else if is_dualshock(product_id) {
        Some(
            if is_bluetooth {
                DUALSHOCK_BLUETOOTH_BATTERY_BYTE_INDEX as int
            } else {
                DUALSHOCK_USB_BATTERY_BYTE_INDEX as int
            },
        )
    } else {
        None
    }
}

/// The charge level, 0 to 15, carried in the low nibble.
pub open spec fn level_of(battery_byte: u8) -> int {
    battery_byte as int % 16
}

/// The state, 0 to 15, carried in the high nibble.
pub open spec fn state_of(battery_byte: u8) -> int {
    battery_byte as int / 16
}

/// The percentage for a level that is not a full battery: ten per level,
/// capped at 100.
pub open spec fn percent_of_level(level: int) -> int {
    if level * 10 > 100 { 100 } else { level * 10 }
}

/// How a DualSense battery byte reads.
pub open spec fn decode_dualsense(battery_byte: u8) -> BatteryAndChargingResult {
    let level = level_of(battery_byte);
    let state = state_of(battery_byte);
    let known_state = state == BATTERY_STATE_DISCHARGING as int || state
        == BATTERY_STATE_CHARGING as int || state == BATTERY_STATE_FULLY_CHARGED as int;
    let full = state == BATTERY_STATE_FULLY_CHARGED as int;
    BatteryAndChargingResult {
        battery_percent: if full { 100 } else { percent_of_level(level) as u8 },
        is_charging: state == BATTERY_STATE_CHARGING as int,
        is_fully_charged: full,
        unexpected_battery_data: level > 10 || !known_state,
    }
}

/// How a DualShock battery byte reads.
pub open spec fn decode_dualshock(battery_byte: u8) -> BatteryAndChargingResult {
    let level = level_of(battery_byte);
    let cable_connected = state_of(battery_byte) % 2 == 1;
    let full = cable_connected && level >= DUALSHOCK_FULLY_CHARGED_LEVEL as int;
    BatteryAndChargingResult {
        battery_percent: if full { 100 } else { percent_of_level(level) as u8 },
        is_charging: cable_connected && !full,
        is_fully_charged: full,
        unexpected_battery_data: level > DUALSHOCK_FULLY_CHARGED_LEVEL as int,
    }
}

/// What `parse_battery_and_charging` gives for a report.
pub open spec fn spec_parse_battery_and_charging(
    buffer: Seq<u8>,
    is_bluetooth: bool,
    product_id: u16,
) -> Option<BatteryAndChargingResult> {
    match battery_byte_index(is_bluetooth, product_id) {
        None => None,
        Some(index) => if index < buffer.len() {
            if is_dualsense(product_id) {
                Some(decode_dualsense(buffer[index]))
            } else {
                Some(decode_dualshock(buffer[index]))
            }
        } else {
            None
        },
    }
}

/// Reads the battery level and charging state out of an input report.
///
/// Returns `None` for a product id that is not a known PlayStation controller
/// and for a report too short to hold the battery byte.
pub fn parse_battery_and_charging(buffer: &[u8], is_bluetooth: bool, product_id: u16) -> (result:
    Option<BatteryAndChargingResult>)
    ensures
        result == spec_parse_battery_and_charging(buffer@, is_bluetooth, product_id),
{
    let is_dualsense_family: bool;
    let battery_byte_index: usize;
    if product_id == DUALSENSE_PRODUCT_ID || product_id == DUALSENSE_EDGE_PRODUCT_ID {
        is_dualsense_family = true;
        battery_byte_index = if is_bluetooth {
            BLUETOOTH_BATTERY_BYTE_INDEX
        } else {
            USB_BATTERY_BYTE_INDEX
        };
    } else if product_id == DUALSHOCK_GEN_1_PRODUCT_ID || product_id == DUALSHOCK_GEN_2_PRODUCT_ID {
        is_dualsense_family = false;
        battery_byte_index = if is_bluetooth {
            DUALSHOCK_BLUETOOTH_BATTERY_BYTE_INDEX
        } else {
            DUALSHOCK_USB_BATTERY_BYTE_INDEX
        };
    } else {
        return None;
    }

    if battery_byte_index >= buffer.len() {
        return None;
    }

    let battery_byte = buffer[battery_byte_index];
    let battery_level_nibble: u8 = battery_byte & 0b0000_1111;
    let battery_state_nibble: u8 = (battery_byte & 0b1111_0000) >> 4;
    assert(battery_level_nibble == battery_byte % 16 && battery_state_nibble == battery_byte / 16)
        by (bit_vector)
        requires
            battery_level_nibble == battery_byte & 0b0000_1111,
            battery_state_nibble == (battery_byte & 0b1111_0000) >> 4,
    ;

    let is_charging: bool;
    let is_fully_charged: bool;
    let unexpected_battery_data: bool;
    if is_dualsense_family {
        let known_state = battery_state_nibble == BATTERY_STATE_DISCHARGING || battery_state_nibble
            == BATTERY_STATE_CHARGING || battery_state_nibble == BATTERY_STATE_FULLY_CHARGED;
        is_charging = battery_state_nibble == BATTERY_STATE_CHARGING;
        is_fully_charged = battery_state_nibble == BATTERY_STATE_FULLY_CHARGED;
        unexpected_battery_data = battery_level_nibble > 10 || !known_state;
    } else {
        let cable_connected = (battery_state_nibble & DUALSHOCK_CABLE_CONNECTED_FLAG) != 0;
        assert(((battery_state_nibble & 1u8) != 0) == (battery_state_nibble % 2 == 1))
            by (bit_vector);
        let fully_charged = cable_connected && battery_level_nibble
            >= DUALSHOCK_FULLY_CHARGED_LEVEL;
        is_charging = cable_connected && !fully_charged;
        is_fully_charged = fully_charged;
        unexpected_battery_data = battery_level_nibble > DUALSHOCK_FULLY_CHARGED_LEVEL;
    }

    let battery_percent: u8 = if is_fully_charged {
        100
    } else if battery_level_nibble > 10 {
        100
    } else {
        battery_level_nibble * 10
    };

    Some(
        BatteryAndChargingResult {
            battery_percent,
            is_charging,
            is_fully_charged,
            unexpected_battery_data,
        },
    )
}

/// Controllers report their charge as a 0-10 level, so every percentage the
/// parser gives is a multiple of 10 between 0 and 100.
pub proof fn law_percent_is_a_multiple_of_ten(buffer: Seq<u8>, is_bluetooth: bool, product_id: u16)
    ensures
        spec_parse_battery_and_charging(buffer, is_bluetooth, product_id) matches Some(r) ==> {
            &&& r.battery_percent <= 100
            &&& r.battery_percent % 10 == 0
        },
{
}

/// A full battery reads 100% and is never also charging.
pub proof fn law_full_is_one_hundred_and_not_charging(
    buffer: Seq<u8>,
    is_bluetooth: bool,
    product_id: u16,
)
    ensures
        spec_parse_battery_and_charging(buffer, is_bluetooth, product_id) matches Some(r) ==> (
        r.is_fully_charged ==> r.battery_percent == 100 && !r.is_charging),
{
}

/// The DualSense Edge reads like the DualSense, and both DualShock
/// generations read alike.
pub proof fn law_family_members_read_alike(buffer: Seq<u8>, is_bluetooth: bool)
    ensures
        spec_parse_battery_and_charging(buffer, is_bluetooth, DUALSENSE_EDGE_PRODUCT_ID)
            == spec_parse_battery_and_charging(buffer, is_bluetooth, DUALSENSE_PRODUCT_ID),
        spec_parse_battery_and_charging(buffer, is_bluetooth, DUALSHOCK_GEN_2_PRODUCT_ID)
            == spec_parse_battery_and_charging(buffer, is_bluetooth, DUALSHOCK_GEN_1_PRODUCT_ID),
{
}

/// Only the battery byte of a report matters: two reports that agree there
/// (and are both long enough to hold it) read the same.
pub proof fn law_only_the_battery_byte_matters(
    report1: Seq<u8>,
    report2: Seq<u8>,
    is_bluetooth: bool,
    product_id: u16,
)
    requires
        battery_byte_index(is_bluetooth, product_id) matches Some(i) && i < report1.len() && i
            < report2.len() && report1[i] == report2[i],
    ensures
        spec_parse_battery_and_charging(report1, is_bluetooth, product_id)
            == spec_parse_battery_and_charging(report2, is_bluetooth, product_id),
{
}

/// How a DualSense or DualSense Edge report reads. Over USB the battery
/// byte is byte 53, over Bluetooth byte 54; a shorter report reads as
/// nothing. The low nibble is the level 0 to 10, read as ten percent per
/// step, so a level of 10 is 100%; the high nibble is the state: 0
/// discharging, 1 charging, 2 fully charged (which always reads 100%), and
/// anything else, like a level above 10, is unexpected data.
pub proof fn law_dualsense_report(buffer: Seq<u8>, is_bluetooth: bool, product_id: u16)
    requires
        product_id == 0x0CE6 || product_id == 0x0DF2,
    ensures
        ({
            let i: int = if is_bluetooth { 54 } else { 53 };
            i >= buffer.len() ==> spec_parse_battery_and_charging(buffer, is_bluetooth, product_id)
                is None
        }),
        ({
            let i: int = if is_bluetooth { 54 } else { 53 };
            let level = buffer[i] as int % 16;
            let state = buffer[i] as int / 16;
            i < buffer.len() ==> (spec_parse_battery_and_charging(buffer, is_bluetooth, product_id)
                matches Some(r) && {
                &&& r.is_charging == (state == 1)
                &&& r.is_fully_charged == (state == 2)
                &&& r.unexpected_battery_data == (level > 10 || state > 2)
                &&& state != 2 && level <= 10 ==> r.battery_percent == 10 * level
                &&& state != 2 && level > 10 ==> r.battery_percent == 100
                &&& state == 2 ==> r.battery_percent == 100
            })
        }),
{
}

/// How a DualShock 4 report reads. Over USB the battery byte is byte 30,
/// over Bluetooth byte 32; a shorter report reads as nothing. The low
/// nibble is the level, ten percent per step; the lowest bit of the high
/// nibble says the cable is connected. On the cable a level of 11 or more
/// means fully charged (100%), otherwise charging; off the cable the
/// controller is discharging. A level above 11 is unexpected data.
pub proof fn law_dualshock_report(buffer: Seq<u8>, is_bluetooth: bool, product_id: u16)
    requires
        product_id == 0x05C4 || product_id == 0x09CC,
    ensures
        ({
            let i: int = if is_bluetooth { 32 } else { 30 };
            i >= buffer.len() ==> spec_parse_battery_and_charging(buffer, is_bluetooth, product_id)
                is None
        }),
        ({
            let i: int = if is_bluetooth { 32 } else { 30 };
            let level = buffer[i] as int % 16;
            let cable = (buffer[i] as int / 16) % 2 == 1;
            let full = cable && level >= 11;
            i < buffer.len() ==> (spec_parse_battery_and_charging(buffer, is_bluetooth, product_id)
                matches Some(r) && {
                &&& r.is_fully_charged == full
                &&& r.is_charging == (cable && !full)
                &&& r.unexpected_battery_data == (level > 11)
                &&& !full && level <= 10 ==> r.battery_percent == 10 * level
                &&& !full && level > 10 ==> r.battery_percent == 100
                &&& full ==> r.battery_percent == 100
            })
        }),
{
}

/// Only the four known controllers are read; any other product id reads as
/// nothing, whatever the report.
pub proof fn law_unknown_products_read_as_nothing(buffer: Seq<u8>, is_bluetooth: bool, product_id: u16)
    requires
        product_id != 0x0CE6 && product_id != 0x0DF2 && product_id != 0x05C4 && product_id != 0x09CC,
    ensures
        spec_parse_battery_and_charging(buffer, is_bluetooth, product_id) is None,
{
}

/// A higher level never reads as a lower percentage, for the same state.
pub proof fn law_percent_grows_with_the_level(
    report1: Seq<u8>,
    report2: Seq<u8>,
    is_bluetooth: bool,
    product_id: u16,
)
    requires
        battery_byte_index(is_bluetooth, product_id) matches Some(i) && i < report1.len() && i
            < report2.len() && report1[i] / 16 == report2[i] / 16 && report1[i] % 16 <= report2[i]
            % 16,
    ensures
        spec_parse_battery_and_charging(report1, is_bluetooth, product_id) is Some,
        spec_parse_battery_and_charging(report2, is_bluetooth, product_id) is Some,
        !spec_parse_battery_and_charging(report2, is_bluetooth, product_id).unwrap().is_fully_charged
            ==> spec_parse_battery_and_charging(report1, is_bluetooth, product_id).unwrap().battery_percent
            <= spec_parse_battery_and_charging(report2, is_bluetooth, product_id).unwrap().battery_percent,
{
}

} // verus!
