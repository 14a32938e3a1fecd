use vstd::prelude::*;

use crate::controller_info::{
    is_dualsense, is_dualshock, ControllerInfo, DUALSENSE_EDGE_PRODUCT_ID, DUALSENSE_PRODUCT_ID,
    DUALSHOCK_GEN_1_PRODUCT_ID, DUALSHOCK_GEN_2_PRODUCT_ID,
};
use crate::controller_store::ControllerStatus;
use crate::parse_battery_and_charging::{
    parse_battery_and_charging, spec_parse_battery_and_charging,
};

verus! {

/// Whether `status` belongs to the device at `path`.
pub open spec fn has_path(status: ControllerStatus, path: Seq<char>) -> bool {
    status.path@ == path
}

/// The position of the first status in `statuses` whose path is `path`.
pub open spec fn first_with_path(statuses: Seq<ControllerStatus>, path: Seq<char>) -> Option<int> {
    if exists|i: int| 0 <= i < statuses.len() && has_path(#[trigger] statuses[i], path) {
        Some(
            choose|i: int|
                0 <= i < statuses.len() && has_path(#[trigger] statuses[i], path) && forall|j: int|
                    0 <= j < i ==> !has_path(#[trigger] statuses[j], path),
        )
    } else {
        None
    }
}

/// `status` kept for one more poll after a failed read.
pub open spec fn marked_failed(status: ControllerStatus) -> ControllerStatus {
    ControllerStatus { last_read_failed: true, ..status }
}

/// What `carry_over_previous_read` gives.
pub open spec fn spec_carry_over(previous: Seq<ControllerStatus>, path: Seq<char>) -> Option<
    ControllerStatus,
> {
    match first_with_path(previous, path) {
        None => None,
        Some(i) => if previous[i].last_read_failed {
            None
        } else {
            Some(marked_failed(previous[i]))
        },
    }
}

/// Windows keeps listing the HID device of a disconnected Bluetooth
/// controller, so a controller that is gone looks identical to one whose read
/// hiccuped. The first failed read therefore keeps the previous values, marked
/// as a failed read, and a second failure in a row drops the controller.
pub fn carry_over_previous_read(previous_controllers: &[ControllerStatus], path: &str) -> (carried:
    Option<ControllerStatus>)
    ensures
        carried == spec_carry_over(previous_controllers@, path@),
{
    let wanted = path.to_owned();
    let n = previous_controllers.len();
    let mut i: usize = 0;
    while i < n
        invariant
            n == previous_controllers@.len(),
            wanted@ == path@,
            i <= n,
            forall|j: int| 0 <= j < i ==> !has_path(#[trigger] previous_controllers@[j], path@),
        decreases n - i,
    {
        let previous = &previous_controllers[i];
        if previous.path == wanted {
            proof {
                let first = first_with_path(previous_controllers@, path@);
                assert(has_path(previous_controllers@[i as int], path@));
                let k = first->0;
                assert(k == i) by {
                    if k < i {
                        assert(!has_path(previous_controllers@[k], path@));
                    } else if k > i {
                        assert(!has_path(previous_controllers@[i as int], path@));
                    }
                }
            }
            if previous.last_read_failed {
                return None;
            }
            let mut carried = previous.clone();
            carried.last_read_failed = true;
            return Some(carried);
        }
        i = i + 1;
    }
    None
}

/// A controller as enumerated together with the input report read from it.
/// The report is empty when the device could not be opened or sent nothing.
pub struct DeviceReading {
    pub info: ControllerInfo,
    pub report: Vec<u8>,
}

/// The status a fresh, parsed reading gives.
pub open spec fn fresh_status(info: ControllerInfo, report: Seq<u8>) -> Option<ControllerStatus> {
    match spec_parse_battery_and_charging(report, info.is_bluetooth, info.product_id) {
        None => None,
        Some(battery) => Some(
            ControllerStatus {
                name: info.name,
                battery_percent: battery.battery_percent,
                is_charging: battery.is_charging,
                is_fully_charged: battery.is_fully_charged,
                is_bluetooth: info.is_bluetooth,
                path: info.path,
                last_read_failed: false,
                unexpected_battery_data: battery.unexpected_battery_data,
            },
        ),
    }
}

/// A report that carries no data: nothing was read, or report id 0.
pub open spec fn is_empty_report(report: Seq<u8>) -> bool {
    report.len() == 0 || report[0] == 0
}

/// The status one reading contributes to a poll, if any.
pub open spec fn spec_status_from_reading(
    reading: DeviceReading,
    previous: Seq<ControllerStatus>,
) -> Option<ControllerStatus> {
    if is_empty_report(reading.report@) {
        spec_carry_over(previous, reading.info.path@)
    } else {
        fresh_status(reading.info, reading.report@)
    }
}

/// The status one reading contributes to a poll: the parsed report, the
/// previous reading carried over when the report is empty, or nothing when
/// the report cannot be parsed.
pub fn status_from_reading(reading: &DeviceReading, previous_controllers: &[ControllerStatus]) -> (status:
    Option<ControllerStatus>)
    ensures
        status == spec_status_from_reading(*reading, previous_controllers@),
{
    let report = reading.report.as_slice();
    if report.len() == 0 || report[0] == 0 {
        return carry_over_previous_read(previous_controllers, reading.info.path.as_str());
    }
    match parse_battery_and_charging(report, reading.info.is_bluetooth, reading.info.product_id) {
        None => None,
        Some(battery) => Some(
            ControllerStatus {
                name: reading.info.name.clone(),
                battery_percent: battery.battery_percent,
                is_charging: battery.is_charging,
                is_fully_charged: battery.is_fully_charged,
                is_bluetooth: reading.info.is_bluetooth,
                path: reading.info.path.clone(),
                last_read_failed: false,
                unexpected_battery_data: battery.unexpected_battery_data,
            },
        ),
    }
}

/// The statuses a poll stores, one per reading that contributes one, in the
/// order the controllers were enumerated.
pub open spec fn spec_poll_statuses(
    readings: Seq<DeviceReading>,
    previous: Seq<ControllerStatus>,
) -> Seq<ControllerStatus>
    decreases readings.len(),
{
    if readings.len() == 0 {
        Seq::empty()
    } else {
        let rest = spec_poll_statuses(readings.drop_last(), previous);
        match spec_status_from_reading(readings.last(), previous) {
            Some(status) => rest.push(status),
            None => rest,
        }
    }
}

/// Turns the readings of one poll into the statuses to store, given the
/// statuses the previous poll stored.
pub fn collect_controller_statuses(
    readings: &Vec<DeviceReading>,
    previous_controllers: &[ControllerStatus],
) -> (statuses: Vec<ControllerStatus>)
    ensures
        statuses@ == spec_poll_statuses(readings@, previous_controllers@),
{
    let mut statuses: Vec<ControllerStatus> = Vec::new();
    let n = readings.len();
    let mut i: usize = 0;
    while i < n
        invariant
            n == readings@.len(),
            i <= n,
            statuses@ == spec_poll_statuses(readings@.take(i as int), previous_controllers@),
        decreases n - i,
    {
        let status = status_from_reading(&readings[i], previous_controllers);
        assert(readings@.take(i + 1).drop_last() == readings@.take(i as int));
        match status {
            Some(status) => statuses.push(status),
            None => {},
        }
        i = i + 1;
    }
    assert(readings@.take(n as int) == readings@);
    statuses
}

/// Size and id of the calibration feature report of each controller family.
pub const DUALSENSE_REPORT_SIZE: usize = 78;

pub const DUALSHOCK_REPORT_SIZE: usize = 64;

pub const DUALSENSE_REPORT_FEATURE_ID: u8 = 0x05;

pub const DUALSHOCK_REPORT_FEATURE_ID: u8 = 0x02;

/// A zeroed buffer of `size` bytes whose first byte is the report id `id`.
pub open spec fn report_request(size: int, id: u8) -> Seq<u8> {
    Seq::new(size as nat, |i: int| if i == 0 { id } else { 0u8 })
}

/// The buffer to hand to a feature report request for `product_id`.
pub open spec fn spec_feature_report_buffer(product_id: u16) -> Option<Seq<u8>> {
    if is_dualsense(product_id) {
        Some(report_request(DUALSENSE_REPORT_SIZE as int, DUALSENSE_REPORT_FEATURE_ID))
    } else if is_dualshock(product_id) {
        Some(report_request(DUALSHOCK_REPORT_SIZE as int, DUALSHOCK_REPORT_FEATURE_ID))
    } else {
        None
    }
}

fn zeroed_report(size: usize, id: u8) -> (buffer: Vec<u8>)
    requires
        size > 0,
    ensures
        buffer@ == report_request(size as int, id),
{
    let mut buffer: Vec<u8> = Vec::new();
    buffer.push(id);
    let mut i: usize = 1;
    while i < size
        invariant
            1 <= i <= size,
            buffer@ == report_request(i as int, id),
        decreases size - i,
    {
        buffer.push(0);
        i = i + 1;
        assert(buffer@ =~= report_request(i as int, id));
    }
    buffer
}

/// The request buffer for the calibration feature report of `product_id`.
/// Requesting that report has a side effect the battery reading needs: it
/// switches a Bluetooth controller from truncated to full input reports,
/// which are the ones that carry the battery byte. `None` for a product this
/// library does not know, for which no request is made.
pub fn feature_report_buffer(product_id: u16) -> (buffer: Option<Vec<u8>>)
    ensures
        match buffer {
            Some(b) => spec_feature_report_buffer(product_id) == Some(b@),
            None => spec_feature_report_buffer(product_id) is None,
        },
{
    if product_id == DUALSENSE_PRODUCT_ID || product_id == DUALSENSE_EDGE_PRODUCT_ID {
        Some(zeroed_report(DUALSENSE_REPORT_SIZE, DUALSENSE_REPORT_FEATURE_ID))
    } else if product_id == DUALSHOCK_GEN_1_PRODUCT_ID || product_id == DUALSHOCK_GEN_2_PRODUCT_ID {
        Some(zeroed_report(DUALSHOCK_REPORT_SIZE, DUALSHOCK_REPORT_FEATURE_ID))
    } else {
        None
    }
}

/// A reading with data reports what the device and its report say: nothing
/// when the report cannot be parsed, and otherwise a status with the
/// device's name, path and transport, the parsed battery percentage and
/// charge flags, and no failed read. A reading without data stands for the
/// previous status of the same path (see the carry-over law).
pub proof fn law_reading_reports_the_device_and_its_report(
    reading: DeviceReading,
    previous: Seq<ControllerStatus>,
)
    ensures
        reading.report@.len() == 0 || reading.report@[0] == 0 ==> spec_status_from_reading(
            reading,
            previous,
        ) == spec_carry_over(previous, reading.info.path@),
        reading.report@.len() > 0 && reading.report@[0] != 0 ==> (spec_status_from_reading(
            reading,
            previous,
        ) is None <==> spec_parse_battery_and_charging(
            reading.report@,
            reading.info.is_bluetooth,
            reading.info.product_id,
        ) is None),
        reading.report@.len() > 0 && reading.report@[0] != 0 ==> (spec_status_from_reading(
            reading,
            previous,
        ) matches Some(status) ==> {
            let battery = spec_parse_battery_and_charging(
                reading.report@,
                reading.info.is_bluetooth,
                reading.info.product_id,
            )->0;
            &&& status.name == reading.info.name
            &&& status.path == reading.info.path
            &&& status.is_bluetooth == reading.info.is_bluetooth
            &&& !status.last_read_failed
            &&& status.battery_percent == battery.battery_percent
            &&& status.is_charging == battery.is_charging
            &&& status.is_fully_charged == battery.is_fully_charged
            &&& status.unexpected_battery_data == battery.unexpected_battery_data
        }),
{
}

/// The feature report request is a zeroed buffer whose first byte is the
/// report id: 78 bytes with id 0x05 for the DualSense and the DualSense Edge,
/// 64 bytes with id 0x02 for both DualShock 4 generations, and no request for
/// any other product.
pub proof fn law_feature_report_request(product_id: u16)
    ensures
        (product_id == 0x0CE6 || product_id == 0x0DF2) ==> (spec_feature_report_buffer(product_id)
            matches Some(buffer) && buffer.len() == 78 && buffer[0] == 0x05 && forall|i: int|
            1 <= i < 78 ==> #[trigger] buffer[i] == 0),
        (product_id == 0x05C4 || product_id == 0x09CC) ==> (spec_feature_report_buffer(product_id)
            matches Some(buffer) && buffer.len() == 64 && buffer[0] == 0x02 && forall|i: int|
            1 <= i < 64 ==> #[trigger] buffer[i] == 0),
        !(product_id == 0x0CE6 || product_id == 0x0DF2 || product_id == 0x05C4 || product_id
            == 0x09CC) ==> spec_feature_report_buffer(product_id) is None,
{
}

/// The first byte of a truncated Bluetooth input report, one without the
/// battery byte.
pub const TRUNCATED_BLUETOOTH_HEADER: u8 = 0x01;

/// Reports that arrived before the report mode switch stay queued behind it,
/// so the re-read may need to discard a few stale truncated reports first.
pub const REPORT_MODE_SWITCH_READ_ATTEMPTS: usize = 5;

/// What to do after an input report read.
#[derive(Clone, Copy, Debug, PartialEq, Eq, Structural)]
pub enum ReadAction {
    /// Keep the report from the last read (truncated to its length).
    Finish,
    /// Request the feature report that switches the controller to full
    /// reports, wait for it to settle, then read again.
    SwitchReportModeAndRead,
    /// Discard the stale report and read again.
    ReadAgain,
}

/// The decisions of reading one input report: a truncated Bluetooth report
/// triggers a report mode switch, after which up to
/// `REPORT_MODE_SWITCH_READ_ATTEMPTS` reads skip stale truncated reports.
pub struct InputReportReader {
    is_bluetooth: bool,
    /// Reads made since the report mode switch; `None` before it.
    rereads: Option<usize>,
}

/// Whether a read of `length` bytes starting with `first_byte` is a
/// truncated report.
pub open spec fn is_truncated(length: usize, first_byte: u8) -> bool {
    length > 0 && first_byte == TRUNCATED_BLUETOOTH_HEADER
}

impl InputReportReader {
    /// Whether the report mode switch was made.
    pub closed spec fn switched(&self) -> bool {
        self.rereads is Some
    }

    /// Reads made since the report mode switch.
    pub closed spec fn rereads(&self) -> int {
        match self.rereads {
            Some(n) => n as int,
            None => 0,
        }
    }

    /// The connection the reads go over.
    pub closed spec fn bluetooth(&self) -> bool {
        self.is_bluetooth
    }

    pub closed spec fn well_formed(&self) -> bool {
        self.rereads() <= REPORT_MODE_SWITCH_READ_ATTEMPTS
    }

    /// The most reads that can still follow: one for the switch and
    /// `REPORT_MODE_SWITCH_READ_ATTEMPTS` after it, fewer once under way.
    pub open spec fn reads_left(&self) -> int {
        if self.switched() {
            REPORT_MODE_SWITCH_READ_ATTEMPTS - self.rereads()
        } else {
            REPORT_MODE_SWITCH_READ_ATTEMPTS as int
        }
    }

    /// The reader before the first read.
    pub fn new(is_bluetooth: bool) -> (reader: Self)
        ensures
            reader.well_formed(),
            !reader.switched(),
            reader.rereads() == 0,
            reader.bluetooth() == is_bluetooth,
    {
        InputReportReader { is_bluetooth, rereads: None }
    }

    /// Decides what follows a read of `length` bytes whose first byte is
    /// `first_byte` (ignored when `length` is 0).
    pub fn next_action(&mut self, length: usize, first_byte: u8) -> (action: ReadAction)
        requires
            old(self).well_formed(),
        ensures
            final(self).well_formed(),
            final(self).bluetooth() == old(self).bluetooth(),
            0 <= final(self).reads_left(),
            action != ReadAction::Finish ==> final(self).reads_left() < old(self).reads_left(),
            !old(self).switched() ==> {
                if old(self).bluetooth() && is_truncated(length, first_byte) {
                    &&& action == ReadAction::SwitchReportModeAndRead
                    &&& final(self).switched()
                    &&& final(self).rereads() == 1
                } else {
                    &&& action == ReadAction::Finish
                    &&& *final(self) == *old(self)
                }
            },
            old(self).switched() ==> {
                &&& final(self).switched()
                &&& if is_truncated(length, first_byte) && old(self).rereads()
                    < REPORT_MODE_SWITCH_READ_ATTEMPTS {
                    &&& action == ReadAction::ReadAgain
                    &&& final(self).rereads() == old(self).rereads() + 1
                } else {
                    &&& action == ReadAction::Finish
                    &&& final(self).rereads() == old(self).rereads()
                }
            },
    {
        let truncated = length > 0 && first_byte == TRUNCATED_BLUETOOTH_HEADER;
        match self.rereads {
            None => {
                if self.is_bluetooth && truncated {
                    self.rereads = Some(1);
                    ReadAction::SwitchReportModeAndRead
                } else {
                    ReadAction::Finish
                }
            },
            Some(n) => {
                if truncated && n < REPORT_MODE_SWITCH_READ_ATTEMPTS {
                    self.rereads = Some(n + 1);
                    ReadAction::ReadAgain
                } else {
                    ReadAction::Finish
                }
            },
        }
    }
}

/// The state `PollSignal` holds: whether a poll was requested, and whether a
/// poll is running.
#[derive(Clone, Copy, Debug, PartialEq, Eq, Structural)]
pub struct PollState {
    pub requested: bool,
    pub polling: bool,
}

/// The operations on a `PollSignal`.
#[derive(Clone, Copy, Debug, PartialEq, Eq, Structural)]
pub enum PollOp {
    /// `request_poll`.
    Request,
    /// `wait_for_next_poll` ending.
    Wait,
    /// `set_polling`.
    SetPolling(bool),
}

/// The state after one operation.
pub open spec fn poll_step(state: PollState, op: PollOp) -> PollState {
    match op {
        PollOp::Request => PollState { requested: true, ..state },
        PollOp::Wait => PollState { requested: false, ..state },
        PollOp::SetPolling(polling) => PollState { polling, ..state },
    }
}

/// The state after a sequence of operations.
pub open spec fn poll_run(state: PollState, ops: Seq<PollOp>) -> PollState
    decreases ops.len(),
{
    if ops.len() == 0 {
        state
    } else {
        poll_step(poll_run(state, ops.drop_last()), ops.last())
    }
}

/// The wake-up state shared by the polling thread and the tray menu: whether
/// a poll was requested, and whether a poll is running.
pub struct PollSignal {
    requested: bool,
    polling: bool,
}

impl View for PollSignal {
    type V = PollState;

    closed spec fn view(&self) -> PollState {
        PollState { requested: self.requested, polling: self.polling }
    }
}

impl PollSignal {
    /// No request pending and no poll running.
    pub fn new() -> (signal: Self)
        ensures
            signal@ == (PollState { requested: false, polling: false }),
    {
        PollSignal { requested: false, polling: false }
    }

    /// Asks the polling thread for a poll now rather than at the end of its
    /// interval. A request made while a poll runs is kept for the next wait.
    pub fn request_poll(&mut self)
        ensures
            final(self)@ == poll_step(old(self)@, PollOp::Request),
    {
        self.requested = true;
    }

    /// Whether a request is pending; the polling thread's wait ends early
    /// when it is.
    pub fn is_poll_requested(&self) -> (requested: bool)
        ensures
            requested == self@.requested,
    {
        self.requested
    }

    /// Ends a wait for the next poll: the request that ended it, if any, is
    /// consumed. Returns whether there was one.
    pub fn wait_for_next_poll(&mut self) -> (was_requested: bool)
        ensures
            was_requested == old(self)@.requested,
            final(self)@ == poll_step(old(self)@, PollOp::Wait),
    {
        let was_requested = self.requested;
        self.requested = false;
        was_requested
    }

    /// Marks the start or the end of a poll.
    pub fn set_polling(&mut self, polling: bool)
        ensures
            final(self)@ == poll_step(old(self)@, PollOp::SetPolling(polling)),
    {
        self.polling = polling;
    }

    /// Whether a poll is running.
    pub fn is_polling(&self) -> (polling: bool)
        ensures
            polling == self@.polling,
    {
        self.polling
    }
}

/// `k` poll requests in a row.
pub open spec fn requests(k: nat) -> Seq<PollOp> {
    Seq::new(k, |i: int| PollOp::Request)
}

/// Repeated requests act as one: after `k >= 1` requests the state is the
/// one a single request gives, the next wait ends at once (it finds a
/// request) and consumes it, and the wait after that finds none.
pub proof fn law_repeated_requests_act_as_one(state: PollState, k: nat)
    requires
        k >= 1,
    ensures
        poll_run(state, requests(k)) == poll_step(state, PollOp::Request),
        poll_run(state, requests(k)).requested,
        !poll_step(poll_run(state, requests(k)), PollOp::Wait).requested,
    decreases k,
{
    reveal_with_fuel(poll_run, 2);
    assert(requests(k).last() == PollOp::Request);
    if k > 1 {
        law_repeated_requests_act_as_one(state, (k - 1) as nat);
        assert(requests(k).drop_last() =~= requests((k - 1) as nat));
    } else {
        assert(requests(k).drop_last() =~= Seq::<PollOp>::empty());
    }
}

/// Operations other than `SetPolling` leave the polling flag alone.
pub open spec fn sets_no_polling(ops: Seq<PollOp>) -> bool {
    forall|i: int| 0 <= i < ops.len() ==> !(#[trigger] ops[i] is SetPolling)
}

proof fn lemma_polling_kept(state: PollState, ops: Seq<PollOp>)
    requires
        sets_no_polling(ops),
    ensures
        poll_run(state, ops).polling == state.polling,
    decreases ops.len(),
{
    if ops.len() > 0 {
        assert(sets_no_polling(ops.drop_last())) by {
            assert forall|i: int| 0 <= i < ops.drop_last().len() implies !(
            #[trigger] ops.drop_last()[i] is SetPolling) by {
                assert(ops.drop_last()[i] == ops[i]);
            }
        }
        lemma_polling_kept(state, ops.drop_last());
        assert(!(ops[ops.len() - 1] is SetPolling));
    }
}

/// A poll marks its start and its end, whatever happens in between: from
/// the start mark until the end mark the signal says a poll is running, and
/// after the end mark it says none is. (That the end mark comes on every
/// return path is the job of the caller, which issues it when the poll's
/// scope ends.)
pub proof fn law_polling_flag_covers_a_poll(state: PollState, during: Seq<PollOp>, i: int)
    requires
        sets_no_polling(during),
        0 <= i <= during.len(),
    ensures
        poll_run(state, seq![PollOp::SetPolling(true)] + during.take(i)).polling,
        !poll_run(state, seq![PollOp::SetPolling(true)] + during + seq![PollOp::SetPolling(false)]).polling,
{
    let started = poll_step(state, PollOp::SetPolling(true));
    assert(sets_no_polling(during.take(i))) by {
        assert forall|j: int| 0 <= j < during.take(i).len() implies !(
        #[trigger] during.take(i)[j] is SetPolling) by {
            assert(during.take(i)[j] == during[j]);
        }
    }
    lemma_polling_kept(started, during.take(i));
    lemma_run_append(state, seq![PollOp::SetPolling(true)], during.take(i));
    assert(poll_run(state, seq![PollOp::SetPolling(true)]) == started) by {
        reveal_with_fuel(poll_run, 2);
        assert(seq![PollOp::SetPolling(true)].drop_last() =~= Seq::<PollOp>::empty());
    }
    let whole = seq![PollOp::SetPolling(true)] + during + seq![PollOp::SetPolling(false)];
    assert(whole.drop_last() =~= seq![PollOp::SetPolling(true)] + during);
}

/// Running two sequences one after the other.
pub proof fn lemma_run_append(state: PollState, first: Seq<PollOp>, second: Seq<PollOp>)
    ensures
        poll_run(state, first + second) == poll_run(poll_run(state, first), second),
    decreases second.len(),
{
    if second.len() == 0 {
        assert(first + second =~= first);
    } else {
        lemma_run_append(state, first, second.drop_last());
        assert((first + second).drop_last() =~= first + second.drop_last());
    }
}

/// When some status has `path`, a first one does.
proof fn lemma_first_with_path_exists(statuses: Seq<ControllerStatus>, path: Seq<char>, w: int)
    requires
        0 <= w < statuses.len(),
        has_path(statuses[w], path),
    ensures
        exists|i: int|
            0 <= i < statuses.len() && has_path(#[trigger] statuses[i], path) && forall|j: int|
                0 <= j < i ==> !has_path(#[trigger] statuses[j], path),
    decreases w,
{
    if exists|j: int| 0 <= j < w && has_path(#[trigger] statuses[j], path) {
        let j = choose|j: int| 0 <= j < w && has_path(#[trigger] statuses[j], path);
        lemma_first_with_path_exists(statuses, path, j);
    } else {
        assert(forall|j: int| 0 <= j < w ==> !has_path(#[trigger] statuses[j], path));
    }
}

/// The first status with `path`, when there is one, has that path and none
/// before it does.
pub proof fn lemma_first_with_path(statuses: Seq<ControllerStatus>, path: Seq<char>)
    ensures
        first_with_path(statuses, path) matches Some(i) ==> {
            &&& 0 <= i < statuses.len()
            &&& has_path(statuses[i], path)
            &&& forall|j: int| 0 <= j < i ==> !has_path(#[trigger] statuses[j], path)
        },
{
    if exists|i: int| 0 <= i < statuses.len() && has_path(#[trigger] statuses[i], path) {
        let w = choose|i: int| 0 <= i < statuses.len() && has_path(#[trigger] statuses[i], path);
        lemma_first_with_path_exists(statuses, path, w);
    }
}

/// A controller whose read fails is kept once, marked as failed; if its next
/// read fails too, it is dropped.
pub proof fn law_second_failed_read_drops_the_controller(
    previous: Seq<ControllerStatus>,
    path: Seq<char>,
)
    ensures
        spec_carry_over(previous, path) matches Some(kept) ==> {
            &&& kept.last_read_failed
            &&& kept.path@ == path
            &&& spec_carry_over(seq![kept], path) is None
        },
{
    lemma_first_with_path(previous, path);
    if let Some(kept) = spec_carry_over(previous, path) {
        let single = seq![kept];
        assert(has_path(single[0], path));
        let k = first_with_path(single, path)->0;
        assert(k == 0);
    }
}

/// A poll stores at most one status per enumerated controller.
pub proof fn law_poll_stores_at_most_one_status_per_controller(
    readings: Seq<DeviceReading>,
    previous: Seq<ControllerStatus>,
)
    ensures
        spec_poll_statuses(readings, previous).len() <= readings.len(),
    decreases readings.len(),
{
    if readings.len() > 0 {
        law_poll_stores_at_most_one_status_per_controller(readings.drop_last(), previous);
    }
}

/// A poll loses no controller it could read: for every reading whose report
/// has data and parses, the stored list holds a status with that device's
/// path, transport and parsed battery values, not marked as a failed read.
pub proof fn law_poll_stores_every_parsed_reading(
    readings: Seq<DeviceReading>,
    previous: Seq<ControllerStatus>,
    j: int,
)
    requires
        0 <= j < readings.len(),
        readings[j].report@.len() > 0,
        readings[j].report@[0] != 0,
        spec_parse_battery_and_charging(
            readings[j].report@,
            readings[j].info.is_bluetooth,
            readings[j].info.product_id,
        ) is Some,
    ensures
        exists|k: int|
            0 <= k < spec_poll_statuses(readings, previous).len() && {
                let stored = #[trigger] spec_poll_statuses(readings, previous)[k];
                let battery = spec_parse_battery_and_charging(
                    readings[j].report@,
                    readings[j].info.is_bluetooth,
                    readings[j].info.product_id,
                )->0;
                &&& stored.path == readings[j].info.path
                &&& stored.name == readings[j].info.name
                &&& stored.is_bluetooth == readings[j].info.is_bluetooth
                &&& !stored.last_read_failed
                &&& stored.battery_percent == battery.battery_percent
                &&& stored.is_charging == battery.is_charging
                &&& stored.is_fully_charged == battery.is_fully_charged
            },
    decreases readings.len(),
{
    let stored = spec_poll_statuses(readings, previous);
    let rest = spec_poll_statuses(readings.drop_last(), previous);
    if j == readings.len() - 1 {
        assert(!is_empty_report(readings.last().report@));
        let status = spec_status_from_reading(readings.last(), previous)->0;
        assert(stored == rest.push(status));
        assert(stored[rest.len() as int] == status);
    } else {
        assert(readings.drop_last()[j] == readings[j]);
        law_poll_stores_every_parsed_reading(readings.drop_last(), previous, j);
        let k = choose|k: int|
            0 <= k < rest.len() && {
                let stored = #[trigger] rest[k];
                let battery = spec_parse_battery_and_charging(
                    readings[j].report@,
                    readings[j].info.is_bluetooth,
                    readings[j].info.product_id,
                )->0;
                &&& stored.path == readings[j].info.path
                &&& stored.name == readings[j].info.name
                &&& stored.is_bluetooth == readings[j].info.is_bluetooth
                &&& !stored.last_read_failed
                &&& stored.battery_percent == battery.battery_percent
                &&& stored.is_charging == battery.is_charging
                &&& stored.is_fully_charged == battery.is_fully_charged
            };
        match spec_status_from_reading(readings.last(), previous) {
            Some(status) => {
                assert(stored == rest.push(status));
                assert(stored[k] == rest[k]);
            },
            None => {
                assert(stored == rest);
            },
        }
    }
}

/// A poll that finds no controllers stores an empty list.
pub proof fn law_no_controllers_stores_nothing(previous: Seq<ControllerStatus>)
    ensures
        spec_poll_statuses(Seq::<DeviceReading>::empty(), previous) == Seq::<ControllerStatus>::empty(),
{
}

/// The status a reading contributes carries the reading's path.
proof fn lemma_status_keeps_the_path(reading: DeviceReading, previous: Seq<ControllerStatus>)
    ensures
        spec_status_from_reading(reading, previous) matches Some(status) ==> status.path@
            == reading.info.path@,
{
    lemma_first_with_path(previous, reading.info.path@);
}

/// Only the reading of the device at `path` can contribute a status with
/// that path.
proof fn lemma_no_reading_no_status(
    readings: Seq<DeviceReading>,
    previous: Seq<ControllerStatus>,
    path: Seq<char>,
)
    requires
        forall|j: int| 0 <= j < readings.len() ==> #[trigger] readings[j].info.path@ != path,
    ensures
        forall|k: int|
            0 <= k < spec_poll_statuses(readings, previous).len() ==> !has_path(
                #[trigger] spec_poll_statuses(readings, previous)[k],
                path,
            ),
    decreases readings.len(),
{
    if readings.len() > 0 {
        let shorter = readings.drop_last();
        assert forall|j: int| 0 <= j < shorter.len() implies #[trigger] shorter[j].info.path@ != path by {
            assert(shorter[j] == readings[j]);
        }
        lemma_no_reading_no_status(shorter, previous, path);
        lemma_status_keeps_the_path(readings.last(), previous);
        assert(readings[readings.len() - 1].info.path@ != path);
        let stored = spec_poll_statuses(readings, previous);
        let before = spec_poll_statuses(shorter, previous);
        assert forall|k: int| 0 <= k < stored.len() implies !has_path(#[trigger] stored[k], path) by {
            if k < before.len() {
                assert(stored[k] == before[k]);
            }
        }
    }
}

/// When exactly one reading (at `j`) is of the device at `path`, the
/// statuses a poll stores with that path are the one that reading
/// contributes, and it is stored when there is one.
proof fn lemma_status_of_the_only_reading(
    readings: Seq<DeviceReading>,
    previous: Seq<ControllerStatus>,
    path: Seq<char>,
    j: int,
)
    requires
        0 <= j < readings.len(),
        readings[j].info.path@ == path,
        forall|other: int|
            0 <= other < readings.len() && other != j ==> #[trigger] readings[other].info.path@ != path,
    ensures
        forall|k: int|
            0 <= k < spec_poll_statuses(readings, previous).len() && has_path(
                #[trigger] spec_poll_statuses(readings, previous)[k],
                path,
            ) ==> spec_status_from_reading(readings[j], previous) == Some(
                spec_poll_statuses(readings, previous)[k],
            ),
        spec_status_from_reading(readings[j], previous) matches Some(status) ==> exists|k: int|
            0 <= k < spec_poll_statuses(readings, previous).len()
                && #[trigger] spec_poll_statuses(readings, previous)[k] == status,
    decreases readings.len(),
{
    let shorter = readings.drop_last();
    let stored = spec_poll_statuses(readings, previous);
    let stored_before = spec_poll_statuses(shorter, previous);
    let last = readings.len() - 1;
    lemma_status_keeps_the_path(readings[last], previous);
    if j == last {
        assert forall|other: int| 0 <= other < shorter.len() implies #[trigger] shorter[other].info.path@
            != path by {
            assert(shorter[other] == readings[other]);
        }
        lemma_no_reading_no_status(shorter, previous, path);
        if let Some(status) = spec_status_from_reading(readings[j], previous) {
            assert(stored[stored.len() - 1] == status);
        }
    } else {
        assert(shorter[j] == readings[j]);
        assert forall|other: int| 0 <= other < shorter.len() && other != j implies #[trigger] shorter[
            other].info.path@ != path by {
            assert(shorter[other] == readings[other]);
        }
        lemma_status_of_the_only_reading(shorter, previous, path, j);
        assert(readings[last].info.path@ != path);
        if let Some(status) = spec_status_from_reading(readings[j], previous) {
            let k = choose|k: int| 0 <= k < stored_before.len() && #[trigger] stored_before[k] == status;
            assert(stored[k] == status);
        }
    }
}

/// A controller that stays listed but whose reads come back empty in two
/// polls in a row: after the first poll the store keeps its previous status
/// with only `last_read_failed` set, and after the second poll the store has
/// no status with its path. `previous[i]` is the status of the device at
/// `path` before the first poll, and each poll reads that device once.
pub proof fn law_two_failed_reads_in_a_row_drop_the_controller(
    previous: Seq<ControllerStatus>,
    i: int,
    path: Seq<char>,
    first_poll: Seq<DeviceReading>,
    j1: int,
    second_poll: Seq<DeviceReading>,
    j2: int,
)
    requires
        first_with_path(previous, path) == Some(i),
        !previous[i].last_read_failed,
        0 <= j1 < first_poll.len(),
        first_poll[j1].info.path@ == path,
        is_empty_report(first_poll[j1].report@),
        forall|other: int|
            0 <= other < first_poll.len() && other != j1 ==> #[trigger] first_poll[other].info.path@
                != path,
        0 <= j2 < second_poll.len(),
        second_poll[j2].info.path@ == path,
        is_empty_report(second_poll[j2].report@),
        forall|other: int|
            0 <= other < second_poll.len() && other != j2 ==> #[trigger] second_poll[other].info.path@
                != path,
    ensures
        exists|k: int|
            0 <= k < spec_poll_statuses(first_poll, previous).len() && #[trigger] spec_poll_statuses(
                first_poll,
                previous,
            )[k] == marked_failed(previous[i]),
        forall|k: int|
            0 <= k < spec_poll_statuses(first_poll, previous).len() && has_path(
                #[trigger] spec_poll_statuses(first_poll, previous)[k],
                path,
            ) ==> spec_poll_statuses(first_poll, previous)[k] == marked_failed(previous[i]),
        forall|k: int|
            0 <= k < spec_poll_statuses(second_poll, spec_poll_statuses(first_poll, previous)).len()
                ==> !has_path(
                #[trigger] spec_poll_statuses(second_poll, spec_poll_statuses(first_poll, previous))[k],
                path,
            ),
{
    let kept = marked_failed(previous[i]);
    assert(spec_status_from_reading(first_poll[j1], previous) == Some(kept));
    lemma_status_of_the_only_reading(first_poll, previous, path, j1);
    let after_first = spec_poll_statuses(first_poll, previous);
    lemma_first_with_path(previous, path);
    let k = choose|k: int| 0 <= k < after_first.len() && #[trigger] after_first[k] == kept;
    assert(has_path(after_first[k], path));
    lemma_first_with_path(after_first, path);
    let first = first_with_path(after_first, path)->0;
    assert(after_first[first] == kept);
    assert(spec_carry_over(after_first, path) is None);
    assert(spec_status_from_reading(second_poll[j2], after_first) is None);
    lemma_status_of_the_only_reading(second_poll, after_first, path, j2);
}

/// A failed read keeps the previous values: the carried-over status is the
/// first previous status with the device's path, with every field the same
/// except `last_read_failed`, which becomes true. Nothing is carried over
/// when no previous status has that path, or when the first one with it had
/// already failed.
pub proof fn law_carry_over_keeps_the_previous_values(
    previous: Seq<ControllerStatus>,
    path: Seq<char>,
)
    ensures
        spec_carry_over(previous, path) matches Some(kept) ==> exists|i: int|
            0 <= i < previous.len() && #[trigger] previous[i].path@ == path && (forall|j: int|
                0 <= j < i ==> previous[j].path@ != path) && !previous[i].last_read_failed
                && kept.last_read_failed && kept.name == previous[i].name && kept.path
                == previous[i].path && kept.battery_percent == previous[i].battery_percent
                && kept.is_charging == previous[i].is_charging && kept.is_fully_charged
                == previous[i].is_fully_charged && kept.is_bluetooth == previous[i].is_bluetooth
                && kept.unexpected_battery_data == previous[i].unexpected_battery_data,
        (forall|j: int| 0 <= j < previous.len() ==> #[trigger] previous[j].path@ != path)
            ==> spec_carry_over(previous, path) is None,
        forall|i: int|
            0 <= i < previous.len() && #[trigger] previous[i].path@ == path && (forall|j: int|
                0 <= j < i ==> previous[j].path@ != path) ==> (spec_carry_over(previous, path) is None
                <==> previous[i].last_read_failed),
{
    lemma_first_with_path(previous, path);
    if let Some(kept) = spec_carry_over(previous, path) {
        let i = first_with_path(previous, path)->0;
        assert(previous[i].path@ == path);
    }
    assert forall|i: int|
        0 <= i < previous.len() && #[trigger] previous[i].path@ == path && (forall|j: int|
            0 <= j < i ==> previous[j].path@ != path) implies (spec_carry_over(previous, path) is None
        <==> previous[i].last_read_failed) by {
        assert(has_path(previous[i], path));
        let k = first_with_path(previous, path)->0;
        if k < i {
            assert(previous[k].path@ != path);
        } else if k > i {
            assert(!has_path(previous[i], path));
        }
    }
    if forall|j: int| 0 <= j < previous.len() ==> #[trigger] previous[j].path@ != path {
        if first_with_path(previous, path) is Some {
            let k = first_with_path(previous, path)->0;
            assert(previous[k].path@ != path);
        }
    }
}

} // verus!
