use vstd::prelude::*;

use crate::text::{to_wide, utf16, utf16_of_char};

verus! {

/// The value `GetCurrentPackageFullName` returns for a process without
/// package identity.
pub const APPMODEL_ERROR_NO_PACKAGE: u32 = 15700;

/// Whether the process runs as a packaged (Store) app, from the status code
/// of the package name query. MSIX builds must register startup through a
/// `StartupTask` so the toggle appears in Windows Settings, while the plain
/// .exe has no package identity and uses the Run registry key.
pub fn is_packaged(package_query_status: u32) -> (packaged: bool)
    ensures
        packaged == (package_query_status != APPMODEL_ERROR_NO_PACKAGE),
{
    package_query_status != APPMODEL_ERROR_NO_PACKAGE
}

/// The name of the app's entry under the Run registry key.
pub const APP_NAME: &'static str = "PS Battery";

/// The Run registry key, under `HKEY_CURRENT_USER`.
pub const RUN_SUBKEY: &'static str = "Software\\Microsoft\\Windows\\CurrentVersion\\Run";

/// The little-endian bytes of UTF-16 code units.
pub open spec fn le_bytes(units: Seq<u16>) -> Seq<u8>
    decreases units.len(),
{
    if units.len() == 0 {
        Seq::empty()
    } else {
        le_bytes(units.drop_last()) + seq![
            (units.last() as int % 256) as u8,
            (units.last() as int / 256) as u8,
        ]
    }
}

/// The Run entry's text for the program at `executable_path`: the path in
/// quotes, so a path with spaces cannot be misread as a shorter program name
/// with arguments.
pub open spec fn run_entry_text(executable_path: Seq<char>) -> Seq<char> {
    "\""@ + executable_path + "\""@
}

/// The bytes of the `REG_SZ` value that starts the program at
/// `executable_path` on login: its quoted path as NUL terminated UTF-16,
/// little-endian.
pub fn registry_run_value(executable_path: &str) -> (bytes: Vec<u8>)
    ensures
        bytes@ == le_bytes(utf16(run_entry_text(executable_path@)).push(0u16)),
{
    let mut quoted = String::new();
    quoted.append("\"");
    quoted.append(executable_path);
    quoted.append("\"");
    let wide = to_wide(quoted.as_str());
    let mut bytes: Vec<u8> = Vec::new();
    let n = wide.len();
    let mut i: usize = 0;
    while i < n
        invariant
            n == wide@.len(),
            i <= n,
            bytes@ == le_bytes(wide@.take(i as int)),
        decreases n - i,
    {
        let unit = wide[i];
        bytes.push((unit % 256) as u8);
        bytes.push((unit / 256) as u8);
        assert(wide@.take(i + 1).drop_last() == wide@.take(i as int));
        i = i + 1;
    }
    assert(wide@.take(n as int) == wide@);
    bytes
}

/// UTF-16 encodes a concatenation piece by piece.
proof fn lemma_utf16_of_concat(a: Seq<char>, b: Seq<char>)
    ensures
        utf16(a + b) == utf16(a) + utf16(b),
    decreases b.len(),
{
    if b.len() == 0 {
        assert(a + b =~= a);
        assert(utf16(a) + utf16(b) =~= utf16(a));
    } else {
        lemma_utf16_of_concat(a, b.drop_last());
        assert((a + b).drop_last() =~= a + b.drop_last());
        assert((a + b).last() == b.last());
        assert(utf16(a) + utf16(b) =~= utf16(a) + utf16(b.drop_last()) + utf16_of_char(b.last()));
    }
}

/// Each code unit becomes two bytes, low byte first.
proof fn lemma_le_bytes_layout(units: Seq<u16>)
    ensures
        le_bytes(units).len() == 2 * units.len(),
        forall|k: int|
            0 <= k < units.len() ==> le_bytes(units)[2 * k] == #[trigger] units[k] as int % 256
                && le_bytes(units)[2 * k + 1] == units[k] as int / 256,
    decreases units.len(),
{
    if units.len() > 0 {
        let rest = units.drop_last();
        lemma_le_bytes_layout(rest);
        assert forall|k: int| 0 <= k < units.len() implies le_bytes(units)[2 * k] == #[trigger] units[k]
            as int % 256 && le_bytes(units)[2 * k + 1] == units[k] as int / 256 by {
            if k < rest.len() {
                assert(units[k] == rest[k]);
            }
        }
    }
}

/// The Run value is the path between two double quotes (0x22), as UTF-16
/// code units of two bytes each, low byte first, closed by a two-byte NUL.
pub proof fn law_run_value_layout(executable_path: Seq<char>)
    ensures
        ({
            let bytes = le_bytes(utf16(run_entry_text(executable_path)).push(0u16));
            let path = utf16(executable_path);
            let n = path.len() as int;
            &&& bytes.len() == 2 * n + 6
            &&& bytes[0] == 0x22 && bytes[1] == 0
            &&& forall|k: int|
                0 <= k < path.len() ==> bytes[2 + 2 * k] == #[trigger] path[k] as int % 256 && bytes[3
                    + 2 * k] == path[k] as int / 256
            &&& bytes[2 * n + 2] == 0x22 && bytes[2 * n + 3] == 0
            &&& bytes[2 * n + 4] == 0 && bytes[2 * n + 5] == 0
        }),
{
    reveal_strlit("\"");
    let quote = "\""@;
    assert(quote.len() == 1 && quote[0] == '"');
    assert(quote.drop_last() =~= Seq::<char>::empty());
    assert(utf16(quote.drop_last()) =~= Seq::<u16>::empty());
    assert(('"' as int) == 0x22);
    assert(utf16_of_char(quote.last()) =~= seq![0x22u16]);
    assert(utf16(quote) == utf16(quote.drop_last()) + utf16_of_char(quote.last()));
    assert(utf16(quote) =~= seq![0x22u16]);
    let path = utf16(executable_path);
    lemma_utf16_of_concat(quote, executable_path);
    lemma_utf16_of_concat(quote + executable_path, quote);
    let units = utf16(run_entry_text(executable_path)).push(0u16);
    assert(units =~= seq![0x22u16] + path + seq![0x22u16, 0u16]);
    lemma_le_bytes_layout(units);
    assert(units[0] == 0x22u16);
    assert forall|k: int| 0 <= k < path.len() implies le_bytes(units)[2 + 2 * k] == #[trigger] path[k]
        as int % 256 && le_bytes(units)[3 + 2 * k] == path[k] as int / 256 by {
        assert(units[k + 1] == path[k]);
        assert(2 * (k + 1) == 2 + 2 * k);
    }
    let n = path.len() as int;
    assert(units[n + 1] == 0x22u16);
    assert(units[n + 2] == 0u16);
    assert(2 * (n + 1) == 2 * n + 2);
    assert(2 * (n + 2) == 2 * n + 4);
}

/// The states of a `StartupTask`, by value.
pub const STARTUP_TASK_DISABLED: i32 = 0;

pub const STARTUP_TASK_DISABLED_BY_USER: i32 = 1;

pub const STARTUP_TASK_ENABLED: i32 = 2;

pub const STARTUP_TASK_DISABLED_BY_POLICY: i32 = 3;

pub const STARTUP_TASK_ENABLED_BY_POLICY: i32 = 4;

/// The startup task states in which the app starts on login.
pub open spec fn spec_is_enabled_state(state: i32) -> bool {
    state == STARTUP_TASK_ENABLED || state == STARTUP_TASK_ENABLED_BY_POLICY
}

/// What the UI asks of the startup task worker.
#[derive(Clone, Copy, Debug, PartialEq, Eq, Structural)]
pub enum AutostartRequest {
    Enable,
    Disable,
    /// Re-read the state, so a change made outside the app (Task Manager,
    /// Windows Settings) shows up in the tray menu.
    Refresh,
}

/// What `StartupTaskControl` holds: the request not yet taken, the startup
/// state the worker last read, and whether the worker found the task.
#[derive(Clone, Copy, Debug, PartialEq, Eq, Structural)]
pub struct StartupTaskState {
    pub pending: Option<AutostartRequest>,
    pub enabled: bool,
    pub available: bool,
}

/// The operations on a `StartupTaskControl`.
#[derive(Clone, Copy, Debug, PartialEq, Eq, Structural)]
pub enum StartupTaskOp {
    /// `send`, `enable`, `disable` or `request_refresh`.
    Send(AutostartRequest),
    /// `take_request`.
    Take,
    /// `mark_available`.
    MarkAvailable,
    /// `refresh_cached_state` with a task state value.
    RefreshState(i32),
}

/// The state after one operation.
pub open spec fn startup_step(state: StartupTaskState, op: StartupTaskOp) -> StartupTaskState {
    match op {
        StartupTaskOp::Send(request) => StartupTaskState { pending: Some(request), ..state },
        StartupTaskOp::Take => StartupTaskState { pending: None, ..state },
        StartupTaskOp::MarkAvailable => StartupTaskState { available: true, ..state },
        StartupTaskOp::RefreshState(value) => StartupTaskState {
            enabled: spec_is_enabled_state(value),
            ..state
        },
    }
}

/// The state after a sequence of operations.
pub open spec fn startup_run(state: StartupTaskState, ops: Seq<StartupTaskOp>) -> StartupTaskState
    decreases ops.len(),
{
    if ops.len() == 0 {
        state
    } else {
        startup_step(startup_run(state, ops.drop_last()), ops.last())
    }
}

/// The state a new `StartupTaskControl` starts in.
pub open spec fn startup_initial() -> StartupTaskState {
    StartupTaskState { pending: None, enabled: false, available: false }
}

/// What the UI thread and the startup task worker share: the request not
/// yet taken, the startup state the worker last read, and whether the worker
/// found the task at all. Only the worker touches the task itself.
pub struct StartupTaskControl {
    pending: Option<AutostartRequest>,
    enabled: bool,
    available: bool,
}

impl View for StartupTaskControl {
    type V = StartupTaskState;

    closed spec fn view(&self) -> StartupTaskState {
        StartupTaskState { pending: self.pending, enabled: self.enabled, available: self.available }
    }
}

impl StartupTaskControl {
    /// Nothing requested, read as disabled, and unavailable until the worker
    /// has resolved the task.
    pub fn new() -> (control: Self)
        ensures
            control@ == startup_initial(),
    {
        StartupTaskControl { pending: None, enabled: false, available: false }
    }

    /// Leaves `request` for the worker. A request not yet taken is replaced:
    /// only the latest one counts.
    pub fn send(&mut self, request: AutostartRequest)
        ensures
            final(self)@ == startup_step(old(self)@, StartupTaskOp::Send(request)),
    {
        self.pending = Some(request);
    }

    /// Asks the worker to enable startup on login.
    pub fn enable(&mut self)
        ensures
            final(self)@ == startup_step(old(self)@, StartupTaskOp::Send(AutostartRequest::Enable)),
    {
        self.send(AutostartRequest::Enable);
    }

    /// Asks the worker to disable startup on login.
    pub fn disable(&mut self)
        ensures
            final(self)@ == startup_step(old(self)@, StartupTaskOp::Send(AutostartRequest::Disable)),
    {
        self.send(AutostartRequest::Disable);
    }

    /// Asks the worker to re-read the state.
    pub fn request_refresh(&mut self)
        ensures
            final(self)@ == startup_step(old(self)@, StartupTaskOp::Send(AutostartRequest::Refresh)),
    {
        self.send(AutostartRequest::Refresh);
    }

    /// The worker's side: takes the pending request, if any.
    pub fn take_request(&mut self) -> (request: Option<AutostartRequest>)
        ensures
            request == old(self)@.pending,
            final(self)@ == startup_step(old(self)@, StartupTaskOp::Take),
    {
        let request = self.pending;
        self.pending = None;
        request
    }

    /// The worker resolved the startup task; the toggle can be used.
    pub fn mark_available(&mut self)
        ensures
            final(self)@ == startup_step(old(self)@, StartupTaskOp::MarkAvailable),
    {
        self.available = true;
    }

    /// Records the state the worker just read from the task.
    pub fn refresh_cached_state(&mut self, state: i32)
        ensures
            final(self)@ == startup_step(old(self)@, StartupTaskOp::RefreshState(state)),
    {
        self.enabled = state == STARTUP_TASK_ENABLED || state == STARTUP_TASK_ENABLED_BY_POLICY;
    }

    /// Whether the app starts on login, as last read.
    pub fn is_enabled(&self) -> (enabled: bool)
        ensures
            enabled == self@.enabled,
    {
        self.enabled
    }

    /// Whether the worker found the startup task, so the menu can gray out a
    /// toggle that would go nowhere.
    pub fn is_available(&self) -> (available: bool)
        ensures
            available == self@.available,
    {
        self.available
    }
}

/// Whether `ops` marks the task available somewhere.
pub open spec fn marks_available(ops: Seq<StartupTaskOp>) -> bool {
    exists|i: int| 0 <= i < ops.len() && #[trigger] ops[i] == StartupTaskOp::MarkAvailable
}

/// The toggle is unavailable until the worker has resolved the task, and
/// once available it never becomes unavailable again: starting from a new
/// control, it is available after a sequence of operations exactly when the
/// sequence marked it available.
pub proof fn law_availability_is_never_lost(ops: Seq<StartupTaskOp>)
    ensures
        startup_run(startup_initial(), ops).available <==> marks_available(ops),
    decreases ops.len(),
{
    if ops.len() > 0 {
        let shorter = ops.drop_last();
        law_availability_is_never_lost(shorter);
        if marks_available(shorter) {
            let i = choose|i: int| 0 <= i < shorter.len() && #[trigger] shorter[i] == StartupTaskOp::MarkAvailable;
            assert(ops[i] == StartupTaskOp::MarkAvailable);
        }
        if ops.last() == StartupTaskOp::MarkAvailable {
            assert(ops[ops.len() - 1] == StartupTaskOp::MarkAvailable);
        }
        if marks_available(ops) && !marks_available(shorter) {
            let i = choose|i: int| 0 <= i < ops.len() && #[trigger] ops[i] == StartupTaskOp::MarkAvailable;
            if i < ops.len() - 1 {
                assert(shorter[i] == ops[i]);
            }
        }
    }
}

/// The worker takes the request sent last: sends that were not taken in
/// between are replaced, not queued.
pub proof fn law_latest_request_wins(
    state: StartupTaskState,
    first: AutostartRequest,
    second: AutostartRequest,
)
    ensures
        startup_step(startup_step(state, StartupTaskOp::Send(first)), StartupTaskOp::Send(second)).pending
            == Some(second),
{
}

/// Refreshing from the task reads it as enabled exactly in the states
/// "enabled" (2) and "enabled by policy" (4), and touches nothing else; taking
/// the request clears it and touches nothing else.
pub proof fn law_refresh_and_take(state: StartupTaskState, value: i32)
    ensures
        startup_step(state, StartupTaskOp::RefreshState(value)) == (StartupTaskState {
            pending: state.pending,
            enabled: value == 2 || value == 4,
            available: state.available,
        }),
        startup_step(state, StartupTaskOp::Take) == (StartupTaskState {
            pending: None,
            enabled: state.enabled,
            available: state.available,
        }),
{
}

} // verus!
