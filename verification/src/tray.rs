use vstd::prelude::*;

use crate::controller_store::{controller_status_to_string, status_text, ControllerStatus};

verus! {

/// The window message the tray icon sends to the hidden window.
pub const WM_TRAYICON: u32 = 0x8000 + 1;

/// The id of the app's tray icon.
pub const TRAY_ICON_ID: u32 = 100;

/// The Windows messages the hidden window acts on, by value.
pub const WM_COMMAND: u32 = 273;

pub const WM_ENTERIDLE: u32 = 289;

pub const WM_LBUTTONUP: u32 = 514;

pub const WM_RBUTTONUP: u32 = 517;

/// The `WM_ENTERIDLE` source that means a menu is open.
pub const MSGF_MENU: u32 = 2;

/// Command ids of the menu entries.
pub const MENU_ID_AUTOSTART: u16 = 1001;

pub const MENU_ID_OPEN_LOG: u16 = 1002;

pub const MENU_ID_EXIT: u16 = 1003;

/// Scan progress for the currently open menu. `Completed` (rather than
/// clearing the line entirely) keeps a fixed-size placeholder in the menu
/// once a scan finishes, so the menu doesn't jump unless the controller list
/// itself changed.
#[derive(Clone, Copy, Debug, PartialEq, Eq, Structural)]
pub enum ScanStatus {
    NotStarted,
    Scanning,
    Completed,
}

impl ScanStatus {
    /// The status a menu opens with.
    pub open spec fn spec_initial(currently_polling: bool) -> ScanStatus {
        if currently_polling {
            ScanStatus::Scanning
        } else {
            ScanStatus::NotStarted
        }
    }

    /// The status after observing whether a poll is running.
    pub open spec fn spec_next(self, currently_polling: bool) -> ScanStatus {
        if currently_polling {
            ScanStatus::Scanning
        } else if self == ScanStatus::Scanning {
            ScanStatus::Completed
        } else {
            self
        }
    }

    /// The status a menu opens with: scanning when a poll is running.
    pub fn initial(currently_polling: bool) -> (status: ScanStatus)
        ensures
            status == Self::spec_initial(currently_polling),
    {
        if currently_polling {
            ScanStatus::Scanning
        } else {
            ScanStatus::NotStarted
        }
    }

    /// The status after observing whether a poll is running: a running poll
    /// means scanning, and a scan that stopped running has completed.
    pub fn next(self, currently_polling: bool) -> (status: ScanStatus)
        ensures
            status == self.spec_next(currently_polling),
    {
        if currently_polling {
            ScanStatus::Scanning
        } else {
            match self {
                ScanStatus::Scanning => ScanStatus::Completed,
                other => other,
            }
        }
    }
}

/// One entry of the tray menu.
pub enum MenuEntry {
    Separator,
    Item { text: String, id: u16, grayed: bool, checked: bool },
}

/// A menu entry as a value.
pub enum MenuEntryView {
    Separator,
    Item { text: Seq<char>, id: u16, grayed: bool, checked: bool },
}

impl View for MenuEntry {
    type V = MenuEntryView;

    open spec fn view(&self) -> MenuEntryView {
        match self {
            MenuEntry::Separator => MenuEntryView::Separator,
            MenuEntry::Item { text, id, grayed, checked } => MenuEntryView::Item {
                text: text@,
                id: *id,
                grayed: *grayed,
                checked: *checked,
            },
        }
    }
}

/// A line of information: grayed, not selectable.
pub open spec fn info_line(text: Seq<char>) -> MenuEntryView {
    MenuEntryView::Item { text, id: 0, grayed: true, checked: false }
}

/// The scan status line, if the status has one.
pub open spec fn scan_lines(scan_status: ScanStatus) -> Seq<MenuEntryView> {
    match scan_status {
        ScanStatus::NotStarted => Seq::empty(),
        ScanStatus::Scanning => seq![info_line("Scanning for controllers…"@)],
        ScanStatus::Completed => seq![info_line("Scan completed"@)],
    }
}

/// One line per controller, or a line saying there are none.
pub open spec fn controller_lines(controllers: Seq<ControllerStatus>) -> Seq<MenuEntryView> {
    if controllers.len() == 0 {
        seq![info_line("No controllers connected"@)]
    } else {
        controllers.map_values(|c: ControllerStatus| info_line(status_text(c)))
    }
}

/// The tray menu: the scan status, the controllers, then the startup toggle
/// (checked when enabled, grayed when its backend is unavailable), the log
/// entry (grayed without a log file) and the exit entry.
pub open spec fn spec_menu(
    scan_status: ScanStatus,
    controllers: Seq<ControllerStatus>,
    autostart_enabled: bool,
    autostart_available: bool,
    log_available: bool,
) -> Seq<MenuEntryView> {
    scan_lines(scan_status) + controller_lines(controllers) + seq![
        MenuEntryView::Separator,
        MenuEntryView::Item {
            text: "Run on startup"@,
            id: MENU_ID_AUTOSTART,
            grayed: !autostart_available,
            checked: autostart_enabled,
        },
        MenuEntryView::Separator,
        MenuEntryView::Item {
            text: "Open log"@,
            id: MENU_ID_OPEN_LOG,
            grayed: !log_available,
            checked: false,
        },
        MenuEntryView::Item { text: "Exit"@, id: MENU_ID_EXIT, grayed: false, checked: false },
    ]
}

fn item(text: &str, id: u16, grayed: bool, checked: bool) -> (entry: MenuEntry)
    ensures
        entry@ == (MenuEntryView::Item { text: text@, id, grayed, checked }),
{
    MenuEntry::Item { text: text.to_owned(), id, grayed, checked }
}

/// The entries of the tray menu, from top to bottom.
pub fn populate_menu(
    scan_status: ScanStatus,
    controllers: &[ControllerStatus],
    autostart_enabled: bool,
    autostart_available: bool,
    log_available: bool,
) -> (entries: Vec<MenuEntry>)
    ensures
        entries@.map_values(|e: MenuEntry| e@) == spec_menu(
            scan_status,
            controllers@,
            autostart_enabled,
            autostart_available,
            log_available,
        ),
{
    let mut entries: Vec<MenuEntry> = Vec::new();
    match scan_status {
        ScanStatus::NotStarted => {},
        ScanStatus::Scanning => entries.push(item("Scanning for controllers…", 0, true, false)),
        ScanStatus::Completed => entries.push(item("Scan completed", 0, true, false)),
    }
    let ghost prefix = scan_lines(scan_status);
    assert(entries@.map_values(|e: MenuEntry| e@) =~= prefix);

    let n = controllers.len();
    let mut i: usize = 0;
    while i < n
        invariant
            n == controllers@.len(),
            i <= n,
            prefix == scan_lines(scan_status),
            entries@.map_values(|e: MenuEntry| e@) =~= prefix + controllers@.take(
                i as int,
            ).map_values(|c: ControllerStatus| info_line(status_text(c))),
        decreases n - i,
    {
        let text = controller_status_to_string(&controllers[i]);
        let ghost before = entries@;
        let entry = MenuEntry::Item { text, id: 0, grayed: true, checked: false };
        assert(entry@ == info_line(status_text(controllers@[i as int])));
        entries.push(entry);
        assert(entries@.map_values(|e: MenuEntry| e@) =~= before.map_values(|e: MenuEntry| e@).push(
            info_line(status_text(controllers@[i as int])),
        ));
        assert(controllers@.take(i + 1) =~= controllers@.take(i as int).push(controllers@[i as int]));
        assert(controllers@.take(i + 1).map_values(|c: ControllerStatus| info_line(status_text(c)))
            =~= controllers@.take(i as int).map_values(
            |c: ControllerStatus| info_line(status_text(c)),
        ).push(info_line(status_text(controllers@[i as int]))));
        i = i + 1;
    }
    assert(controllers@.take(n as int) =~= controllers@);
    if n == 0 {
        entries.push(item("No controllers connected", 0, true, false));
    }
    let ghost body = entries@.map_values(|e: MenuEntry| e@);
    assert(body =~= scan_lines(scan_status) + controller_lines(controllers@));

    entries.push(MenuEntry::Separator);
    // A grayed item cannot be selected, so a toggle whose backend is gone
    // never sends a command into the void.
    entries.push(item("Run on startup", MENU_ID_AUTOSTART, !autostart_available, autostart_enabled));
    entries.push(MenuEntry::Separator);
    entries.push(item("Open log", MENU_ID_OPEN_LOG, !log_available, false));
    entries.push(item("Exit", MENU_ID_EXIT, false, false));
    assert(entries@.map_values(|e: MenuEntry| e@) =~= spec_menu(
        scan_status,
        controllers@,
        autostart_enabled,
        autostart_available,
        log_available,
    ));
    entries
}

/// What the open menu was last built from. The menu is rebuilt when any of
/// it has moved on: a poll completed, the scan status changed, or the startup
/// setting (which packaged builds resolve on a worker thread) changed.
pub struct MenuSnapshot {
    pub last_generation: u64,
    pub scan_status: ScanStatus,
    pub last_autostart_enabled: bool,
    pub last_autostart_available: bool,
}

impl MenuSnapshot {
    /// Whether the menu built from `self` is out of date, given the store
    /// generation, whether a poll runs, and the startup setting now.
    pub open spec fn spec_is_stale(
        self,
        generation: u64,
        currently_polling: bool,
        autostart_enabled: bool,
        autostart_available: bool,
    ) -> bool {
        ||| generation != self.last_generation
        ||| self.scan_status.spec_next(currently_polling) != self.scan_status
        ||| autostart_enabled != self.last_autostart_enabled
        ||| autostart_available != self.last_autostart_available
    }

    /// Decides whether the open menu must be rebuilt, and if so records what
    /// the rebuilt menu shows. Returns the scan status to rebuild it with.
    pub fn refresh(
        &mut self,
        generation: u64,
        currently_polling: bool,
        autostart_enabled: bool,
        autostart_available: bool,
    ) -> (rebuild: Option<ScanStatus>)
        ensures
            old(self).spec_is_stale(
                generation,
                currently_polling,
                autostart_enabled,
                autostart_available,
            ) ==> {
                &&& rebuild == Some(old(self).scan_status.spec_next(currently_polling))
                &&& final(self).last_generation == generation
                &&& final(self).scan_status == old(self).scan_status.spec_next(currently_polling)
                &&& final(self).last_autostart_enabled == autostart_enabled
                &&& final(self).last_autostart_available == autostart_available
            },
            !old(self).spec_is_stale(
                generation,
                currently_polling,
                autostart_enabled,
                autostart_available,
            ) ==> rebuild is None && *final(self) == *old(self),
    {
        let new_status = self.scan_status.next(currently_polling);
        if generation != self.last_generation || new_status != self.scan_status || autostart_enabled
            != self.last_autostart_enabled || autostart_available != self.last_autostart_available {
            self.last_generation = generation;
            self.scan_status = new_status;
            self.last_autostart_enabled = autostart_enabled;
            self.last_autostart_available = autostart_available;
            Some(new_status)
        } else {
            None
        }
    }
}

/// The open menu is rebuilt when a poll has completed since it was built,
/// when the startup toggle's state or availability changed, when a poll
/// started, or when a running scan ended; with none of these it stays as it
/// is.
pub proof fn law_menu_is_rebuilt_on_change(
    snapshot: MenuSnapshot,
    generation: u64,
    currently_polling: bool,
    autostart_enabled: bool,
    autostart_available: bool,
)
    ensures
        ({
            let stale = snapshot.spec_is_stale(
                generation,
                currently_polling,
                autostart_enabled,
                autostart_available,
            );
            &&& generation != snapshot.last_generation ==> stale
            &&& autostart_enabled != snapshot.last_autostart_enabled ==> stale
            &&& autostart_available != snapshot.last_autostart_available ==> stale
            &&& currently_polling && snapshot.scan_status != ScanStatus::Scanning ==> stale
            &&& !currently_polling && snapshot.scan_status == ScanStatus::Scanning ==> stale
            &&& generation == snapshot.last_generation && autostart_enabled
                == snapshot.last_autostart_enabled && autostart_available
                == snapshot.last_autostart_available && (currently_polling <==> snapshot.scan_status
                == ScanStatus::Scanning) ==> !stale
        }),
{
}

/// The commands of the tray menu.
#[derive(Clone, Copy, Debug, PartialEq, Eq, Structural)]
pub enum MenuCommand {
    ToggleAutostart,
    OpenLog,
    Exit,
}

/// What the hidden window does with a message.
#[derive(Clone, Copy, Debug, PartialEq, Eq, Structural)]
pub enum TrayEvent {
    /// The tray icon was clicked: request a poll and open the menu.
    OpenMenu,
    /// The taskbar was recreated: add the tray icon again.
    ReAddTrayIcon,
    /// The open menu is idle: learn its window and refresh it if stale.
    MenuIdle,
    /// A menu entry was chosen.
    Command(MenuCommand),
    /// Anything else: leave it to the default window procedure.
    Other,
}

/// The command of a menu entry id.
pub open spec fn spec_menu_command(id: u16) -> Option<MenuCommand> {
    if id == MENU_ID_AUTOSTART {
        Some(MenuCommand::ToggleAutostart)
    } else if id == MENU_ID_OPEN_LOG {
        Some(MenuCommand::OpenLog)
    } else if id == MENU_ID_EXIT {
        Some(MenuCommand::Exit)
    } else {
        None
    }
}

/// How the hidden window reads a message. `taskbar_created` is the
/// registered `TaskbarCreated` message, 0 when its registration failed (0 is
/// also `WM_NULL`, so it never matches then).
pub open spec fn spec_tray_event(msg: u32, wparam: usize, lparam: isize, taskbar_created: u32) -> TrayEvent {
    if msg == WM_TRAYICON {
        if lparam as u32 == WM_RBUTTONUP || lparam as u32 == WM_LBUTTONUP {
            TrayEvent::OpenMenu
        } else {
            TrayEvent::Other
        }
    } else if msg == taskbar_created && msg != 0 {
        TrayEvent::ReAddTrayIcon
    } else if msg == WM_ENTERIDLE {
        if wparam as u32 == MSGF_MENU {
            TrayEvent::MenuIdle
        } else {
            TrayEvent::Other
        }
    } else if msg == WM_COMMAND {
        match spec_menu_command(wparam as u16) {
            Some(command) => TrayEvent::Command(command),
            None => TrayEvent::Other,
        }
    } else {
        TrayEvent::Other
    }
}

/// Decides what the hidden window's procedure does with a message; every
/// message is passed on to the default procedure afterwards.
pub fn tray_event(msg: u32, wparam: usize, lparam: isize, taskbar_created: u32) -> (event: TrayEvent)
    ensures
        event == spec_tray_event(msg, wparam, lparam, taskbar_created),
{
    if msg == WM_TRAYICON {
        let mouse = lparam as u32;
        if mouse == WM_RBUTTONUP || mouse == WM_LBUTTONUP {
            TrayEvent::OpenMenu
        } else {
            TrayEvent::Other
        }
    } else if msg == taskbar_created && msg != 0 {
        TrayEvent::ReAddTrayIcon
    } else if msg == WM_ENTERIDLE {
        if wparam as u32 == MSGF_MENU {
            TrayEvent::MenuIdle
        } else {
            TrayEvent::Other
        }
    } else if msg == WM_COMMAND {
        let id = wparam as u16;
        if id == MENU_ID_AUTOSTART {
            TrayEvent::Command(MenuCommand::ToggleAutostart)
        } else if id == MENU_ID_OPEN_LOG {
            TrayEvent::Command(MenuCommand::OpenLog)
        } else if id == MENU_ID_EXIT {
            TrayEvent::Command(MenuCommand::Exit)
        } else {
            TrayEvent::Other
        }
    } else {
        TrayEvent::Other
    }
}

/// The layout of the tray menu: a scan line unless no scan has started
/// ("Scanning for controllers…" or "Scan completed"), then one grayed line
/// per controller with its status line ("No controllers connected" when there
/// is none), a separator, "Run on startup" (checked when enabled, grayed when
/// its backend is unavailable), a separator, "Open log" (grayed exactly when
/// no log file is available) and "Exit", which is always enabled. The only
/// entry with the "Open log" command id is that one.
pub proof fn law_menu_layout(
    scan_status: ScanStatus,
    controllers: Seq<ControllerStatus>,
    autostart_enabled: bool,
    autostart_available: bool,
    log_available: bool,
)
    ensures
        ({
            let menu = spec_menu(
                scan_status,
                controllers,
                autostart_enabled,
                autostart_available,
                log_available,
            );
            let first: int = if scan_status == ScanStatus::NotStarted {
                0
            } else {
                1
            };
            let lines: int = if controllers.len() == 0 {
                1
            } else {
                controllers.len() as int
            };
            &&& menu.len() == first + lines + 5
            &&& scan_status == ScanStatus::Scanning ==> menu[0] == (MenuEntryView::Item {
                text: "Scanning for controllers…"@,
                id: 0,
                grayed: true,
                checked: false,
            })
            &&& scan_status == ScanStatus::Completed ==> menu[0] == (MenuEntryView::Item {
                text: "Scan completed"@,
                id: 0,
                grayed: true,
                checked: false,
            })
            &&& controllers.len() == 0 ==> menu[first] == (MenuEntryView::Item {
                text: "No controllers connected"@,
                id: 0,
                grayed: true,
                checked: false,
            })
            &&& forall|k: int|
                0 <= k < controllers.len() ==> #[trigger] menu[first + k] == (MenuEntryView::Item {
                    text: status_text(controllers[k]),
                    id: 0,
                    grayed: true,
                    checked: false,
                })
            &&& menu[menu.len() - 5] == MenuEntryView::Separator
            &&& menu[menu.len() - 4] == (MenuEntryView::Item {
                text: "Run on startup"@,
                id: 1001,
                grayed: !autostart_available,
                checked: autostart_enabled,
            })
            &&& menu[menu.len() - 3] == MenuEntryView::Separator
            &&& menu[menu.len() - 2] == (MenuEntryView::Item {
                text: "Open log"@,
                id: 1002,
                grayed: !log_available,
                checked: false,
            })
            &&& menu[menu.len() - 1] == (MenuEntryView::Item {
                text: "Exit"@,
                id: 1003,
                grayed: false,
                checked: false,
            })
            &&& forall|k: int|
                0 <= k < menu.len() && (#[trigger] menu[k] matches MenuEntryView::Item { id, .. }
                    && id == 1002) ==> k == menu.len() - 2
        }),
{
    let menu = spec_menu(
        scan_status,
        controllers,
        autostart_enabled,
        autostart_available,
        log_available,
    );
    let head = scan_lines(scan_status);
    let body = controller_lines(controllers);
    let tail = seq![
        MenuEntryView::Separator,
        MenuEntryView::Item {
            text: "Run on startup"@,
            id: 1001,
            grayed: !autostart_available,
            checked: autostart_enabled,
        },
        MenuEntryView::Separator,
        MenuEntryView::Item { text: "Open log"@, id: 1002, grayed: !log_available, checked: false },
        MenuEntryView::Item { text: "Exit"@, id: 1003, grayed: false, checked: false },
    ];
    assert(menu == head + body + tail);
    let first = head.len() as int;
    assert forall|k: int| 0 <= k < controllers.len() implies #[trigger] menu[first + k] == (
    MenuEntryView::Item { text: status_text(controllers[k]), id: 0, grayed: true, checked: false })
        by {
        assert(body[k] == info_line(status_text(controllers[k])));
    }
    assert forall|k: int|
        0 <= k < menu.len() && (#[trigger] menu[k] matches MenuEntryView::Item { id, .. } && id
            == 1002) implies k == menu.len() - 2 by {
        if k < first {
            assert(menu[k] == head[k]);
        } else if k < first + body.len() {
            assert(menu[k] == body[k - first]);
            if controllers.len() > 0 {
                assert(body[k - first] == info_line(status_text(controllers[k - first])));
            }
        } else {
            assert(menu[k] == tail[k - first - body.len()]);
        }
    }
}

/// How the hidden window reads its messages: a left or right button release
/// on the tray icon opens the menu; the registered "TaskbarCreated" message
/// re-adds the icon; an idle notice from an open menu refreshes it; the
/// command ids 1001, 1002 and 1003 toggle "Run on startup", open the log and
/// exit; everything else goes to the default procedure.
pub proof fn law_tray_messages(wparam: usize, lparam: isize, taskbar_created: u32, msg: u32)
    ensures
        spec_tray_event(0x8001, wparam, lparam, taskbar_created) == (if lparam as u32 == 517
            || lparam as u32 == 514 {
            TrayEvent::OpenMenu
        } else {
            TrayEvent::Other
        }),
        taskbar_created != 0 && taskbar_created != 0x8001 ==> spec_tray_event(
            taskbar_created,
            wparam,
            lparam,
            taskbar_created,
        ) == TrayEvent::ReAddTrayIcon,
        taskbar_created != 289 ==> spec_tray_event(289, wparam, lparam, taskbar_created) == (if wparam
            as u32 == 2 {
            TrayEvent::MenuIdle
        } else {
            TrayEvent::Other
        }),
        taskbar_created != 273 ==> spec_tray_event(273, wparam, lparam, taskbar_created) == (if wparam
            as u16 == 1001 {
            TrayEvent::Command(MenuCommand::ToggleAutostart)
        } else if wparam as u16 == 1002 {
            TrayEvent::Command(MenuCommand::OpenLog)
        } else if wparam as u16 == 1003 {
            TrayEvent::Command(MenuCommand::Exit)
        } else {
            TrayEvent::Other
        }),
        msg != 0x8001 && msg != 289 && msg != 273 && (msg != taskbar_created || msg == 0)
            ==> spec_tray_event(msg, wparam, lparam, taskbar_created) == TrayEvent::Other,
{
}

/// A menu shows "Scan completed" only after it showed "Scanning", and shows
/// "Scanning" exactly while a poll runs: a scan that stops running has
/// completed, and with no poll running any other status stays.
pub proof fn law_scan_completes_only_after_scanning(status: ScanStatus, currently_polling: bool)
    ensures
        status.spec_next(currently_polling) == ScanStatus::Completed ==> status
            == ScanStatus::Scanning || status == ScanStatus::Completed,
        (status.spec_next(currently_polling) == ScanStatus::Scanning) == currently_polling,
        (ScanStatus::spec_initial(currently_polling) == ScanStatus::Scanning) == currently_polling,
        !currently_polling ==> ScanStatus::spec_initial(currently_polling) == ScanStatus::NotStarted,
        !currently_polling && status == ScanStatus::Scanning ==> status.spec_next(currently_polling)
            == ScanStatus::Completed,
        !currently_polling && status != ScanStatus::Scanning ==> status.spec_next(currently_polling)
            == status,
{
}

} // verus!
