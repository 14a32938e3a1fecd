use vstd::prelude::*;

use crate::controller_store::{controller_status_to_string, status_text, ControllerStatus};
use crate::logger::elapsed_since;
use crate::text::{all_digits, decimal, digits_value, law_decimal_reads_back, push_decimal};

verus! {

/// Controllers at or below this level are low on battery.
pub const LOW_BATTERY_PERCENT: u8 = 20;

/// At or below this level the alert is a warning.
pub const URGENT_BATTERY_PERCENT: u8 = 10;

/// At this level the alert is an error.
pub const EMPTY_BATTERY_PERCENT: u8 = 0;

/// The system sounds an alert can play.
#[derive(Clone, Copy, Debug, PartialEq, Eq, Structural)]
pub enum AlertSound {
    Notify,
    Exclamation,
    Critical,
}

/// The icons a notification balloon can show.
#[derive(Clone, Copy, Debug, PartialEq, Eq, Structural)]
pub enum BalloonIcon {
    Info,
    Warning,
    Error,
}

impl AlertSound {
    /// The Windows sound alias of the sound.
    pub open spec fn spec_alias(self) -> Seq<char> {
        match self {
            AlertSound::Notify => "SystemNotification"@,
            AlertSound::Exclamation => "SystemExclamation"@,
            AlertSound::Critical => "SystemHand"@,
        }
    }

    /// The Windows sound alias to play: Notification, Exclamation or Critical
    /// Stop.
    pub fn alias(self) -> (alias: &'static str)
        ensures
            alias@ == self.spec_alias(),
    {
        match self {
            AlertSound::Notify => "SystemNotification",
            AlertSound::Exclamation => "SystemExclamation",
            AlertSound::Critical => "SystemHand",
        }
    }
}

/// A controller worth alerting about: on Bluetooth (a wired controller is
/// charging anyway), low, neither charging nor full, and with a reading the
/// parser could make sense of.
pub open spec fn spec_is_low_on_battery(status: ControllerStatus) -> bool {
    &&& status.battery_percent <= LOW_BATTERY_PERCENT
    &&& status.is_bluetooth
    &&& !status.is_fully_charged
    &&& !status.is_charging
    &&& !status.unexpected_battery_data
}

/// Whether `status` calls for a low battery alert.
pub fn is_low_on_battery(status: &ControllerStatus) -> (low: bool)
    ensures
        low == spec_is_low_on_battery(*status),
{
    status.battery_percent <= LOW_BATTERY_PERCENT && status.is_bluetooth && !status.is_fully_charged
        && !status.is_charging
        // A reading the parser could not make sense of says nothing about the
        // battery, and the level that came with it is as likely to be noise.
        && !status.unexpected_battery_data
}

/// `i` is the controller an alert is about: the first of the low controllers
/// with the lowest battery.
pub open spec fn is_alert_target(controllers: Seq<ControllerStatus>, i: int) -> bool {
    &&& 0 <= i < controllers.len()
    &&& spec_is_low_on_battery(controllers[i])
    &&& forall|j: int|
        0 <= j < controllers.len() && spec_is_low_on_battery(#[trigger] controllers[j])
            ==> controllers[i].battery_percent <= controllers[j].battery_percent
    &&& forall|j: int|
        0 <= j < i && spec_is_low_on_battery(#[trigger] controllers[j])
            ==> controllers[i].battery_percent < controllers[j].battery_percent
}

/// Whether any controller is low.
pub open spec fn any_low(controllers: Seq<ControllerStatus>) -> bool {
    exists|j: int| 0 <= j < controllers.len() && spec_is_low_on_battery(#[trigger] controllers[j])
}

/// The sound and icon of an alert at `percent`.
pub open spec fn alert_level(percent: u8) -> (AlertSound, BalloonIcon) {
    if percent == EMPTY_BATTERY_PERCENT {
        (AlertSound::Critical, BalloonIcon::Error)
    } else if percent <= URGENT_BATTERY_PERCENT {
        (AlertSound::Exclamation, BalloonIcon::Warning)
    } else {
        (AlertSound::Notify, BalloonIcon::Info)
    }
}

/// The balloon title of an alert at `percent`.
pub open spec fn alert_title(percent: u8) -> Seq<char> {
    "PS controller "@ + decimal(percent as nat) + "% battery"@
}

/// What to show and play for a low controller.
pub struct ControllerAlert {
    pub sound: AlertSound,
    pub icon: BalloonIcon,
    pub title: String,
    pub message: String,
}

/// The alert about `status`.
pub open spec fn alert_for(alert: ControllerAlert, status: ControllerStatus) -> bool {
    &&& (alert.sound, alert.icon) == alert_level(status.battery_percent)
    &&& alert.title@ == alert_title(status.battery_percent)
    &&& alert.message@ == status_text(status)
}

/// Chooses the one alert to show. Every balloon replaces the previous one on
/// the same tray icon, so alerting per controller would leave only the last
/// one readable: the alert is about the low controller with the lowest
/// battery, the first of them on a tie. `None` when no controller is low.
pub fn choose_controller_alert(controllers: &[ControllerStatus]) -> (alert: Option<ControllerAlert>)
    ensures
        alert is None <==> !any_low(controllers@),
        alert matches Some(a) ==> exists|i: int|
            is_alert_target(controllers@, i) && alert_for(a, #[trigger] controllers@[i]),
{
    let n = controllers.len();
    let mut best: Option<usize> = None;
    let mut i: usize = 0;
    while i < n
        invariant
            n == controllers@.len(),
            i <= n,
            best is None <==> forall|j: int|
                0 <= j < i ==> !spec_is_low_on_battery(#[trigger] controllers@[j]),
            best matches Some(b) ==> {
                &&& b < i
                &&& spec_is_low_on_battery(controllers@[b as int])
                &&& forall|j: int|
                    0 <= j < i && spec_is_low_on_battery(#[trigger] controllers@[j])
                        ==> controllers@[b as int].battery_percent <= controllers@[j].battery_percent
                &&& forall|j: int|
                    0 <= j < b && spec_is_low_on_battery(#[trigger] controllers@[j])
                        ==> controllers@[b as int].battery_percent < controllers@[j].battery_percent
            },
        decreases n - i,
    {
        if is_low_on_battery(&controllers[i]) {
            match best {
                None => {
                    best = Some(i);
                },
                Some(b) => {
                    if controllers[i].battery_percent < controllers[b].battery_percent {
                        best = Some(i);
                    }
                },
            }
        }
        i = i + 1;
    }
    match best {
        None => {
            assert(!any_low(controllers@));
            None
        },
        Some(b) => {
            let status = &controllers[b];
            let percent = status.battery_percent;
            let sound: AlertSound;
            let icon: BalloonIcon;
            if percent == EMPTY_BATTERY_PERCENT {
                sound = AlertSound::Critical;
                icon = BalloonIcon::Error;
            } else if percent <= URGENT_BATTERY_PERCENT {
                sound = AlertSound::Exclamation;
                icon = BalloonIcon::Warning;
            } else {
                sound = AlertSound::Notify;
                icon = BalloonIcon::Info;
            }
            let mut title = String::new();
            title.append("PS controller ");
            push_decimal(&mut title, percent as u64);
            title.append("% battery");
            let message = controller_status_to_string(status);
            let alert = ControllerAlert { sound, icon, title, message };
            assert(is_alert_target(controllers@, b as int));
            assert(alert_for(alert, controllers@[b as int]));
            Some(alert)
        },
    }
}

/// An empty battery plays the critical stop sound ("SystemHand"), a warning
/// the exclamation ("SystemExclamation"), and a plain alert the notification
/// sound ("SystemNotification").
pub proof fn law_alert_sounds()
    ensures
        alert_level(0).0.spec_alias() == "SystemHand"@,
        alert_level(10).0.spec_alias() == "SystemExclamation"@,
        alert_level(20).0.spec_alias() == "SystemNotification"@,
{
}

/// The states `SHQueryUserNotificationState` reports, by value.
pub const QUNS_NOT_PRESENT: i32 = 1;

pub const QUNS_BUSY: i32 = 2;

pub const QUNS_RUNNING_D3D_FULL_SCREEN: i32 = 3;

pub const QUNS_PRESENTATION_MODE: i32 = 4;

pub const QUNS_ACCEPTS_NOTIFICATIONS: i32 = 5;

pub const QUNS_QUIET_TIME: i32 = 6;

pub const QUNS_APP: i32 = 7;

/// The states in which Windows suppresses notification balloons: busy,
/// presenting, fullscreen Direct3D, quiet time and fullscreen store apps.
pub open spec fn spec_is_balloon_suppressed(state: i32) -> bool {
    state == QUNS_BUSY || state == QUNS_RUNNING_D3D_FULL_SCREEN || state == QUNS_PRESENTATION_MODE
        || state == QUNS_QUIET_TIME || state == QUNS_APP
}

/// Whether balloons are suppressed in the user notification state `state`;
/// the alert then also plays a sound so it still reaches the user. A failed
/// query counts as not suppressed, which the caller decides before calling.
pub fn is_balloon_suppressed(state: i32) -> (suppressed: bool)
    ensures
        suppressed == spec_is_balloon_suppressed(state),
{
    state == QUNS_BUSY || state == QUNS_RUNNING_D3D_FULL_SCREEN || state == QUNS_PRESENTATION_MODE
        || state == QUNS_QUIET_TIME || state == QUNS_APP
}

/// The "do not disturb" states: busy, fullscreen Direct3D and presenting.
pub open spec fn spec_is_dnd_active(state: i32) -> bool {
    state == QUNS_BUSY || state == QUNS_RUNNING_D3D_FULL_SCREEN || state == QUNS_PRESENTATION_MODE
}

/// Whether the user notification state `state` is a "do not disturb" state.
pub fn is_dnd_active(state: i32) -> (active: bool)
    ensures
        active == spec_is_dnd_active(state),
{
    state == QUNS_BUSY || state == QUNS_RUNNING_D3D_FULL_SCREEN || state == QUNS_PRESENTATION_MODE
}

/// Balloons are suppressed in the states busy (2), fullscreen Direct3D (3),
/// presentation mode (4), quiet time (6) and fullscreen app (7), and shown
/// when the user accepts notifications (5) or nobody is signed in (1). Every
/// "do not disturb" state (busy, fullscreen Direct3D, presenting) suppresses
/// balloons, and quiet time and fullscreen apps do so without being one.
pub proof fn law_suppressed_notification_states(state: i32)
    ensures
        spec_is_balloon_suppressed(state) <==> (state == 2 || state == 3 || state == 4 || state == 6
            || state == 7),
        spec_is_dnd_active(state) <==> (state == 2 || state == 3 || state == 4),
        spec_is_dnd_active(state) ==> spec_is_balloon_suppressed(state),
        !spec_is_balloon_suppressed(5) && !spec_is_balloon_suppressed(1),
{
}

/// The least time between two alerts: five minutes, in milliseconds.
pub const ALERT_INTERVAL_MS: u64 = 300_000;

/// When the alert loop sends: at most once per `ALERT_INTERVAL_MS`, and only
/// once per poll, so that an alert goes out as soon as fresh data shows a low
/// controller without running every tick. Times are milliseconds on a
/// monotonic clock.
pub struct AlertScheduler {
    last_alert: Option<u64>,
    last_alerted_generation: u64,
}

/// Whether the alert interval has passed at `now` since an alert at `last`.
pub open spec fn interval_passed(last: Option<u64>, now: u64) -> bool {
    match last {
        None => true,
        Some(sent) => elapsed_since(sent, now) >= ALERT_INTERVAL_MS,
    }
}

impl AlertScheduler {
    /// When the last alert went out.
    pub closed spec fn last_alert(&self) -> Option<u64> {
        self.last_alert
    }

    /// The store generation the last attempt was made for.
    pub closed spec fn last_alerted_generation(&self) -> u64 {
        self.last_alerted_generation
    }

    /// No alert sent yet, and generation 0 counted as seen.
    pub fn new() -> (scheduler: Self)
        ensures
            scheduler.last_alert() is None,
            scheduler.last_alerted_generation() == 0,
    {
        AlertScheduler { last_alert: None, last_alerted_generation: 0 }
    }

    /// Whether to try an alert at `now` while the store is at `generation`.
    /// A `true` answer marks the generation as handled; an attempt that sends
    /// nothing leaves the interval alone, so a controller that turns low later
    /// is alerted at once.
    pub fn should_try_alert(&mut self, now: u64, generation: u64) -> (attempt: bool)
        ensures
            attempt == (generation != old(self).last_alerted_generation() && interval_passed(
                old(self).last_alert(),
                now,
            )),
            final(self).last_alert() == old(self).last_alert(),
            final(self).last_alerted_generation() == if attempt {
                generation
            } else {
                old(self).last_alerted_generation()
            },
    {
        let passed = match self.last_alert {
            None => true,
            Some(sent) => {
                let elapsed = if now >= sent {
                    now - sent
                } else {
                    0
                };
                elapsed >= ALERT_INTERVAL_MS
            },
        };
        if generation != self.last_alerted_generation && passed {
            self.last_alerted_generation = generation;
            true
        } else {
            false
        }
    }

    /// Records that an alert went out at `now`.
    pub fn record_alert(&mut self, now: u64)
        ensures
            final(self).last_alert() == Some(now),
            final(self).last_alerted_generation() == old(self).last_alerted_generation(),
    {
        self.last_alert = Some(now);
    }
}

/// Battery levels are multiples of 10, so only three levels trigger an
/// alert: 0% (critical stop sound, error balloon), 10% (exclamation, warning)
/// and 20% (notification, info).
pub proof fn law_only_three_levels_alert(status: ControllerStatus)
    requires
        status.battery_percent % 10 == 0,
        spec_is_low_on_battery(status),
    ensures
        status.battery_percent == 0 ==> alert_level(status.battery_percent) == (
        AlertSound::Critical,
        BalloonIcon::Error,
        ),
        status.battery_percent == 10 ==> alert_level(status.battery_percent) == (
        AlertSound::Exclamation,
        BalloonIcon::Warning,
        ),
        status.battery_percent == 20 ==> alert_level(status.battery_percent) == (
        AlertSound::Notify,
        BalloonIcon::Info,
        ),
        status.battery_percent == 0 || status.battery_percent == 10 || status.battery_percent == 20,
{
}

/// No alert is about a wired, charging or full controller.
pub proof fn law_no_alert_for_wired_charging_or_full(controllers: Seq<ControllerStatus>, i: int)
    requires
        is_alert_target(controllers, i),
    ensures
        controllers[i].is_bluetooth,
        !controllers[i].is_charging,
        !controllers[i].is_fully_charged,
        controllers[i].battery_percent <= LOW_BATTERY_PERCENT,
{
}

/// The chosen alert says what it is about: it is about a Bluetooth controller
/// that is not charging, not full, read sensibly and at most 20% charged, the
/// lowest such controller and the first of them on a tie. Its title is
/// "PS controller ", that controller's battery percentage in decimal digits
/// (no leading zero) and "% battery"; its message is the controller's status
/// line; it plays the critical stop sound with an error balloon at 0%, the
/// exclamation with a warning balloon up to 10%, and the notification with an
/// info balloon above.
pub proof fn law_alert_describes_its_controller(
    controllers: Seq<ControllerStatus>,
    alert: ControllerAlert,
)
    requires
        exists|i: int| is_alert_target(controllers, i) && alert_for(alert, #[trigger] controllers[i]),
    ensures
        exists|i: int|
            0 <= i < controllers.len() && #[trigger] controllers[i].is_bluetooth
                && !controllers[i].is_charging && !controllers[i].is_fully_charged
                && !controllers[i].unexpected_battery_data && controllers[i].battery_percent <= 20
                && (forall|j: int|
                0 <= j < controllers.len() && controllers[j].is_bluetooth
                    && !controllers[j].is_charging && !controllers[j].is_fully_charged
                    && !controllers[j].unexpected_battery_data && controllers[j].battery_percent
                    <= 20 ==> controllers[i].battery_percent <= controllers[j].battery_percent)
                && (forall|j: int|
                0 <= j < i && controllers[j].is_bluetooth && !controllers[j].is_charging
                    && !controllers[j].is_fully_charged && !controllers[j].unexpected_battery_data
                    && controllers[j].battery_percent <= 20 ==> controllers[i].battery_percent
                    < controllers[j].battery_percent) && (exists|digits: Seq<char>|
                all_digits(digits) && digits_value(digits) == controllers[i].battery_percent as int
                    && (digits.len() > 1 ==> digits[0] != '0') && #[trigger] alert.title@
                    == "PS controller "@ + digits + "% battery"@) && alert.message@ == status_text(
                controllers[i],
            ) && (controllers[i].battery_percent == 0 ==> alert.sound == AlertSound::Critical
                && alert.icon == BalloonIcon::Error) && (1 <= controllers[i].battery_percent <= 10
                ==> alert.sound == AlertSound::Exclamation && alert.icon == BalloonIcon::Warning)
                && (controllers[i].battery_percent > 10 ==> alert.sound == AlertSound::Notify
                && alert.icon == BalloonIcon::Info),
{
    let i = choose|i: int| is_alert_target(controllers, i) && alert_for(alert, #[trigger] controllers[i]);
    let percent = controllers[i].battery_percent;
    law_decimal_reads_back(percent as nat);
    let digits = decimal(percent as nat);
    assert(alert.title@ == "PS controller "@ + digits + "% battery"@);
    assert forall|j: int|
        0 <= j < controllers.len() && controllers[j].is_bluetooth && !controllers[j].is_charging
            && !controllers[j].is_fully_charged && !controllers[j].unexpected_battery_data
            && controllers[j].battery_percent <= 20 implies controllers[i].battery_percent
        <= controllers[j].battery_percent by {
        assert(spec_is_low_on_battery(controllers[j]));
    }
    assert forall|j: int|
        0 <= j < i && controllers[j].is_bluetooth && !controllers[j].is_charging
            && !controllers[j].is_fully_charged && !controllers[j].unexpected_battery_data
            && controllers[j].battery_percent <= 20 implies controllers[i].battery_percent
        < controllers[j].battery_percent by {
        assert(spec_is_low_on_battery(controllers[j]));
    }
    assert(controllers[i].is_bluetooth);
}

/// An alert is owed exactly when some controller is on Bluetooth, neither
/// charging nor full, read sensibly and at most 20% charged; then there is a
/// controller for it to be about.
pub proof fn law_alert_is_owed_when_a_controller_is_low(controllers: Seq<ControllerStatus>)
    ensures
        any_low(controllers) <==> exists|j: int|
            0 <= j < controllers.len() && #[trigger] controllers[j].is_bluetooth
                && !controllers[j].is_charging && !controllers[j].is_fully_charged
                && !controllers[j].unexpected_battery_data && controllers[j].battery_percent <= 20,
        any_low(controllers) ==> exists|i: int| is_alert_target(controllers, i),
{
    if any_low(controllers) {
        lemma_lowest_low_exists(controllers);
    }
    if exists|j: int|
        0 <= j < controllers.len() && #[trigger] controllers[j].is_bluetooth
            && !controllers[j].is_charging && !controllers[j].is_fully_charged
            && !controllers[j].unexpected_battery_data && controllers[j].battery_percent <= 20 {
        let j = choose|j: int|
            0 <= j < controllers.len() && #[trigger] controllers[j].is_bluetooth
                && !controllers[j].is_charging && !controllers[j].is_fully_charged
                && !controllers[j].unexpected_battery_data && controllers[j].battery_percent <= 20;
        assert(spec_is_low_on_battery(controllers[j]));
    }
}

/// Among the low controllers there is a first one with the lowest battery.
proof fn lemma_lowest_low_exists(controllers: Seq<ControllerStatus>)
    requires
        any_low(controllers),
    ensures
        exists|i: int| is_alert_target(controllers, i),
    decreases controllers.len(),
{
    let rest = controllers.drop_last();
    let last = controllers.len() - 1;
    if any_low(rest) {
        lemma_lowest_low_exists(rest);
        let i = choose|i: int| is_alert_target(rest, i);
        assert forall|j: int| 0 <= j < last implies #[trigger] controllers[j] == rest[j] by {}
        if spec_is_low_on_battery(controllers[last]) && controllers[last].battery_percent
            < controllers[i].battery_percent {
            assert forall|j: int|
                0 <= j < controllers.len() && spec_is_low_on_battery(#[trigger] controllers[j])
                    implies controllers[last].battery_percent <= controllers[j].battery_percent by {
                if j < last {
                    assert(rest[j] == controllers[j]);
                }
            }
            assert forall|j: int|
                0 <= j < last && spec_is_low_on_battery(#[trigger] controllers[j])
                    implies controllers[last].battery_percent < controllers[j].battery_percent by {
                assert(rest[j] == controllers[j]);
            }
            assert(is_alert_target(controllers, last));
        } else {
            assert forall|j: int|
                0 <= j < controllers.len() && spec_is_low_on_battery(#[trigger] controllers[j])
                    implies controllers[i].battery_percent <= controllers[j].battery_percent by {
                if j < last {
                    assert(rest[j] == controllers[j]);
                }
            }
            assert forall|j: int|
                0 <= j < i && spec_is_low_on_battery(#[trigger] controllers[j])
                    implies controllers[i].battery_percent < controllers[j].battery_percent by {
                assert(rest[j] == controllers[j]);
            }
            assert(controllers[i] == rest[i]);
            assert(is_alert_target(controllers, i));
        }
    } else {
        let w = choose|j: int| 0 <= j < controllers.len() && spec_is_low_on_battery(#[trigger] controllers[j]);
        if w < last {
            assert(rest[w] == controllers[w]);
            assert(false);
        }
        assert forall|j: int|
            0 <= j < controllers.len() && spec_is_low_on_battery(#[trigger] controllers[j])
                implies j == last by {
            if j < last {
                assert(rest[j] == controllers[j]);
            }
        }
        assert(is_alert_target(controllers, last));
    }
}

/// After an alert was recorded at `sent`, the scheduler tries again exactly
/// when a poll it has not handled yet has stored statuses and five minutes
/// (300 000 ms) have passed, so two alerts are at least that far apart and
/// each poll is looked at once.
pub proof fn law_alerts_are_spaced(scheduler: AlertScheduler, sent: u64, now: u64, generation: u64)
    requires
        scheduler.last_alert() == Some(sent),
    ensures
        (generation != scheduler.last_alerted_generation() && interval_passed(
            scheduler.last_alert(),
            now,
        )) <==> (generation != scheduler.last_alerted_generation() && now >= sent + 300_000),
{
}

} // verus!
