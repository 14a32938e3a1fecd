use vstd::prelude::*;

use crate::text::{all_digits, decimal, digits_value, law_decimal_reads_back, push_decimal};

verus! {

/// How serious a log line is.
#[derive(Clone, Copy, Debug, PartialEq, Eq, Structural)]
pub enum LogLevel {
    Info,
    Error,
}

impl LogLevel {
    /// The label of the level in a log line; both labels are four wide.
    pub open spec fn spec_label(self) -> Seq<char> {
        match self {
            LogLevel::Info => "INFO"@,
            LogLevel::Error => "ERR "@,
        }
    }

    /// The label of the level in a log line.
    pub fn label(self) -> (label: &'static str)
        ensures
            label@ == self.spec_label(),
    {
        match self {
            LogLevel::Info => "INFO",
            LogLevel::Error => "ERR ",
        }
    }
}

/// A log line: `[secs] [LABEL] message`.
pub open spec fn spec_log_line(secs: u64, level: LogLevel, message: Seq<char>) -> Seq<char> {
    "["@ + decimal(secs as nat) + "] ["@ + level.spec_label() + "] "@ + message
}

/// Formats one log line, stamped with the seconds since the Unix epoch.
pub fn format_log_line(secs: u64, level: LogLevel, message: &str) -> (line: String)
    ensures
        line@ == spec_log_line(secs, level, message@),
{
    let mut line = String::new();
    line.append("[");
    push_decimal(&mut line, secs);
    line.append("] [");
    line.append(level.label());
    line.append("] ");
    line.append(message);
    line
}

/// A log line is the time stamp in square brackets, the level's four-wide
/// label in square brackets ("INFO" or "ERR "), a space and the message:
/// `[secs] [INFO] message`, where the digits of the stamp read back as the
/// seconds.
pub proof fn law_log_line_layout(secs: u64, level: LogLevel, message: Seq<char>)
    ensures
        exists|digits: Seq<char>|
            all_digits(digits) && digits_value(digits) == secs as int && digits.len() >= 1 && (
            digits.len() > 1 ==> digits[0] != '0') && #[trigger] spec_log_line(secs, level, message)
                == "["@ + digits + "] ["@ + (match level {
                LogLevel::Info => "INFO"@,
                LogLevel::Error => "ERR "@,
            }) + "] "@ + message,
{
    law_decimal_reads_back(secs as nat);
    let digits = decimal(secs as nat);
    assert(spec_log_line(secs, level, message) == "["@ + digits + "] ["@ + (match level {
        LogLevel::Info => "INFO"@,
        LogLevel::Error => "ERR "@,
    }) + "] "@ + message);
}

/// Where the log lives, under the `APPDATA` directory.
pub struct LogPaths {
    /// The directory of the log files.
    pub dir: String,
    /// The log of this run.
    pub path: String,
    /// The log of the previous run, which the new run moves aside.
    pub old_path: String,
}

/// The log directory under `appdata`.
pub open spec fn spec_log_dir(appdata: Seq<char>) -> Seq<char> {
    appdata + "\\ps-battery"@
}

/// The log locations for the `APPDATA` directory `appdata`:
/// `%APPDATA%\ps-battery\ps-battery.log` and `ps-battery.old.log` beside it.
pub fn log_paths(appdata: &str) -> (paths: LogPaths)
    ensures
        paths.dir@ == spec_log_dir(appdata@),
        paths.path@ == spec_log_dir(appdata@) + "\\ps-battery.log"@,
        paths.old_path@ == spec_log_dir(appdata@) + "\\ps-battery.old.log"@,
{
    let mut dir = appdata.to_owned();
    dir.append("\\ps-battery");
    let mut path = dir.clone();
    path.append("\\ps-battery.log");
    let mut old_path = dir.clone();
    old_path.append("\\ps-battery.old.log");
    LogPaths { dir, path, old_path }
}

/// The log files live in the `ps-battery` folder of the `APPDATA`
/// directory.
pub proof fn law_log_locations(appdata: Seq<char>)
    ensures
        spec_log_dir(appdata) == appdata + "\\ps-battery"@,
{
}

/// The log file of this run, once it is open.
pub struct LogLocation {
    path: Option<String>,
}

impl LogLocation {
    /// The path of the open log file, if there is one.
    pub closed spec fn path(&self) -> Option<Seq<char>> {
        match self.path {
            Some(p) => Some(p@),
            None => None,
        }
    }

    /// No log file open: file logging is off.
    pub fn disabled() -> (location: Self)
        ensures
            location.path() is None,
    {
        LogLocation { path: None }
    }

    /// The log file at `path` is open.
    pub fn opened(path: String) -> (location: Self)
        ensures
            location.path() == Some(path@),
    {
        LogLocation { path: Some(path) }
    }

    /// The path of the log file, for the tray's "Open log" entry; `None`
    /// when file logging is off.
    pub fn get_log_path(&self) -> (path: Option<&str>)
        ensures
            match path {
                Some(p) => self.path() == Some(p@),
                None => self.path() is None,
            },
    {
        match &self.path {
            Some(p) => Some(p.as_str()),
            None => None,
        }
    }
}

/// Rate limit for periodic log output. Times are milliseconds on a monotonic
/// clock.
pub struct LogTimer {
    last: Option<u64>,
}

/// The time from `earlier` to `now`, zero when the clock reads earlier
/// than `earlier` (as a saturating `duration_since` gives it).
pub open spec fn elapsed_since(earlier: u64, now: u64) -> int {
    if now >= earlier {
        now - earlier
    } else {
        0
    }
}

/// Whether `interval` has passed at `now` since `last`; true before the first
/// line.
pub open spec fn log_due(last: Option<u64>, now: u64, interval: u64) -> bool {
    match last {
        None => true,
        Some(t) => elapsed_since(t, now) >= interval,
    }
}

impl LogTimer {
    /// When a line was last allowed.
    pub closed spec fn last(&self) -> Option<u64> {
        self.last
    }

    /// A timer that allows the first line at once.
    pub fn new() -> (timer: Self)
        ensures
            timer.last() is None,
    {
        LogTimer { last: None }
    }

    /// Whether to log at `now`, at most once per `interval`; a `true` answer
    /// restarts the interval.
    pub fn should_log(&mut self, now: u64, interval: u64) -> (due: bool)
        ensures
            due == log_due(old(self).last(), now, interval),
            final(self).last() == if due {
                Some(now)
            } else {
                old(self).last()
            },
    {
        let due = match self.last {
            None => true,
            Some(t) => {
                let elapsed = if now >= t {
                    now - t
                } else {
                    0
                };
                elapsed >= interval
            },
        };
        if due {
            self.last = Some(now);
        }
        due
    }
}

/// The first call logs, an immediate second call at the same time with a
/// positive interval does not, and a call logs exactly when the interval
/// has passed since the last call that logged (a clock that reads earlier
/// than that call counts as no time passed).
pub proof fn law_logging_is_rate_limited(last: Option<u64>, now: u64, interval: u64)
    ensures
        log_due(None, now, interval),
        interval > 0 ==> !log_due(Some(now), now, interval),
        last matches Some(t) ==> (log_due(last, now, interval) <==> elapsed_since(t, now)
            >= interval),
        last matches Some(t) ==> (log_due(last, now, interval) <==> (now >= t && now - t
            >= interval) || (now < t && interval == 0)),
{
}

} // verus!
