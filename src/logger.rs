use vstd::prelude::*;
use vstd::string::StringExecFns;

use crate::text::{push_str, push_two_digits, two_digit_text};

verus! {

#[derive(Clone, Copy, Debug, PartialEq, Eq, Structural)]
pub enum LogType {
    Info,
    Error,
}

/// One line of the event log: its kind, its text and the wall-clock time of day
/// (hours, minutes, seconds, UTC).
#[derive(Debug)]
pub struct LogEntry {
    pub log_type: LogType,
    pub message: String,
    pub time: (u64, u64, u64),
}

/// The time of day, (hours, minutes, seconds), `secs` seconds after the epoch.
pub open spec fn time_of_day(secs: u64) -> (u64, u64, u64) {
    (((secs / 3600) % 24) as u64, ((secs / 60) % 60) as u64, (secs % 60) as u64)
}

/// The CSS class that marks an entry's kind.
pub open spec fn log_class(t: LogType) -> Seq<char> {
    match t {
        LogType::Info => "log-info"@,
        LogType::Error => "log-error"@,
    }
}

/// The HTML fragment of an entry: `[hh:mm:ss]` and the message in its kind's class.
pub open spec fn entry_html(e: LogEntry) -> Seq<char> {
    "<div class=\"log-entry\"><span class=\"log-time\">["@ + two_digit_text(e.time.0 as nat) + ":"@
        + two_digit_text(e.time.1 as nat) + ":"@ + two_digit_text(e.time.2 as nat)
        + "]</span><span class=\""@ + log_class(e.log_type) + "\">"@ + e.message@
        + "</span></div>"@
}

/// Relies on std::time::SystemTime::now: the wall clock, as whole seconds since the
/// Unix epoch (0 for a clock set before it).
#[verifier::external_body]
fn unix_seconds() -> u64 {
    std::time::SystemTime::now().duration_since(std::time::UNIX_EPOCH).unwrap_or_default().as_secs()
}

impl LogEntry {
    /// An entry stamped with the current time of day.
    pub fn new(log_type: LogType, message: String) -> (r: Self)
        ensures
            r.log_type == log_type,
            r.message@ == message@,
            r.time.0 < 24 && r.time.1 < 60 && r.time.2 < 60,
    {
        LogEntry::at(log_type, message, unix_seconds())
    }

    /// An entry stamped with the time of day `secs` seconds after the epoch.
    pub fn at(log_type: LogType, message: String, secs: u64) -> (r: Self)
        ensures
            r.log_type == log_type,
            r.message@ == message@,
            r.time == time_of_day(secs),
    {
        let hours = (secs / 3600) % 24;
        let minutes = (secs / 60) % 60;
        let seconds = secs % 60;
        LogEntry { log_type, message, time: (hours, minutes, seconds) }
    }

    /// The HTML fragment the log view shows for this entry.
    pub fn to_html(&self) -> (r: String)
        ensures
            r@ == entry_html(*self),
    {
        let mut s = String::from_str("<div class=\"log-entry\"><span class=\"log-time\">[");
        push_two_digits(&mut s, self.time.0);
        push_str(&mut s, ":");
        push_two_digits(&mut s, self.time.1);
        push_str(&mut s, ":");
        push_two_digits(&mut s, self.time.2);
        push_str(&mut s, "]</span><span class=\"");
        match self.log_type {
            LogType::Info => push_str(&mut s, "log-info"),
            LogType::Error => push_str(&mut s, "log-error"),
        }
        push_str(&mut s, "\">");
        push_str(&mut s, self.message.as_str());
        push_str(&mut s, "</span></div>");
        s
    }
}

} // verus!
