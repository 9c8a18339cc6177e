//! Console log lines: a timestamp, a severity flag and the message.

use vstd::prelude::*;

use crate::text::{decimal, digit_char, digit_text, push_decimal};

verus! {

/// How severe a logged event is, from most to least severe.
#[derive(Clone, Copy, Debug, PartialEq, Eq, Structural)]
pub enum LogLevel {
    Fatal,
    Error,
    Warning,
    Info,
}

/// The flag written for a level; all are five characters wide.
pub open spec fn level_label(level: LogLevel) -> Seq<char> {
    match level {
        LogLevel::Fatal => "FATAL"@,
        LogLevel::Error => "ERROR"@,
        LogLevel::Warning => " WARN"@,
        LogLevel::Info => " INFO"@,
    }
}

/// Every level has its own flag, and all flags are five characters wide, so the
/// messages of a log line start in the same column whatever the level.
pub proof fn lemma_labels_distinct_and_aligned(a: LogLevel, b: LogLevel)
    ensures
        level_label(a).len() == 5,
        a != b ==> level_label(a) != level_label(b),
{
    reveal_strlit("FATAL");
    reveal_strlit("ERROR");
    reveal_strlit(" WARN");
    reveal_strlit(" INFO");
    if a != b {
        assert(level_label(a)[1] != level_label(b)[1]);
    }
}

impl LogLevel {
    pub fn label(&self) -> (r: &'static str)
        ensures
            r@ == level_label(*self),
    {
        match self {
            LogLevel::Fatal => "FATAL",
            LogLevel::Error => "ERROR",
            LogLevel::Warning => " WARN",
            LogLevel::Info => " INFO",
        }
    }
}

/// `n` written with exactly two digits, for `n < 100`.
pub open spec fn two_digits(n: nat) -> Seq<char> {
    seq![digit_char(n / 10), digit_char(n % 10)]
}

/// `n` written with exactly four digits, for `n < 10000`.
pub open spec fn four_digits(n: nat) -> Seq<char> {
    seq![digit_char(n / 1000), digit_char((n / 100) % 10), digit_char((n / 10) % 10), digit_char(n % 10)]
}

/// A year as the timestamp writes it: four digits from 0 to 9999 (zero-padded);
/// above, a `+` and the digits; below zero, a `-` and at least four digits.
pub open spec fn year_text(year: int) -> Seq<char> {
    if 0 <= year <= 9999 {
        four_digits(year as nat)
    } else if year > 9999 {
        "+"@ + decimal(year as nat)
    } else if -year <= 9999 {
        "-"@ + four_digits((-year) as nat)
    } else {
        "-"@ + decimal((-year) as nat)
    }
}

/// The timestamp of a log line: `dd-mm-YYYY | HH:MM:SS`, day, month, hour, minute
/// and second on two digits each.
pub open spec fn timestamp_layout(day: nat, month: nat, year: int, hour: nat, minute: nat, second: nat) -> Seq<char> {
    two_digits(day) + "-"@ + two_digits(month) + "-"@ + year_text(year) + " | "@ + two_digits(hour) + ":"@
        + two_digits(minute) + ":"@ + two_digits(second)
}

fn push_two_digits(out: &mut String, n: u32)
    requires
        n < 100,
    ensures
        final(out)@ == old(out)@ + two_digits(n as nat),
{
    out.append(digit_text((n / 10) as u64));
    out.append(digit_text((n % 10) as u64));
    assert(final(out)@ =~= old(out)@ + two_digits(n as nat));
}

fn push_four_digits(out: &mut String, n: u32)
    requires
        n < 10000,
    ensures
        final(out)@ == old(out)@ + four_digits(n as nat),
{
    out.append(digit_text((n / 1000) as u64));
    out.append(digit_text(((n / 100) % 10) as u64));
    out.append(digit_text(((n / 10) % 10) as u64));
    out.append(digit_text((n % 10) as u64));
    assert(final(out)@ =~= old(out)@ + four_digits(n as nat));
}

/// Writes the timestamp of a log line from the fields of a local date and time
/// (`second` is 60 during a leap second).
pub fn timestamp_text(day: u32, month: u32, year: i32, hour: u32, minute: u32, second: u32) -> (r: String)
    requires
        day < 100,
        month < 100,
        hour < 100,
        minute < 100,
        second < 100,
    ensures
        r@ == timestamp_layout(day as nat, month as nat, year as int, hour as nat, minute as nat, second as nat),
{
    let mut out = String::new();
    push_two_digits(&mut out, day);
    out.append("-");
    push_two_digits(&mut out, month);
    out.append("-");
    let wide = year as i64;
    if 0 <= wide && wide <= 9999 {
        push_four_digits(&mut out, wide as u32);
    } else if wide > 9999 {
        out.append("+");
        push_decimal(&mut out, wide as u64);
    } else {
        out.append("-");
        let magnitude = (-wide) as u64;
        if magnitude <= 9999 {
            push_four_digits(&mut out, magnitude as u32);
        } else {
            push_decimal(&mut out, magnitude);
        }
    }
    out.append(" | ");
    push_two_digits(&mut out, hour);
    out.append(":");
    push_two_digits(&mut out, minute);
    out.append(":");
    push_two_digits(&mut out, second);
    out
}

/// A message to be logged at a level.
#[derive(Clone, Debug)]
pub struct LogEntry {
    pub level: LogLevel,
    pub message: String,
}

impl LogEntry {
    pub open spec fn view(self) -> (LogLevel, Seq<char>) {
        (self.level, self.message@)
    }
}

/// The line printed for `message`: `[ timestamp ]  => LEVEL:  message`.
pub open spec fn log_line(timestamp: Seq<char>, level: LogLevel, message: Seq<char>) -> Seq<char> {
    "[ "@ + timestamp + " ]  => "@ + level_label(level) + ":  "@ + message
}

/// Writes the console line for a message logged at `severity` at the time `timestamp`
/// (as `timestamp_text` writes it).
pub fn format_log_line(timestamp: &str, severity: LogLevel, message: &str) -> (r: String)
    ensures
        r@ == log_line(timestamp@, severity, message@),
{
    let mut out = String::new();
    out.append("[ ");
    out.append(timestamp);
    out.append(" ]  => ");
    out.append(severity.label());
    out.append(":  ");
    out.append(message);
    out
}

/// A log entry whose message is `head` followed by `why`.
pub(crate) fn entry_with_reason(level: LogLevel, head: &str, why: &str) -> (r: LogEntry)
    ensures
        r.view() == (level, head@ + why@),
{
    let mut message = String::new();
    message.append(head);
    message.append(why);
    LogEntry { level, message }
}

} // verus!
