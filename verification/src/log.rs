//! The text of the log file: `HH:MM:SS.mmm [LEVEL] pid=N message`, with
//! the time of day in UTC and a five-character level. The application
//! appends the lines to `%TEMP%\exbar.log`.

use vstd::prelude::*;
use crate::text::push_char;

verus! {

/// Log verbosity, most severe first.
#[derive(Debug, Clone, Copy, PartialEq, Eq, Structural)]
pub enum LogLevel {
    Error,
    Warn,
    Info,
    Debug,
    Trace,
}

pub open spec fn level_rank(l: LogLevel) -> int {
    match l {
        LogLevel::Error => 1,
        LogLevel::Warn => 2,
        LogLevel::Info => 3,
        LogLevel::Debug => 4,
        LogLevel::Trace => 5,
    }
}

fn rank(l: LogLevel) -> (r: u8)
    ensures
        r == level_rank(l),
{
    match l {
        LogLevel::Error => 1,
        LogLevel::Warn => 2,
        LogLevel::Info => 3,
        LogLevel::Debug => 4,
        LogLevel::Trace => 5,
    }
}

/// A message at `level` is written when `level` is at least as severe as
/// the configured `max`.
pub fn enabled(level: LogLevel, max: LogLevel) -> (r: bool)
    ensures
        r == (level_rank(level) <= level_rank(max)),
{
    rank(level) <= rank(max)
}

pub open spec fn level_label(l: LogLevel) -> Seq<char> {
    match l {
        LogLevel::Error => "ERROR"@,
        LogLevel::Warn => "WARN "@,
        LogLevel::Info => "INFO "@,
        LogLevel::Debug => "DEBUG"@,
        LogLevel::Trace => "TRACE"@,
    }
}

/// The five-character label of a level.
pub fn format_level(l: LogLevel) -> (r: &'static str)
    ensures
        r@ == level_label(l),
{
    match l {
        LogLevel::Error => "ERROR",
        LogLevel::Warn => "WARN ",
        LogLevel::Info => "INFO ",
        LogLevel::Debug => "DEBUG",
        LogLevel::Trace => "TRACE",
    }
}

pub open spec fn digit(d: int) -> char {
    (('0' as u32) + d) as char
}

/// `v` in exactly `width` decimal digits (`v < 10^width`), leading zeros
/// included.
pub open spec fn padded(v: int, width: nat) -> Seq<char>
    decreases width,
{
    if width == 0 {
        Seq::empty()
    } else {
        padded(v / 10, (width - 1) as nat).push(digit(v % 10))
    }
}

fn push_padded(s: &mut String, v: u64, width: u32)
    requires
        width <= 3,
    ensures
        final(s)@ == old(s)@ + padded(v as int, width as nat),
    decreases width,
{
    if width == 0 {
        assert(old(s)@ + padded(v as int, 0) =~= old(s)@);
        return;
    }
    push_padded(s, v / 10, width - 1);
    let d: u64 = v % 10;
    let c: char = (48u8 + d as u8) as char;
    assert(c == digit((v % 10) as int));
    push_char(s, c);
    assert(final(s)@ =~= old(s)@ + padded(v as int, width as nat));
}

/// `HH:MM:SS.mmm` of the UTC time of day `total_secs` seconds after the
/// epoch, plus `millis` (below 1000).
pub open spec fn timestamp_spec(total_secs: u64, millis: u32) -> Seq<char> {
    let d = (total_secs % 86400) as int;
    padded(d / 3600, 2) + seq![':'] + padded((d % 3600) / 60, 2) + seq![':'] + padded(d % 60, 2)
        + seq!['.'] + padded(millis as int, 3)
}

pub fn format_timestamp(total_secs: u64, millis: u32) -> (r: String)
    requires
        millis < 1000,
    ensures
        r@ == timestamp_spec(total_secs, millis),
{
    let d = total_secs % 86400;
    let mut s = String::new();
    push_padded(&mut s, d / 3600, 2);
    push_char(&mut s, ':');
    push_padded(&mut s, (d % 3600) / 60, 2);
    push_char(&mut s, ':');
    push_padded(&mut s, d % 60, 2);
    push_char(&mut s, '.');
    push_padded(&mut s, millis as u64, 3);
    assert(s@ =~= timestamp_spec(total_secs, millis));
    s
}

/// The decimal digits of `n`, without leading zeros (`0` for zero).
pub open spec fn decimal(n: nat) -> Seq<char>
    decreases n,
{
    if n < 10 {
        seq![digit(n as int)]
    } else {
        decimal(n / 10).push(digit(n as int % 10))
    }
}

pub(crate) fn push_decimal(s: &mut String, n: u64)
    ensures
        final(s)@ == old(s)@ + decimal(n as nat),
    decreases n,
{
    if n >= 10 {
        push_decimal(s, n / 10);
    }
    let d: u64 = n % 10;
    let c: char = (48u8 + d as u8) as char;
    assert(c == digit(n as int % 10));
    push_char(s, c);
    assert(final(s)@ =~= old(s)@ + decimal(n as nat));
}

/// One line of the log (without the line break).
pub open spec fn line_spec(ts: Seq<char>, level: Seq<char>, pid: u32, msg: Seq<char>) -> Seq<char> {
    ts + " ["@ + level + "] pid="@ + decimal(pid as nat) + " "@ + msg
}

pub fn format_line(ts: &str, level: &str, pid: u32, msg: &str) -> (r: String)
    ensures
        r@ == line_spec(ts@, level@, pid, msg@),
{
    let mut s = String::from_str(ts);
    s.append(" [");
    s.append(level);
    s.append("] pid=");
    push_decimal(&mut s, pid as u64);
    s.append(" ");
    s.append(msg);
    assert(s@ =~= line_spec(ts@, level@, pid, msg@));
    s
}

/// The line `info(msg)` appends to the log, stamped `ts` by process `pid`.
pub fn info(ts: &str, pid: u32, msg: &str) -> (r: String)
    ensures
        r@ == line_spec(ts@, "INFO "@, pid, msg@),
{
    format_line(ts, "INFO ", pid, msg)
}

/// The line `error(msg)` appends to the log, stamped `ts` by process `pid`.
pub fn error(ts: &str, pid: u32, msg: &str) -> (r: String)
    ensures
        r@ == line_spec(ts@, "ERROR"@, pid, msg@),
{
    format_line(ts, "ERROR", pid, msg)
}

/// The line the Explorer-hosted extension appends for an informational
/// message: the level tag and the message.
pub fn log_info(msg: &str) -> (r: String)
    ensures
        r@ == "[INFO ] "@ + msg@,
{
    let mut s = String::from_str("[INFO ] ");
    s.append(msg);
    s
}

/// The line the Explorer-hosted extension appends for an error.
pub fn log_error(msg: &str) -> (r: String)
    ensures
        r@ == "[ERROR] "@ + msg@,
{
    let mut s = String::from_str("[ERROR] ");
    s.append(msg);
    s
}

} // verus!
