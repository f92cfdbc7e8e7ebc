//! The time of day: reading it and writing it out.

use crate::call::{outcome, outcome_of};
use crate::message::{text_of, HIDDEN_FLAG};
use std::time::{SystemTime, SystemTimeError, UNIX_EPOCH};
use vstd::prelude::*;
use vstd::string::StringExecFns;

verus! {

/// The character of a decimal digit.
pub open spec fn decimal_digit(n: int) -> char {
    (48 + n) as char
}

/// A number below one hundred in two decimal digits.
pub open spec fn two_digits(n: int) -> Seq<char> {
    seq![decimal_digit(n / 10), decimal_digit(n % 10)]
}

/// `HH:MM:SS` in UTC, for a count of seconds since the epoch.
pub open spec fn clock_text(secs: int) -> Seq<char> {
    two_digits((secs % 86400) / 3600) + seq![':'] + two_digits((secs % 3600) / 60) + seq![':']
        + two_digits(secs % 60)
}

/// The seconds that a timestamp holds beside its sentinel bit.
pub open spec fn seconds_of(timestamp: u64) -> int {
    timestamp as int % 0x8000_0000_0000_0000
}

/// The time of day that a timestamp is displayed with.
pub open spec fn stamp_text(timestamp: u64) -> Seq<char> {
    clock_text(seconds_of(timestamp))
}

/// The decimal digit `n` as text.
fn digit_str(n: u64) -> (text: &'static str)
    requires
        n < 10,
    ensures
        text@ == seq![decimal_digit(n as int)],
{
    proof {
        reveal_strlit("0");
        reveal_strlit("1");
        reveal_strlit("2");
        reveal_strlit("3");
        reveal_strlit("4");
        reveal_strlit("5");
        reveal_strlit("6");
        reveal_strlit("7");
        reveal_strlit("8");
        reveal_strlit("9");
    }
    match n {
        0 => "0",
        1 => "1",
        2 => "2",
        3 => "3",
        4 => "4",
        5 => "5",
        6 => "6",
        7 => "7",
        8 => "8",
        _ => "9",
    }
}

/// Appends `n` in two digits.
fn push_two_digits(text: &mut String, n: u64)
    requires
        n < 100,
    ensures
        final(text)@ == old(text)@ + two_digits(n as int),
{
    text.append(digit_str(n / 10));
    text.append(digit_str(n % 10));
}

/// `HH:MM:SS` for a count of seconds since the epoch.
pub fn fmt_clock(secs: u64) -> (text: String)
    ensures
        text@ == clock_text(secs as int),
{
    let h: u64 = (secs % 86400) / 3600;
    let m: u64 = (secs % 3600) / 60;
    let s: u64 = secs % 60;
    proof {
        reveal_strlit(":");
    }
    let mut text = String::new();
    push_two_digits(&mut text, h);
    text.append(":");
    push_two_digits(&mut text, m);
    text.append(":");
    push_two_digits(&mut text, s);
    text
}

/// The time of day of a message's timestamp; its sentinel bit does not show.
pub fn fmt_ts(unix: u64) -> (text: String)
    ensures
        text@ == stamp_text(unix),
{
    let secs: u64 = unix & !HIDDEN_FLAG;
    assert(unix & !0x8000_0000_0000_0000u64 == unix % 0x8000_0000_0000_0000u64) by (bit_vector);
    fmt_clock(secs)
}

/// A reading of the system clock.
#[verifier::external_type_specification]
#[verifier::external_body]
pub struct ExSystemTime(SystemTime);

/// The error of a time that lies before another one.
#[verifier::external_type_specification]
#[verifier::external_body]
pub struct ExSystemTimeError(SystemTimeError);

/// `SystemTime::now` reads the system clock. Nothing holds of every reading.
pub assume_specification[ SystemTime::now ]() -> (time: SystemTime)
;

/// Calls `SystemTime::duration_since` with the Unix epoch: the time that has
/// passed since then, as the whole seconds and the nanoseconds beside them
/// that make up a `Duration`, or an error where the reading lies before the
/// epoch. The nanoseconds are less than a second; beyond that the result rests
/// on the clock, and nothing is stated of it.
#[verifier::external_body]
fn since_epoch(time: &SystemTime) -> (elapsed: Result<(u64, u32), SystemTimeError>)
    ensures
        elapsed matches Ok((_, nanos)) ==> nanos < 1_000_000_000,
{
    match time.duration_since(UNIX_EPOCH) {
        Ok(elapsed) => Ok((elapsed.as_secs(), elapsed.subsec_nanos())),
        Err(error) => Err(error),
    }
}

/// Whether a reading of the system clock is `elapsed` after the Unix epoch: a
/// time that `SystemTime::now` gave, less the epoch.
pub closed spec fn is_reading(elapsed: Result<(u64, u32), SystemTimeError>) -> bool {
    exists|time: SystemTime|
        #![trigger call_ensures(since_epoch, (&time,), elapsed)]
        call_ensures(SystemTime::now, (), time) && call_ensures(since_epoch, (&time,), elapsed)
}

/// The whole seconds of a reading; there are none before the epoch.
pub open spec fn seconds_read(elapsed: Result<(u64, u32), SystemTimeError>) -> Option<u64> {
    match elapsed {
        Ok((whole, _)) => Some(whole),
        Err(_) => None,
    }
}

/// Whether a reading of the system clock has these whole seconds.
pub open spec fn clock_tells(secs: Option<u64>) -> bool {
    exists|elapsed: Result<(u64, u32), SystemTimeError>| #[trigger]
        is_reading(elapsed) && secs == seconds_read(elapsed)
}

/// The time of day of a reading, where there is one.
pub open spec fn reading_text(secs: Option<u64>) -> Option<Seq<char>> {
    match secs {
        Some(s) => Some(clock_text(s as int)),
        None => None,
    }
}

/// The whole seconds of the seconds and nanoseconds that have passed since the
/// Unix epoch; there are none where the clock stands before it.
pub fn whole_seconds(elapsed: Result<(u64, u32), SystemTimeError>) -> (secs: Option<u64>)
    ensures
        secs == seconds_read(elapsed),
{
    match elapsed {
        Ok((whole, _)) => Some(whole),
        Err(_) => None,
    }
}

/// The time of day of a reading of the clock, where there is one.
pub fn fmt_reading(secs: Option<u64>) -> (text: Option<String>)
    ensures
        text_of(text) == reading_text(secs),
{
    match secs {
        Some(s) => Some(fmt_clock(s)),
        None => None,
    }
}

/// The seconds since the Unix epoch, or `None` where the system clock stands
/// before it: what [`whole_seconds`] makes of a reading of the clock.
pub fn unix_now() -> (secs: Option<u64>)
    ensures
        clock_tells(secs),
{
    let time = outcome(SystemTime::now);
    let elapsed = outcome_of(since_epoch, &time);
    assert(is_reading(elapsed));
    whole_seconds(elapsed)
}

/// The present time of day as `HH:MM:SS`, or `None` where the system clock
/// stands before the Unix epoch: what [`fmt_reading`] makes of [`unix_now`].
pub fn now() -> (text: Option<String>)
    ensures
        exists|secs: Option<u64>| #[trigger]
            clock_tells(secs) && text_of(text) == reading_text(secs),
{
    fmt_reading(unix_now())
}

/// A time of day is eight characters, and its hours, minutes and seconds are
/// those that have passed of the day.
pub proof fn clock_reads_back(secs: int)
    requires
        0 <= secs,
    ensures
        ({
            let text = clock_text(secs);
            let digit = |i: int| text[i] as int - '0' as int;
            let hours = 10 * digit(0) + digit(1);
            let minutes = 10 * digit(3) + digit(4);
            let seconds = 10 * digit(6) + digit(7);
            &&& text.len() == 8
            &&& text[2] == ':' && text[5] == ':'
            &&& 0 <= digit(0) <= 9 && 0 <= digit(1) <= 9
            &&& 0 <= digit(3) <= 9 && 0 <= digit(4) <= 9
            &&& 0 <= digit(6) <= 9 && 0 <= digit(7) <= 9
            &&& hours < 24 && minutes < 60 && seconds < 60
            &&& 3600 * hours + 60 * minutes + seconds == secs % 86400
        }),
{
    assert(secs % 3600 == (secs % 86400) % 3600);
    assert(secs % 60 == (secs % 3600) % 60);
}

/// A timestamp is displayed as its seconds are, without the top bit.
pub proof fn stamp_leaves_top_bit_out(timestamp: u64)
    ensures
        timestamp < 0x8000_0000_0000_0000 ==> stamp_text(timestamp) == clock_text(timestamp as int),
        timestamp >= 0x8000_0000_0000_0000 ==> stamp_text(timestamp) == clock_text(
            timestamp - 0x8000_0000_0000_0000,
        ),
{
}

/// A clock at or after the epoch tells its whole seconds and the time of day,
/// and a clock before it tells neither.
pub proof fn readings_are_told(whole: u64, nanos: u32, error: SystemTimeError)
    ensures
        seconds_read(Ok((whole, nanos))) == Some(whole),
        seconds_read(Err(error)) is None,
        reading_text(Some(whole)) == Some(clock_text(whole as int)),
        reading_text(None) is None,
{
}

} // verus!
