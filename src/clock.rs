//! The clock: the local time as the bar shows it, and how long to sleep so
//! that the next update lands on a minute boundary.

use vstd::prelude::*;

use chrono::Timelike;

use crate::record::State;

verus! {

/// How the clock text is laid out: weekday, day, month, hour and minute.
pub const CLOCK_FORMAT: &'static str = "%a %d %b %H:%M";

/// `c` is a decimal digit.
pub open spec fn is_digit(c: char) -> bool {
    '0' <= c && c <= '9'
}

/// The value of the two digits of `t` at `i` and `i + 1`.
pub open spec fn two_digits(t: Seq<char>, i: int) -> int {
    10 * ((t[i] as u32) - ('0' as u32)) + ((t[i + 1] as u32) - ('0' as u32))
}

/// `t` is a time in the clock's layout, such as `Mon 01 Jan 12:00`: a short
/// English weekday, a two-digit day of the month, a short English month,
/// and a two-digit hour and minute.
pub open spec fn is_clock_text(t: Seq<char>) -> bool {
    &&& t.len() == 16
    &&& seq!["Mon"@, "Tue"@, "Wed"@, "Thu"@, "Fri"@, "Sat"@, "Sun"@].contains(t.subrange(0, 3))
    &&& seq![
        "Jan"@,
        "Feb"@,
        "Mar"@,
        "Apr"@,
        "May"@,
        "Jun"@,
        "Jul"@,
        "Aug"@,
        "Sep"@,
        "Oct"@,
        "Nov"@,
        "Dec"@,
    ].contains(t.subrange(7, 10))
    &&& t[3] == ' ' && t[6] == ' ' && t[10] == ' ' && t[13] == ':'
    &&& is_digit(t[4]) && is_digit(t[5]) && 1 <= two_digits(t, 4) <= 31
    &&& is_digit(t[11]) && is_digit(t[12]) && two_digits(t, 11) <= 23
    &&& is_digit(t[14]) && is_digit(t[15]) && two_digits(t, 14) <= 59
}

/// One reading of the local clock.
pub struct ClockReading {
    /// The time in the clock's layout.
    pub text: String,
    /// The second past the minute.
    pub second: u32,
}

/// Relies on chrono's `Local::now`, `DateTime::format` written out by
/// `to_string`, and `Timelike::second`, which gives the second past the
/// minute from 0 to 59. Without chrono's locale feature, `%a` and `%b`
/// give the English short names and `%d`, `%H` and `%M` two zero-padded
/// digits, so the text has the clock's layout. A format string that chrono cannot parse makes the
/// writing fail and `to_string` panic, so only the clock's own layout is
/// handed to it.
#[verifier::external_body]
fn read_local_clock(fmt: &str) -> (r: ClockReading)
    requires
        fmt@ == CLOCK_FORMAT@,
    ensures
        is_clock_text(r.text@),
        r.second < 60,
{
    let now = chrono::Local::now();
    ClockReading { text: now.format(fmt).to_string(), second: now.second() }
}

/// The local time now, as the bar shows it and as a second past the minute.
pub fn read_clock() -> (r: ClockReading)
    ensures
        is_clock_text(r.text@),
        r.second < 60,
{
    read_local_clock(CLOCK_FORMAT)
}

/// Seconds from `second` past the minute to the next minute boundary.
pub fn seconds_until_next_minute(second: u32) -> (r: u64)
    requires
        second < 60,
    ensures
        r == 60 - second,
        1 <= r <= 60,
{
    60 - second as u64
}

/// Writes the reading's text into the record and gives the seconds to
/// sleep until the minute after the reading; the other fields stay.
pub fn tick(state: &mut State, reading: ClockReading) -> (r: u64)
    requires
        reading.second < 60,
    ensures
        r == 60 - reading.second,
        final(state).datetime@ == reading.text@,
        final(state).title@ == old(state).title@,
        final(state).power == old(state).power,
{
    let delay = seconds_until_next_minute(reading.second);
    state.set_clock_text(reading.text);
    delay
}

} // verus!
