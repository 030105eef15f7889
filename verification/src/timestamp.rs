//! Local wall-clock timestamps and their rendering for filenames.
//!
//! The clock itself is the platform's; everything about turning its
//! components into text is specified and verified here.

use vstd::prelude::*;
use vstd::string::StringExecFns;
use chrono::Datelike;
use chrono::Timelike;

verus! {

/// A second-granularity local timestamp, split into calendar components.
#[derive(Clone, Copy, Debug, PartialEq, Eq, Structural)]
pub struct Timestamp {
    pub year: i32,
    pub month: u32,
    pub day: u32,
    pub hour: u32,
    pub minute: u32,
    pub second: u32,
}

impl Timestamp {
    /// Components a four-digit-year rendering can represent.
    pub open spec fn wf(self) -> bool {
        &&& 0 <= self.year <= 9999
        &&& 1 <= self.month <= 12
        &&& 1 <= self.day <= 31
        &&& self.hour <= 23
        &&& self.minute <= 59
        &&& self.second <= 59
    }
}

/// The decimal digit character for 0..=9.
pub open spec fn digit_char(d: int) -> char {
    if d == 0 { '0' }
    else if d == 1 { '1' }
    else if d == 2 { '2' }
    else if d == 3 { '3' }
    else if d == 4 { '4' }
    else if d == 5 { '5' }
    else if d == 6 { '6' }
    else if d == 7 { '7' }
    else if d == 8 { '8' }
    else { '9' }
}

/// Two-digit zero-padded decimal rendering of 0..=99.
pub open spec fn two_digit_chars(n: int) -> Seq<char> {
    seq![digit_char(n / 10), digit_char(n % 10)]
}

/// Four-digit zero-padded decimal rendering of 0..=9999.
pub open spec fn four_digit_chars(n: int) -> Seq<char> {
    seq![
        digit_char(n / 1000),
        digit_char((n / 100) % 10),
        digit_char((n / 10) % 10),
        digit_char(n % 10),
    ]
}

/// The filename timestamp text: `YYYY-MM-DD at HH.MM.SS`.
pub open spec fn timestamp_chars(t: Timestamp) -> Seq<char> {
    four_digit_chars(t.year as int) + "-"@ + two_digit_chars(t.month as int) + "-"@
        + two_digit_chars(t.day as int) + " at "@ + two_digit_chars(t.hour as int) + "."@
        + two_digit_chars(t.minute as int) + "."@ + two_digit_chars(t.second as int)
}

/// The one-character text of a decimal digit.
fn digit_str(d: u32) -> (r: &'static str)
    requires
        d <= 9,
    ensures
        r@ == seq![digit_char(d as int)],
{
    proof {
        reveal_strlit("0");
        reveal_strlit("1");
        reveal_strlit("2");
        reveal_strlit("3");
        reveal_strlit("4");
        reveal_strlit("5");
        reveal_strlit("6");
        reveal_strlit("7");
        reveal_strlit("8");
        reveal_strlit("9");
        assert("0"@ =~= seq![digit_char(0)]);
        assert("1"@ =~= seq![digit_char(1)]);
        assert("2"@ =~= seq![digit_char(2)]);
        assert("3"@ =~= seq![digit_char(3)]);
        assert("4"@ =~= seq![digit_char(4)]);
        assert("5"@ =~= seq![digit_char(5)]);
        assert("6"@ =~= seq![digit_char(6)]);
        assert("7"@ =~= seq![digit_char(7)]);
        assert("8"@ =~= seq![digit_char(8)]);
        assert("9"@ =~= seq![digit_char(9)]);
    }
    match d {
        0 => "0",
        1 => "1",
        2 => "2",
        3 => "3",
        4 => "4",
        5 => "5",
        6 => "6",
        7 => "7",
        8 => "8",
        _ => "9",
    }
}

/// Append a two-digit zero-padded number.
fn append_two_digits(s: &mut String, n: u32)
    requires
        n <= 99,
    ensures
        final(s)@ == old(s)@ + two_digit_chars(n as int),
{
    s.append(digit_str(n / 10));
    s.append(digit_str(n % 10));
    proof {
        assert(s@ =~= old(s)@ + two_digit_chars(n as int));
    }
}

/// Append a four-digit zero-padded number.
fn append_four_digits(s: &mut String, n: u32)
    requires
        n <= 9999,
    ensures
        final(s)@ == old(s)@ + four_digit_chars(n as int),
{
    s.append(digit_str(n / 1000));
    s.append(digit_str((n / 100) % 10));
    s.append(digit_str((n / 10) % 10));
    s.append(digit_str(n % 10));
    proof {
        assert(s@ =~= old(s)@ + four_digit_chars(n as int));
    }
}

/// Append the `YYYY-MM-DD at HH.MM.SS` rendering of a timestamp.
pub fn append_timestamp(s: &mut String, t: &Timestamp)
    requires
        t.wf(),
    ensures
        final(s)@ == old(s)@ + timestamp_chars(*t),
{
    append_four_digits(s, t.year as u32);
    s.append("-");
    append_two_digits(s, t.month);
    s.append("-");
    append_two_digits(s, t.day);
    s.append(" at ");
    append_two_digits(s, t.hour);
    s.append(".");
    append_two_digits(s, t.minute);
    s.append(".");
    append_two_digits(s, t.second);
    proof {
        assert(s@ =~= old(s)@ + timestamp_chars(*t));
    }
}

/// The year with out-of-range values saturated into 0..=9999.
pub open spec fn clamp_year(y: int) -> int {
    if y < 0 { 0 } else if y > 9999 { 9999 } else { y }
}

/// Assemble a well-formed timestamp from clock components, saturating the
/// year into the four-digit range.
pub fn timestamp_from_parts(
    year: i32,
    month: u32,
    day: u32,
    hour: u32,
    minute: u32,
    second: u32,
) -> (t: Timestamp)
    requires
        1 <= month <= 12,
        1 <= day <= 31,
        hour <= 23,
        minute <= 59,
        second <= 59,
    ensures
        t.wf(),
        t.year == clamp_year(year as int),
        t.month == month,
        t.day == day,
        t.hour == hour,
        t.minute == minute,
        t.second == second,
{
    let y: i32 = if year < 0 { 0 } else if year > 9999 { 9999 } else { year };
    Timestamp { year: y, month, day, hour, minute, second }
}

/// Relies on `chrono::Local::now` and the `Datelike` / `Timelike`
/// accessors, whose documentation bounds every component: month 1..=12,
/// day 1..=31, hour 0..=23, minute and second 0..=59. The year is whatever
/// the local calendar says.
#[verifier::external_body]
fn now_local_parts() -> (t: (i32, u32, u32, u32, u32, u32))
    ensures
        1 <= t.1 <= 12,
        1 <= t.2 <= 31,
        t.3 <= 23,
        t.4 <= 59,
        t.5 <= 59,
{
    let now = chrono::Local::now();
    (now.year(), now.month(), now.day(), now.hour(), now.minute(), now.second())
}

/// The local wall-clock time, second granularity, year saturated into the
/// four-digit range.
pub fn now_local() -> (t: Timestamp)
    ensures
        t.wf(),
{
    let (year, month, day, hour, minute, second) = now_local_parts();
    timestamp_from_parts(year, month, day, hour, minute, second)
}

} // verus!
