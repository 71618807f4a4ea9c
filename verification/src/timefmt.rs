//! Local civil time for the report: a modification instant, given as seconds
//! and nanoseconds since the Unix epoch, is converted to the machine's local
//! time zone and rendered as `YYYY-MM-DD HH:MM:SS`.
//!
//! Only the conversion to local civil time is delegated to an outside crate;
//! the rendering itself is verified against [`civil_text`].

use vstd::prelude::*;

use chrono::{Datelike, Timelike};

verus! {

/// A civil (calendar) date and time, second precision, already in some fixed
/// time zone.
#[derive(Clone, Copy, Debug, PartialEq, Eq, Structural)]
pub struct CivilTime {
    pub year: i32,
    pub month: u8,
    pub day: u8,
    pub hour: u8,
    pub minute: u8,
    pub second: u8,
}

impl CivilTime {
    /// The field ranges a calendar library reports: months and days count
    /// from 1, the time-of-day fields from 0. The year is unconstrained here;
    /// rendering additionally needs it to have at most four digits.
    pub open spec fn in_ranges(self) -> bool {
        &&& 1 <= self.month <= 12
        &&& 1 <= self.day <= 31
        &&& self.hour <= 23
        &&& self.minute <= 59
        &&& self.second <= 59
    }
}

/// The instants `chrono::DateTime::from_timestamp` accepts: the day count
/// must land in a calendar year -262143..=262142, which makes an interval of
/// seconds, and a nanosecond count past one billion (a leap second) is taken
/// only on a second-of-day ending in 59.
pub open spec fn in_chrono_range(secs: int, nanos: int) -> bool {
    &&& -8_334_601_228_800 <= secs <= 8_210_266_876_799
    &&& 0 <= nanos
    &&& (nanos < 1_000_000_000 || (nanos < 2_000_000_000 && secs % 60 == 59))
}

/// Instants whose civil year stays within 0..=9999 in every time zone: the
/// UTC year is 1..=9998 (the bounds are the instants starting years 1 and
/// 9999), and an offset moves the civil time by less than a day, so by at
/// most one year.
pub open spec fn local_year_safe(secs: int) -> bool {
    -62_135_596_800 <= secs < 253_370_764_800
}

/// Relies on chrono: `DateTime::from_timestamp` succeeds exactly on the
/// instants of [`in_chrono_range`] (its day count must fit calendar years
/// -262143..=262142, and its time-of-day constructor takes a leap-second
/// nanosecond count only on a 59th second); `with_timezone(&Local)`
/// re-expresses the same instant shifted by a fixed offset of less than one
/// day, so inside [`local_year_safe`] the local year keeps four digits; and
/// the `Datelike`/`Timelike` accessors return month 1..=12, day 1..=31, hour
/// 0..=23, minute 0..=59 and second 0..=59. Which civil time comes back
/// depends on the machine's time zone, so nothing more relates it to the
/// arguments here.
#[verifier::external_body]
fn local_civil_time(secs: i64, nanos: u32) -> (r: Option<CivilTime>)
    ensures
        r is Some <==> in_chrono_range(secs as int, nanos as int),
        r matches Some(c) ==> c.in_ranges(),
        local_year_safe(secs as int) ==> (r matches Some(c) ==> 0 <= c.year <= 9999),
{
    let utc = chrono::DateTime::from_timestamp(secs, nanos)?;
    let local = utc.with_timezone(&chrono::Local);
    Some(CivilTime {
        year: local.year(),
        month: local.month() as u8,
        day: local.day() as u8,
        hour: local.hour() as u8,
        minute: local.minute() as u8,
        second: local.second() as u8,
    })
}

/// The character for a single decimal digit.
pub open spec fn digit_char(d: int) -> char {
    ((d + 48) as u8) as char
}

/// A number below 100 as exactly two digits, zero-padded.
pub open spec fn two_digits(n: int) -> Seq<char> {
    seq![digit_char(n / 10), digit_char(n % 10)]
}

/// A number below 10000 as exactly four digits, zero-padded.
pub open spec fn four_digits(n: int) -> Seq<char> {
    seq![
        digit_char(n / 1000),
        digit_char((n / 100) % 10),
        digit_char((n / 10) % 10),
        digit_char(n % 10),
    ]
}

/// The rendered form of a civil time: `YYYY-MM-DD HH:MM:SS`.
pub open spec fn civil_text(c: CivilTime) -> Seq<char> {
    four_digits(c.year as int) + seq!['-'] + two_digits(c.month as int) + seq!['-'] + two_digits(
        c.day as int,
    ) + seq![' '] + two_digits(c.hour as int) + seq![':'] + two_digits(c.minute as int)
        + seq![':'] + two_digits(c.second as int)
}

/// One decimal digit as a string slice.
fn digit_str(d: u8) -> (s: &'static str)
    requires
        d < 10,
    ensures
        s@ == seq![digit_char(d as int)],
{
    proof {
        reveal_strlit("0");
        reveal_strlit("1");
        reveal_strlit("2");
        reveal_strlit("3");
        reveal_strlit("4");
        reveal_strlit("5");
        reveal_strlit("6");
        reveal_strlit("7");
        reveal_strlit("8");
        reveal_strlit("9");
    }
    match d {
        0 => "0",
        1 => "1",
        2 => "2",
        3 => "3",
        4 => "4",
        5 => "5",
        6 => "6",
        7 => "7",
        8 => "8",
        _ => "9",
    }
}

/// Append a number below 100 as two zero-padded digits.
fn push_two_digits(out: &mut String, n: u8)
    requires
        n < 100,
    ensures
        final(out)@ == old(out)@ + two_digits(n as int),
{
    out.append(digit_str(n / 10));
    out.append(digit_str(n % 10));
    proof {
        assert(final(out)@ =~= old(out)@ + two_digits(n as int));
    }
}

/// Render a civil time as `YYYY-MM-DD HH:MM:SS`, each field zero-padded to a
/// fixed width.
pub fn format_civil(c: &CivilTime) -> (s: String)
    requires
        c.in_ranges(),
        0 <= c.year <= 9999,
    ensures
        s@ == civil_text(*c),
{
    let mut out = String::new();
    out.append(digit_str((c.year / 1000) as u8));
    out.append(digit_str(((c.year / 100) % 10) as u8));
    out.append(digit_str(((c.year / 10) % 10) as u8));
    out.append(digit_str((c.year % 10) as u8));
    out.append("-");
    push_two_digits(&mut out, c.month);
    out.append("-");
    push_two_digits(&mut out, c.day);
    out.append(" ");
    push_two_digits(&mut out, c.hour);
    out.append(":");
    push_two_digits(&mut out, c.minute);
    out.append(":");
    push_two_digits(&mut out, c.second);
    proof {
        reveal_strlit("-");
        reveal_strlit(" ");
        reveal_strlit(":");
        assert(out@ =~= civil_text(*c));
    }
    out
}

/// Convert an epoch instant to the local time zone and render it. `None`
/// only when the instant lies outside the calendar's range or outside the
/// four year digits the rendering handles; inside [`local_year_safe`] the
/// rendering is guaranteed.
pub fn render_local_timestamp(secs: i64, nanos: u32) -> (r: Option<String>)
    ensures
        r matches Some(s) ==> exists|c: CivilTime|
            c.in_ranges() && 0 <= c.year <= 9999 && s@ == civil_text(c),
        r is Some ==> in_chrono_range(secs as int, nanos as int),
        local_year_safe(secs as int) && in_chrono_range(secs as int, nanos as int) ==> r is Some,
{
    match local_civil_time(secs, nanos) {
        None => None,
        Some(c) => {
            if 0 <= c.year && c.year <= 9999 {
                let s = format_civil(&c);
                Some(s)
            } else {
                None
            }
        },
    }
}

} // verus!
