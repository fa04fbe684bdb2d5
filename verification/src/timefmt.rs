//! Timestamp-derived names.
//!
//! Each committed record becomes an archive group named by its capture
//! timestamp at nanosecond precision, and each session file is named by the
//! instant it was opened.  The time of day is plain arithmetic on the
//! nanosecond count and is computed here in verified code; the calendar
//! date comes from the calendar arithmetic of the `chrono` crate behind one
//! trusted wrapper.

use vstd::prelude::*;
use chrono::Datelike;
use crate::clock;

verus! {

pub const NANOS_PER_SECOND: u64 = 1_000_000_000;

pub const NANOS_PER_MIN: u64 = 60_000_000_000;

pub const NANOS_PER_HOUR: u64 = 3_600_000_000_000;

/// The decimal digit `d` as a character.
pub open spec fn spec_digit_char(d: int) -> char {
    if d == 0 {
        '0'
    } else if d == 1 {
        '1'
    } else if d == 2 {
        '2'
    } else if d == 3 {
        '3'
    } else if d == 4 {
        '4'
    } else if d == 5 {
        '5'
    } else if d == 6 {
        '6'
    } else if d == 7 {
        '7'
    } else if d == 8 {
        '8'
    } else {
        '9'
    }
}

fn digit_str(d: u64) -> (s: &'static str)
    requires
        d < 10,
    ensures
        s@ == seq![spec_digit_char(d as int)],
{
    proof {
        reveal_strlit("0");
        reveal_strlit("1");
        reveal_strlit("2");
        reveal_strlit("3");
        reveal_strlit("4");
        reveal_strlit("5");
        reveal_strlit("6");
        reveal_strlit("7");
        reveal_strlit("8");
        reveal_strlit("9");
    }
    let s: &'static str = match d {
        0 => "0",
        1 => "1",
        2 => "2",
        3 => "3",
        4 => "4",
        5 => "5",
        6 => "6",
        7 => "7",
        8 => "8",
        _ => "9",
    };
    proof {
        assert(s@ =~= seq![spec_digit_char(d as int)]);
    }
    s
}

/// The last `width` decimal digits of `v`, zero-padded: the fixed-width
/// decimal rendering used in every timestamp-derived name.
pub open spec fn spec_padded(v: int, width: nat) -> Seq<char>
    decreases width,
{
    if width == 0 {
        Seq::empty()
    } else {
        spec_padded(v / 10, (width - 1) as nat) + seq![spec_digit_char(v % 10)]
    }
}

/// Renders `v` as exactly `width` zero-padded decimal digits.
pub fn decimal_padded(v: u64, width: usize) -> (s: String)
    ensures
        s@ == spec_padded(v as int, width as nat),
        s@.len() == width,
    decreases width,
{
    if width == 0 {
        let s = String::new();
        proof {
            assert(s@ =~= spec_padded(v as int, 0));
        }
        s
    } else {
        let mut s = decimal_padded(v / 10, width - 1);
        s.append(digit_str(v % 10));
        s
    }
}

/// The calendar date (year, month, day) of a wall-clock instant, as the
/// proleptic Gregorian calendar of UTC gives it.  The calendar arithmetic
/// lives in the `chrono` crate; this name stands for its result.
pub uninterp spec fn civil_date_of(nanos: u64) -> (u64, u64, u64);

/// Relies on chrono's `DateTime::<Utc>::from_timestamp_nanos` and the
/// `Datelike` accessors `year`, `month` and `day`: the calendar date is a
/// function of the timestamp alone; `month` ranges over 1 to 12 and `day`
/// over 1 to 31 by documentation, and for a non-negative 64-bit nanosecond
/// timestamp the year lies between 1970 and 2262.
#[verifier::external_body]
fn civil_date_utc(nanos: u64) -> (ymd: (u64, u64, u64))
    requires
        nanos <= i64::MAX as u64,
    ensures
        ymd == civil_date_of(nanos),
        1970 <= ymd.0 <= 2262,
        1 <= ymd.1 <= 12,
        1 <= ymd.2 <= 31,
{
    let date = chrono::DateTime::from_timestamp_nanos(nanos as i64);
    (date.year() as u64, date.month() as u64, date.day() as u64)
}

/// Hour of the day at `nanos`.
pub open spec fn spec_hour_of(nanos: u64) -> int {
    nanos as int % clock::NANOS_PER_DAY as int / NANOS_PER_HOUR as int
}

/// Minute of the hour at `nanos`.
pub open spec fn spec_minute_of(nanos: u64) -> int {
    nanos as int % NANOS_PER_HOUR as int / NANOS_PER_MIN as int
}

/// Second of the minute at `nanos`.
pub open spec fn spec_second_of(nanos: u64) -> int {
    nanos as int % NANOS_PER_MIN as int / NANOS_PER_SECOND as int
}

/// Nanosecond within the second at `nanos`.
pub open spec fn spec_subsec_of(nanos: u64) -> int {
    nanos as int % NANOS_PER_SECOND as int
}

/// The date-and-time prefix shared by record labels and session file
/// names: `yyyy-mm-dd hh:mm:ss` of the instant.
pub open spec fn spec_date_time_prefix(nanos: u64) -> Seq<char> {
    spec_padded(civil_date_of(nanos).0 as int, 4) + "-"@
        + spec_padded(civil_date_of(nanos).1 as int, 2) + "-"@
        + spec_padded(civil_date_of(nanos).2 as int, 2) + " "@
        + spec_padded(spec_hour_of(nanos), 2) + ":"@
        + spec_padded(spec_minute_of(nanos), 2) + ":"@
        + spec_padded(spec_second_of(nanos), 2)
}

/// The archive group name of a record captured at `nanos`: the prefix plus
/// the nanosecond fraction, nine digits.
pub open spec fn spec_record_label(nanos: u64) -> Seq<char> {
    spec_date_time_prefix(nanos) + "."@ + spec_padded(spec_subsec_of(nanos), 9)
}

/// The file name of a session opened at `nanos`.
pub open spec fn spec_session_name(nanos: u64) -> Seq<char> {
    spec_date_time_prefix(nanos) + ".h5"@
}

fn date_time_prefix(nanos: u64) -> (s: String)
    requires
        nanos <= i64::MAX as u64,
    ensures
        s@ == spec_date_time_prefix(nanos),
{
    let ymd = civil_date_utc(nanos);
    let mut s = decimal_padded(ymd.0, 4);
    s.append("-");
    let part = decimal_padded(ymd.1, 2);
    s.append(part.as_str());
    s.append("-");
    let part = decimal_padded(ymd.2, 2);
    s.append(part.as_str());
    s.append(" ");
    let part = decimal_padded(nanos % clock::NANOS_PER_DAY / NANOS_PER_HOUR, 2);
    s.append(part.as_str());
    s.append(":");
    let part = decimal_padded(nanos % NANOS_PER_HOUR / NANOS_PER_MIN, 2);
    s.append(part.as_str());
    s.append(":");
    let part = decimal_padded(nanos % NANOS_PER_MIN / NANOS_PER_SECOND, 2);
    s.append(part.as_str());
    proof {
        assert(s@ =~= spec_date_time_prefix(nanos));
    }
    s
}

/// Builds the archive group name of a record captured at `nanos`.
pub fn record_label(nanos: u64) -> (s: String)
    requires
        nanos <= i64::MAX as u64,
    ensures
        s@ == spec_record_label(nanos),
{
    let mut s = date_time_prefix(nanos);
    s.append(".");
    let frac = decimal_padded(nanos % NANOS_PER_SECOND, 9);
    s.append(frac.as_str());
    proof {
        assert(s@ =~= spec_record_label(nanos));
    }
    s
}

/// Builds the file name of a session opened at `nanos`.
pub fn session_file_name(nanos: u64) -> (s: String)
    requires
        nanos <= i64::MAX as u64,
    ensures
        s@ == spec_session_name(nanos),
{
    let mut s = date_time_prefix(nanos);
    s.append(".h5");
    s
}

} // verus!
