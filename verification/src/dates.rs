//! Calendar dates as plain values: validity, the previous day, and RFC 3339
//! formatting at seconds precision. The current date comes from the system
//! clock through one trusted wrapper; everything computed from it is verified.

use crate::numfmt::{pad2_str, pad4_str, u64_to_pad2, u64_to_pad4};
use chrono::Datelike;
use vstd::prelude::*;
use vstd::string::*;

verus! {

/// A calendar date in the proleptic Gregorian calendar, held as plain fields.
#[derive(Clone, Copy, PartialEq, Eq, Structural, Debug)]
pub struct SimpleDate {
    pub year: u16,
    pub month: u8,
    pub day: u8,
}

/// Whether a year is a leap year.
pub open spec fn spec_is_leap_year(y: int) -> bool {
    y % 4 == 0 && (y % 100 != 0 || y % 400 == 0)
}

/// The number of days in a month of a year.
pub open spec fn spec_days_in_month(y: int, m: int) -> int {
    if m == 2 {
        if spec_is_leap_year(y) {
            29
        } else {
            28
        }
    } else if m == 4 || m == 6 || m == 9 || m == 11 {
        30
    } else {
        31
    }
}

/// A date the formatter accepts: a four-digit year and a day that exists in
/// its month.
pub open spec fn valid_date(d: SimpleDate) -> bool {
    &&& 1 <= d.year <= 9999
    &&& 1 <= d.month <= 12
    &&& 1 <= d.day <= spec_days_in_month(d.year as int, d.month as int)
}

/// The day before a date: the previous day of the month, or the last day of
/// the previous month, or December 31 of the previous year.
pub open spec fn spec_prev_day(d: SimpleDate) -> SimpleDate {
    if d.day > 1 {
        SimpleDate { year: d.year, month: d.month, day: (d.day - 1) as u8 }
    } else if d.month > 1 {
        SimpleDate {
            year: d.year,
            month: (d.month - 1) as u8,
            day: spec_days_in_month(d.year as int, d.month - 1) as u8,
        }
    } else {
        SimpleDate { year: (d.year - 1) as u16, month: 12, day: 31 }
    }
}

/// A date and a time of day, formatted as RFC 3339 in UTC at seconds
/// precision: "YYYY-MM-DDTHH:MM:SSZ".
pub open spec fn rfc3339_str(d: SimpleDate, h: nat, mi: nat, s: nat) -> Seq<char> {
    pad4_str(d.year as nat) + seq!['-'] + pad2_str(d.month as nat) + seq!['-'] + pad2_str(
        d.day as nat,
    ) + seq!['T'] + pad2_str(h) + seq![':'] + pad2_str(mi) + seq![':'] + pad2_str(s) + seq!['Z']
}

pub fn is_leap_year(y: u16) -> (r: bool)
    ensures
        r == spec_is_leap_year(y as int),
{
    y % 4 == 0 && (y % 100 != 0 || y % 400 == 0)
}

pub fn days_in_month(y: u16, m: u8) -> (r: u8)
    requires
        1 <= m <= 12,
    ensures
        r as int == spec_days_in_month(y as int, m as int),
{
    if m == 2 {
        if is_leap_year(y) {
            29
        } else {
            28
        }
    } else if m == 4 || m == 6 || m == 9 || m == 11 {
        30
    } else {
        31
    }
}

/// The day before a valid date; every date but the first one the calendar
/// holds has one, and it is itself valid.
pub fn prev_day(d: SimpleDate) -> (r: SimpleDate)
    requires
        valid_date(d),
        !(d.year == 1 && d.month == 1 && d.day == 1),
    ensures
        r == spec_prev_day(d),
        valid_date(r),
{
    if d.day > 1 {
        SimpleDate { year: d.year, month: d.month, day: d.day - 1 }
    } else if d.month > 1 {
        let pm = d.month - 1;
        SimpleDate { year: d.year, month: pm, day: days_in_month(d.year, pm) }
    } else {
        SimpleDate { year: d.year - 1, month: 12, day: 31 }
    }
}

/// Formats a date and a time of day as RFC 3339 in UTC at seconds precision.
pub fn rfc3339_utc(d: SimpleDate, h: u8, mi: u8, s: u8) -> (out: String)
    requires
        valid_date(d),
        h < 24,
        mi < 60,
        s < 60,
    ensures
        out@ == rfc3339_str(d, h as nat, mi as nat, s as nat),
{
    let mut out = u64_to_pad4(d.year as u64);
    let dash: &str = "-";
    let colon: &str = ":";
    proof {
        reveal_strlit("-");
        reveal_strlit(":");
        reveal_strlit("T");
        reveal_strlit("Z");
        assert(dash@ =~= seq!['-']);
        assert(colon@ =~= seq![':']);
        assert("T"@ =~= seq!['T']);
        assert("Z"@ =~= seq!['Z']);
    }
    out.append(dash);
    let mm = u64_to_pad2(d.month as u64);
    out.append(mm.as_str());
    out.append(dash);
    let dd = u64_to_pad2(d.day as u64);
    out.append(dd.as_str());
    out.append("T");
    let hh = u64_to_pad2(h as u64);
    out.append(hh.as_str());
    out.append(colon);
    let mins = u64_to_pad2(mi as u64);
    out.append(mins.as_str());
    out.append(colon);
    let ss = u64_to_pad2(s as u64);
    out.append(ss.as_str());
    out.append("Z");
    proof {
        assert(out@ =~= rfc3339_str(d, h as nat, mi as nat, s as nat));
    }
    out
}

/// Relies on chrono::Utc::now and chrono::Datelike: the month of the current
/// date is between 1 and 12 and its day of month between 1 and 31, as the
/// trait documents. Nothing else is assumed of the clock.
#[verifier::external_body]
fn now_utc_ymd() -> (r: (i64, u8, u8))
    ensures
        1 <= r.1 <= 12,
        1 <= r.2 <= 31,
{
    let now = chrono::Utc::now().date_naive();
    (now.year() as i64, now.month() as u8, now.day() as u8)
}

/// Builds a date from plain fields, exactly when they name a day the
/// calendar holds within the formatter's four-digit-year range.
pub fn date_from_ymd(y: i64, m: u8, d: u8) -> (r: Option<SimpleDate>)
    ensures
        r is Some <==> 1 <= y <= 9999 && 1 <= m <= 12 && 1 <= d && d as int <= spec_days_in_month(
            y as int,
            m as int,
        ),
        r matches Some(date) ==> date == (SimpleDate { year: y as u16, month: m, day: d })
            && valid_date(date),
{
    if 1 <= y && y <= 9999 && 1 <= m && m <= 12 && 1 <= d {
        let yy: u16 = y as u16;
        let dim = days_in_month(yy, m);
        if d <= dim {
            Some(SimpleDate { year: yy, month: m, day: d })
        } else {
            None
        }
    } else {
        None
    }
}

/// The current UTC date, when it lies in the four-digit-year range the
/// formatter accepts. The range and day-of-month checks stand in
/// `date_from_ymd` on the library side, so only the documented field ranges
/// are assumed of the clock.
pub fn today_utc() -> (r: Option<SimpleDate>)
    ensures
        r matches Some(d) ==> valid_date(d),
{
    let (y, m, d) = now_utc_ymd();
    date_from_ymd(y, m, d)
}

} // verus!
