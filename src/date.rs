//! Calendar dates as plain year, month and day.
use chrono::NaiveDate;
use vstd::prelude::*;

verus! {

#[verifier::external_type_specification]
#[verifier::external_body]
pub struct ExNaiveDate(NaiveDate);

pub open spec fn is_leap_year(y: int) -> bool {
    (y % 4 == 0 && y % 100 != 0) || y % 400 == 0
}

pub open spec fn days_in_month(y: int, m: int) -> int {
    if m == 2 {
        if is_leap_year(y) { 29 } else { 28 }
    } else if m == 4 || m == 6 || m == 9 || m == 11 {
        30
    } else {
        31
    }
}

/// A day of the proleptic Gregorian calendar with a four-digit year.
pub open spec fn valid_ymd(y: int, m: int, d: int) -> bool {
    &&& 0 <= y <= 9999
    &&& 1 <= m <= 12
    &&& 1 <= d <= days_in_month(y, m)
}

/// Relies on chrono's NaiveDate::from_ymd_opt: `Some` exactly for a day that
/// exists in the proleptic Gregorian calendar (years 0 to 9999 lie within
/// chrono's range).
pub assume_specification[ NaiveDate::from_ymd_opt ](year: i32, month: u32, day: u32) -> (r:
    Option<NaiveDate>)
    ensures
        0 <= year <= 9999 ==> (r is Some <==> valid_ymd(year as int, month as int, day as int)),
;

pub open spec fn digit(n: int) -> char {
    (('0' as int) + n) as char
}

pub open spec fn two_digits(n: int) -> Seq<char> {
    seq![digit(n / 10), digit(n % 10)]
}

pub open spec fn four_digits(n: int) -> Seq<char> {
    seq![digit(n / 1000), digit((n / 100) % 10), digit((n / 10) % 10), digit(n % 10)]
}

/// `DD-MM-YYYY`, each part zero-padded.
pub open spec fn dmy_text(y: int, m: int, d: int) -> Seq<char> {
    two_digits(d) + seq!['-'] + two_digits(m) + seq!['-'] + four_digits(y)
}

/// Relies on chrono's `%d-%m-%Y` format of a NaiveDate: day and month as two
/// zero-padded digits, a year from 0 to 9999 as four zero-padded digits.
#[verifier::external_body]
fn chrono_dmy(year: i32, month: u32, day: u32) -> (r: String)
    requires
        valid_ymd(year as int, month as int, day as int),
    ensures
        r@ == dmy_text(year as int, month as int, day as int),
{
    NaiveDate::from_ymd_opt(year, month, day).expect("checked date").format("%d-%m-%Y").to_string()
}

/// A calendar date; the fields always name an existing day.
#[derive(Clone, Copy, Debug, PartialEq, Eq, Structural)]
pub struct Date {
    pub year: i32,
    pub month: u32,
    pub day: u32,
}

impl Date {
    pub open spec fn wf(&self) -> bool {
        valid_ymd(self.year as int, self.month as int, self.day as int)
    }

    /// The date of the given year, month and day, or `None` where no such
    /// day exists or the year has more than four digits.
    pub fn from_ymd(year: i32, month: u32, day: u32) -> (r: Option<Date>)
        ensures
            r is Some <==> valid_ymd(year as int, month as int, day as int),
            r matches Some(d) ==> d.wf() && d.year == year && d.month == month && d.day
                == day,
    {
        if year < 0 || year > 9999 {
            return None;
        }
        match NaiveDate::from_ymd_opt(year, month, day) {
            Some(_) => Some(Date { year, month, day }),
            None => None,
        }
    }

    pub open spec fn text(&self) -> Seq<char> {
        dmy_text(self.year as int, self.month as int, self.day as int)
    }

    /// The date as `DD-MM-YYYY`.
    pub fn format_dmy(&self) -> (r: String)
        requires
            self.wf(),
        ensures
            r@ == self.text(),
    {
        chrono_dmy(self.year, self.month, self.day)
    }
}

} // verus!
