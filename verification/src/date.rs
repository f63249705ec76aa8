//! Calendar dates for request construction.
//!
//! A provider queries availability starting from the day after the current
//! local day. The successor computation and the `YYYY-MM-DD` formatting are
//! verified; only reading the local clock is trusted.

use crate::text::digit_char;
use crate::text::push_digit;
use vstd::prelude::*;

verus! {

/// A calendar date in the proleptic Gregorian calendar.
#[derive(Clone, Copy, PartialEq, Eq, Structural, Debug)]
pub struct Date {
    pub year: u16,
    pub month: u8,
    pub day: u8,
}

/// Whether the year is a leap year.
pub open spec fn spec_is_leap_year(y: int) -> bool {
    (y % 4 == 0 && y % 100 != 0) || y % 400 == 0
}

/// How many days the month of that year has.
pub open spec fn spec_days_in_month(y: int, m: int) -> int
    recommends
        1 <= m <= 12,
{
    if m == 2 {
        if spec_is_leap_year(y) {
            29
        } else {
            28
        }
    } else if m == 4 || m == 6 || m == 9 || m == 11 {
        30
    } else {
        31
    }
}

impl Date {
    /// A real calendar day whose year has four decimal digits.
    pub open spec fn wf(&self) -> bool {
        &&& 1 <= self.year <= 9999
        &&& 1 <= self.month <= 12
        &&& 1 <= self.day <= spec_days_in_month(self.year as int, self.month as int)
    }

    /// The date of the following day.
    pub open spec fn spec_next(&self) -> Date {
        if self.day < spec_days_in_month(self.year as int, self.month as int) {
            Date { year: self.year, month: self.month, day: (self.day + 1) as u8 }
        } else if self.month < 12 {
            Date { year: self.year, month: (self.month + 1) as u8, day: 1 }
        } else {
            Date { year: (self.year + 1) as u16, month: 1, day: 1 }
        }
    }

    /// The ten characters `YYYY-MM-DD`, zero padded.
    pub open spec fn spec_ymd(&self) -> Seq<char> {
        let y = self.year as int;
        let m = self.month as int;
        let d = self.day as int;
        seq![
            digit_char(y / 1000 % 10),
            digit_char(y / 100 % 10),
            digit_char(y / 10 % 10),
            digit_char(y % 10),
            '-',
            digit_char(m / 10 % 10),
            digit_char(m % 10),
            '-',
            digit_char(d / 10 % 10),
            digit_char(d % 10),
        ]
    }

    /// Whether the year is a leap year.
    pub fn is_leap_year(&self) -> (r: bool)
        ensures
            r == spec_is_leap_year(self.year as int),
    {
        (self.year % 4 == 0 && self.year % 100 != 0) || self.year % 400 == 0
    }

    /// How many days this date's month has.
    pub fn days_in_month(&self) -> (n: u8)
        requires
            1 <= self.month <= 12,
        ensures
            n as int == spec_days_in_month(self.year as int, self.month as int),
    {
        if self.month == 2 {
            if self.is_leap_year() {
                29
            } else {
                28
            }
        } else if self.month == 4 || self.month == 6 || self.month == 9 || self.month == 11 {
            30
        } else {
            31
        }
    }

    /// The following day. Well-formedness is preserved; the result is
    /// strictly later in year-month-day order.
    pub fn next_day(&self) -> (r: Date)
        requires
            self.wf(),
            self.year <= 9998,
        ensures
            r == self.spec_next(),
            r.wf(),
    {
        let last = self.days_in_month();
        if self.day < last {
            Date { year: self.year, month: self.month, day: self.day + 1 }
        } else if self.month < 12 {
            Date { year: self.year, month: self.month + 1, day: 1 }
        } else {
            Date { year: self.year + 1, month: 1, day: 1 }
        }
    }

    /// Appends this date as `YYYY-MM-DD` to `out`.
    pub fn push_ymd(&self, out: &mut String)
        requires
            self.wf(),
        ensures
            final(out)@ == old(out)@ + self.spec_ymd(),
    {
        let y = self.year;
        push_digit(out, (y / 1000 % 10) as u8);
        push_digit(out, (y / 100 % 10) as u8);
        push_digit(out, (y / 10 % 10) as u8);
        push_digit(out, (y % 10) as u8);
        crate::text::push_char(out, '-');
        push_digit(out, self.month / 10 % 10);
        push_digit(out, self.month % 10);
        crate::text::push_char(out, '-');
        push_digit(out, self.day / 10 % 10);
        push_digit(out, self.day % 10);
        proof {
            assert(out@ =~= old(out)@ + self.spec_ymd());
        }
    }
}

/// Relies on `chrono::Local::now` and the `chrono::Datelike` accessors
/// `year`, `month` and `day`: the month number ranges over 1 to 12 and the
/// day of month over 1 to 31. `chrono` aborts on a system clock that reads
/// before the Unix epoch, so that case is tested first and handed back as
/// year 0, which `date_from_reading` rejects. The residual trust is the
/// local-offset lookup, which can still abort on a broken timezone
/// database.
#[verifier::external_body]
fn local_now_ymd() -> (r: (i64, u8, u8))
    ensures
        1 <= r.1 <= 12,
        1 <= r.2 <= 31,
{
    let pre_epoch = std::time::SystemTime::now().duration_since(
        std::time::UNIX_EPOCH,
    ).is_err();
    if pre_epoch {
        return (0, 1, 1);
    }
    let now = chrono::Local::now();
    let date = now.date_naive();
    let y = chrono::Datelike::year(&date) as i64;
    let m = chrono::Datelike::month(&date) as u8;
    let d = chrono::Datelike::day(&date) as u8;
    (y, m, d)
}

/// Turns one clock reading into a calendar day: accepted exactly when it
/// is a well-formed date early enough that the following day still has a
/// four-digit year, and then it is that date, unchanged.
pub fn date_from_reading(y: i64, m: u8, d: u8) -> (r: Option<Date>)
    ensures
        r is Some <==> (1 <= y <= 9998 && 1 <= m <= 12 && 1 <= d && d as int
            <= spec_days_in_month(y as int, m as int)),
        r is Some ==> r->0 == (Date { year: y as u16, month: m, day: d }),
{
    if y < 1 || y > 9998 || m < 1 || m > 12 {
        return None;
    }
    let date = Date { year: y as u16, month: m, day: d };
    if 1 <= d && d <= date.days_in_month() {
        Some(date)
    } else {
        None
    }
}

/// The day after the current local calendar day, if the clock reads as a
/// well-formed date with a four-digit year. A search asks for
/// availability starting tomorrow.
pub fn tomorrow_local() -> (r: Option<Date>)
    ensures
        r is Some ==> r->0.wf(),
{
    match today_local() {
        Some(today) => Some(today.next_day()),
        None => None,
    }
}

/// The current local calendar day, if the clock reads as a well-formed date
/// early enough that the following day still has a four-digit year.
pub fn today_local() -> (r: Option<Date>)
    ensures
        r is Some ==> r->0.wf() && r->0.year <= 9998,
{
    let (y, m, d) = local_now_ymd();
    date_from_reading(y, m, d)
}

} // verus!
