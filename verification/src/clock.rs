//! Points in local time, read from the clock and written out by `chrono`.

use vstd::prelude::*;
use crate::numerals::{decimal, four_digits, two_digits};

verus! {

/// A calendar date and a time of day, to the second.
#[derive(Debug, Clone, Copy, PartialEq, Eq, Structural)]
pub struct Timestamp {
    pub year: i32,
    pub month: u32,
    pub day: u32,
    pub hour: u32,
    pub minute: u32,
    pub second: u32,
}

/// The first year that `chrono` has dates for.
pub const FIRST_YEAR: i32 = -262143;

/// The last year that `chrono` has dates for.
pub const LAST_YEAR: i32 = 262142;

/// Whether `year` of the proleptic Gregorian calendar has a 29th of February.
pub open spec fn is_leap_year(year: int) -> bool {
    year % 4 == 0 && (year % 100 != 0 || year % 400 == 0)
}

/// The number of days of `month` in `year`.
pub open spec fn days_in_month(year: int, month: int) -> int {
    if month == 2 {
        if is_leap_year(year) {
            29
        } else {
            28
        }
    } else if month == 4 || month == 6 || month == 9 || month == 11 {
        30
    } else {
        31
    }
}

/// A year as `chrono` writes it for `%Y`: in four digits from 0 to 9999, and
/// with a sign before at least four digits outside that range.
pub open spec fn year_text(year: int) -> Seq<char> {
    if 0 <= year <= 9999 {
        four_digits(year as nat)
    } else if year > 9999 {
        seq!['+'] + decimal(year as nat)
    } else {
        seq!['-'] + four_digits((-year) as nat)
    }
}

/// The pattern, in `chrono`'s notation, by which a point in time goes into a
/// file name.
pub open spec fn stamp_pattern() -> Seq<char> {
    "%Y-%m-%d-%H-%M-%S"@
}

impl Timestamp {
    /// Whether the fields name a day of the calendar, in a year that `chrono`
    /// has dates for, and a second of that day.
    pub open spec fn is_valid(self) -> bool {
        &&& FIRST_YEAR <= self.year <= LAST_YEAR
        &&& 1 <= self.month <= 12
        &&& 1 <= self.day <= days_in_month(self.year as int, self.month as int)
        &&& self.hour <= 23
        &&& self.minute <= 59
        &&& self.second <= 59
    }

    /// The point in time as it goes into a file name: year, month, day, hour,
    /// minute and second, with a hyphen between each two.
    pub open spec fn stamp_text(self) -> Seq<char> {
        year_text(self.year as int) + seq!['-'] + two_digits(self.month as int) + seq!['-']
            + two_digits(self.day as int) + seq!['-'] + two_digits(self.hour as int) + seq!['-']
            + two_digits(self.minute as int) + seq!['-'] + two_digits(self.second as int)
    }

    /// Whether the fields name a point in time.
    pub fn check(&self) -> (valid: bool)
        ensures
            valid == self.is_valid(),
    {
        if self.year < FIRST_YEAR || self.year > LAST_YEAR || self.month < 1 || self.month > 12
            || self.day < 1 || self.hour > 23 || self.minute > 59 || self.second > 59 {
            return false;
        }
        // 262400 years are a whole number of the calendar's cycles of 400.
        let shifted: u32 = (self.year + 262400) as u32;
        let leap = shifted % 4 == 0 && (shifted % 100 != 0 || shifted % 400 == 0);
        let days: u32 = if self.month == 2 {
            if leap {
                29
            } else {
                28
            }
        } else if self.month == 4 || self.month == 6 || self.month == 9 || self.month == 11 {
            30
        } else {
            31
        };
        self.day <= days
    }

    /// The point in time with these fields, if there is one.
    pub fn new(year: i32, month: u32, day: u32, hour: u32, minute: u32, second: u32) -> (made:
        Option<Timestamp>)
        ensures
            made == if (Timestamp { year, month, day, hour, minute, second }).is_valid() {
                Some(Timestamp { year, month, day, hour, minute, second })
            } else {
                None::<Timestamp>
            },
    {
        let made = Timestamp { year, month, day, hour, minute, second };
        if made.check() {
            Some(made)
        } else {
            None
        }
    }
}

/// Reads the local time from `chrono::Local::now`, to the second, through
/// `DateTime::naive_local` and the getters of `Datelike` and `Timelike`. Of
/// what the clock says only this is claimed: `chrono` holds nothing but days
/// of the calendar within its range of years, and its getters give an hour
/// below 24 and a minute and a second below 60. `chrono` panics where the
/// system's clock stands before 1970 or beyond that range.
#[verifier::external_body]
pub(crate) fn local_now() -> (now: Timestamp)
    ensures
        now.is_valid(),
{
    let now = chrono::Local::now().naive_local();
    Timestamp {
        year: chrono::Datelike::year(&now),
        month: chrono::Datelike::month(&now),
        day: chrono::Datelike::day(&now),
        hour: chrono::Timelike::hour(&now),
        minute: chrono::Timelike::minute(&now),
        second: chrono::Timelike::second(&now),
    }
}

/// Writes `at` out by `pattern` with `chrono::NaiveDateTime::format`, on the
/// value that `NaiveDate::from_ymd_opt` and `NaiveDate::and_hms_opt` make of
/// the fields. The claim is for the one pattern that this crate uses: `chrono`
/// then writes the year as [`year_text`] says and each other field in two
/// digits, and it has a value to write whenever the fields are valid. Nothing
/// is claimed for another pattern.
#[verifier::external_body]
pub(crate) fn format_timestamp(at: &Timestamp, pattern: &str) -> (text: Option<String>)
    ensures
        match text {
            Some(written) => at.is_valid() && pattern@ == stamp_pattern() ==> written@
                == at.stamp_text(),
            None => !(at.is_valid() && pattern@ == stamp_pattern()),
        },
{
    let date = chrono::NaiveDate::from_ymd_opt(at.year, at.month, at.day)?;
    let time = date.and_hms_opt(at.hour, at.minute, at.second)?;
    let mut text = String::new();
    match time.format(pattern).write_to(&mut text) {
        Ok(()) => Some(text),
        Err(_) => None,
    }
}

} // verus!
