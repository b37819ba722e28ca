//! Calendar dates of journeys, read from text through chrono.
use vstd::prelude::*;
use chrono::Datelike;
use crate::text::{decimal, two_digit};

verus! {

/// Whether `year` is a leap year of the proleptic Gregorian calendar.
pub open spec fn is_leap_year(year: int) -> bool {
    (year % 4 == 0 && year % 100 != 0) || year % 400 == 0
}

/// The number of days of `month` (1 to 12) in `year`.
pub open spec fn days_in_month(year: int, month: int) -> int {
    if month == 2 {
        if is_leap_year(year) { 29 } else { 28 }
    } else if month == 4 || month == 6 || month == 9 || month == 11 {
        30
    } else {
        31
    }
}

/// Whether year, month and day name a real calendar date within the range
/// of dates that chrono represents.
pub open spec fn is_valid_date(year: int, month: int, day: int) -> bool {
    &&& -262143 <= year <= 262142
    &&& 1 <= month <= 12
    &&& 1 <= day <= days_in_month(year, month)
}

/// A journey date: a calendar date given by year, month (1 to 12) and day
/// of the month.
#[derive(Clone, Copy, Debug, PartialEq, Eq, Structural)]
pub struct JourneyDate {
    pub year: i32,
    pub month: u32,
    pub day: u32,
}

impl JourneyDate {
    /// The date as a triple of year, month and day.
    pub open spec fn ymd(self) -> (int, int, int) {
        (self.year as int, self.month as int, self.day as int)
    }

    /// Whether the date is a real calendar date.
    pub open spec fn valid(self) -> bool {
        is_valid_date(self.year as int, self.month as int, self.day as int)
    }
}

/// What chrono's `NaiveDate::parse_from_str` gives for `text` under the
/// format `fmt`: the date as year, month and day, or the text of its error.
pub uninterp spec fn chrono_date_outcome(text: Seq<char>, fmt: Seq<char>) -> Result<(int, int, int), Seq<char>>;

/// Whether a date is a real calendar date whose year has four digits.
pub open spec fn four_digit_date(w: JourneyDate) -> bool {
    1000 <= w.year <= 9999 && w.valid()
}

/// A date written day first: two-digit day and month and the year's digits,
/// separated by hyphens (as chrono's `%d-%m-%Y` writes a four-digit year).
pub open spec fn dmy_text(w: JourneyDate) -> Seq<char> {
    two_digit(w.day as nat) + "-"@ + two_digit(w.month as nat) + "-"@ + decimal(w.year as nat)
}

/// A date written year first: the year's digits and two-digit month and day,
/// separated by hyphens (as chrono's `%Y-%m-%d` writes a four-digit year).
pub open spec fn ymd_text(w: JourneyDate) -> Seq<char> {
    decimal(w.year as nat) + "-"@ + two_digit(w.month as nat) + "-"@ + two_digit(w.day as nat)
}

/// Reads a date from `text` with chrono's `NaiveDate::parse_from_str` under the
/// format `fmt`.  Trusted: the outcome is chrono's (named `chrono_date_outcome`,
/// the error given by the text of its `ParseError`), and a date chrono returns
/// is a real calendar date within chrono's year range.  Of dates with
/// four-digit years it is also claimed, as chrono's parser reads `%d` and
/// `%m` as one or two digits, `%Y` (unsigned) as one to four digits, the
/// hyphens literally and the whole text: a day-first text reads under
/// `%d-%m-%Y` as its date, a year-first text reads under `%Y-%m-%d` as its
/// date, and a year-first text does not read under `%d-%m-%Y` (the hyphen
/// after the day is missing).
#[verifier::external_body]
pub(crate) fn parse_date(text: &str, fmt: &str) -> (r: Result<JourneyDate, String>)
    ensures
        r is Ok ==> chrono_date_outcome(text@, fmt@) == Ok::<(int, int, int), Seq<char>>(r->Ok_0.ymd()),
        r is Ok ==> r->Ok_0.valid(),
        r is Err ==> chrono_date_outcome(text@, fmt@) == Err::<(int, int, int), Seq<char>>(r->Err_0@),
        forall|w: JourneyDate|
            four_digit_date(w) && text@ == #[trigger] dmy_text(w) && fmt@ == "%d-%m-%Y"@ ==> r is Ok && r->Ok_0 == w,
        forall|w: JourneyDate|
            four_digit_date(w) && text@ == #[trigger] ymd_text(w) && fmt@ == "%Y-%m-%d"@ ==> r is Ok && r->Ok_0 == w,
        forall|w: JourneyDate| four_digit_date(w) && text@ == #[trigger] ymd_text(w) && fmt@ == "%d-%m-%Y"@ ==> r is Err,
{
    match chrono::NaiveDate::parse_from_str(text, fmt) {
        Ok(d) => Ok(JourneyDate { year: d.year(), month: d.month(), day: d.day() }),
        Err(e) => Err(e.to_string()),
    }
}

} // verus!
