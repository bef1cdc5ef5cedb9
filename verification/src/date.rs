//! Calendar dates of the proleptic Gregorian calendar.

use crate::text::{decimal_digits, digit_char};
use chrono::Datelike;
use chrono::NaiveDate;
use chrono::Utc;
use vstd::prelude::*;

verus! {

/// The first year that a date can lie in.
pub const MIN_YEAR: i32 = -262143;

/// The last year that a date can lie in.
pub const MAX_YEAR: i32 = 262142;

/// Whether `year` has a 29th of February.
pub open spec fn is_leap_year(year: int) -> bool {
    year % 4 == 0 && (year % 100 != 0 || year % 400 == 0)
}

/// The number of days of `month` in `year`; 0 where there is no such month.
pub open spec fn days_in_month(year: int, month: int) -> int {
    if month == 2 {
        if is_leap_year(year) {
            29
        } else {
            28
        }
    } else if month == 4 || month == 6 || month == 9 || month == 11 {
        30
    } else if 1 <= month <= 12 {
        31
    } else {
        0
    }
}

/// Whether the calendar has the day `day` of `month` in `year`.
pub open spec fn valid_ymd(year: int, month: int, day: int) -> bool {
    MIN_YEAR <= year <= MAX_YEAR && 1 <= month <= 12 && 1 <= day <= days_in_month(year, month)
}

/// The number of days in the months of `year` that come before `month`.
pub open spec fn days_before_month(year: int, month: int) -> int
    decreases month,
{
    if month <= 1 {
        0
    } else {
        days_before_month(year, month - 1) + days_in_month(year, month - 1)
    }
}

/// The number of days in the years from year 1 up to, and without, `year`
/// (negative before year 1).
pub open spec fn days_before_year(year: int) -> int {
    365 * (year - 1) + (year - 1) / 4 - (year - 1) / 100 + (year - 1) / 400
}

/// A date as the calendar writes it.
pub struct CivilDate {
    pub year: int,
    pub month: int,
    pub day: int,
}

impl CivilDate {
    /// Whether the calendar has this day.
    pub open spec fn valid(self) -> bool {
        valid_ymd(self.year, self.month, self.day)
    }

    /// The number of the day, counted from 1 January of year 1, which is day 1.
    pub open spec fn day_number(self) -> int {
        days_before_year(self.year) + days_before_month(self.year, self.month) + self.day
    }
}

/// The number of days of `year`.
pub open spec fn days_in_year(year: int) -> int {
    if is_leap_year(year) {
        366
    } else {
        365
    }
}

/// Whether `a` is an earlier day of the calendar than `b`.
pub open spec fn comes_before(a: CivilDate, b: CivilDate) -> bool {
    a.year < b.year || (a.year == b.year && (a.month < b.month || (a.month == b.month && a.day
        < b.day)))
}

impl CivilDate {
    /// The day after this one.
    pub open spec fn next(self) -> CivilDate {
        if self.day < days_in_month(self.year, self.month) {
            CivilDate { day: self.day + 1, ..self }
        } else if self.month < 12 {
            CivilDate { year: self.year, month: self.month + 1, day: 1 }
        } else {
            CivilDate { year: self.year + 1, month: 1, day: 1 }
        }
    }
}

/// The days before a month are those of the months before it: none before
/// January, 31 before February, and so on to the 334 or 335 before December.
pub proof fn lemma_days_before_month(year: int, month: int)
    requires
        1 <= month <= 12,
    ensures
        days_before_month(year, month) == (if month == 1 {
            0int
        } else if month == 2 {
            31
        } else {
            (if is_leap_year(year) {
                1int
            } else {
                0
            }) + (if month == 3 {
                59int
            } else if month == 4 {
                90
            } else if month == 5 {
                120
            } else if month == 6 {
                151
            } else if month == 7 {
                181
            } else if month == 8 {
                212
            } else if month == 9 {
                243
            } else if month == 10 {
                273
            } else if month == 11 {
                304
            } else {
                334
            })
        }),
        days_before_month(year, month) + days_in_month(year, month) <= days_in_year(year),
    decreases month,
{
    if month > 1 {
        lemma_days_before_month(year, month - 1);
    }
}

/// A year begins as many days after the one before it as that year has.
pub proof fn lemma_year_length(year: int)
    ensures
        days_before_year(year + 1) == days_before_year(year) + days_in_year(year),
{
}

/// A later year begins after all the days of an earlier one.
pub proof fn lemma_years_apart(earlier: int, later: int)
    requires
        earlier < later,
    ensures
        days_before_year(later) >= days_before_year(earlier) + days_in_year(earlier),
    decreases later - earlier,
{
    lemma_year_length(earlier);
    if earlier + 1 < later {
        lemma_years_apart(earlier + 1, later);
    }
}

/// The day numbers count the days: the day after a day has the next number.
pub proof fn lemma_next_day(date: CivilDate)
    requires
        date.valid(),
    ensures
        date.next().day_number() == date.day_number() + 1,
        date.year < MAX_YEAR ==> date.next().valid(),
{
    lemma_days_before_month(date.year, date.month);
    if date.day < days_in_month(date.year, date.month) {
    } else if date.month < 12 {
        lemma_days_before_month(date.year, date.month + 1);
    } else {
        lemma_year_length(date.year);
        lemma_days_before_month(date.year + 1, 1);
    }
}

/// The day numbers follow the calendar: an earlier day has a smaller number,
/// and two days with one number are one day.
pub proof fn lemma_day_number_order(a: CivilDate, b: CivilDate)
    requires
        a.valid(),
        b.valid(),
    ensures
        comes_before(a, b) <==> a.day_number() < b.day_number(),
        a == b <==> a.day_number() == b.day_number(),
{
    lemma_days_before_month(a.year, a.month);
    lemma_days_before_month(b.year, b.month);
    if a.year < b.year {
        lemma_years_apart(a.year, b.year);
    } else if b.year < a.year {
        lemma_years_apart(b.year, a.year);
    }
}

/// The digits of a day or a month: two of them, with a leading zero below ten.
pub open spec fn two_digits(n: int) -> Seq<char> {
    seq![digit_char(n / 10), digit_char(n % 10)]
}

/// The digits of a year without its sign: at least four, with leading zeros.
pub open spec fn year_digits(magnitude: nat) -> Seq<char> {
    if magnitude < 10000 {
        two_digits(magnitude as int / 100) + two_digits(magnitude as int % 100)
    } else {
        decimal_digits(magnitude)
    }
}

/// A year as it is written: four digits from 0 to 9999, and a sign in front
/// of the digits outside that range.
pub open spec fn year_text(year: int) -> Seq<char> {
    if year < 0 {
        seq!['-'] + year_digits((-year) as nat)
    } else if year > 9999 {
        seq!['+'] + year_digits(year as nat)
    } else {
        year_digits(year as nat)
    }
}

/// The three letters that stand for a month.
pub open spec fn month_abbreviation(month: int) -> Seq<char> {
    if month == 1 {
        seq!['J', 'a', 'n']
    } else if month == 2 {
        seq!['F', 'e', 'b']
    } else if month == 3 {
        seq!['M', 'a', 'r']
    } else if month == 4 {
        seq!['A', 'p', 'r']
    } else if month == 5 {
        seq!['M', 'a', 'y']
    } else if month == 6 {
        seq!['J', 'u', 'n']
    } else if month == 7 {
        seq!['J', 'u', 'l']
    } else if month == 8 {
        seq!['A', 'u', 'g']
    } else if month == 9 {
        seq!['S', 'e', 'p']
    } else if month == 10 {
        seq!['O', 'c', 't']
    } else if month == 11 {
        seq!['N', 'o', 'v']
    } else {
        seq!['D', 'e', 'c']
    }
}

/// The pattern of a date in digits: day, month and year with hyphens between.
pub open spec fn numeric_pattern() -> Seq<char> {
    seq!['%', 'd', '-', '%', 'm', '-', '%', 'Y']
}

/// The pattern of a date with the month in letters: day, month and year
/// with spaces between.
pub open spec fn lettered_pattern() -> Seq<char> {
    seq!['%', 'd', ' ', '%', 'b', ' ', '%', 'Y']
}

/// A date written after one of the two patterns.
pub open spec fn formatted(date: CivilDate, pattern: Seq<char>) -> Seq<char> {
    if pattern == numeric_pattern() {
        two_digits(date.day) + seq!['-'] + two_digits(date.month) + seq!['-'] + year_text(
            date.year,
        )
    } else {
        two_digits(date.day) + seq![' '] + month_abbreviation(date.month) + seq![' '] + year_text(
            date.year,
        )
    }
}

/// A calendar date without a time of day. Every value is a day that exists.
#[derive(Clone, Copy, Debug, PartialEq, Eq, Structural)]
pub struct Date {
    year: i32,
    month: u32,
    day: u32,
}

impl View for Date {
    type V = CivilDate;

    closed spec fn view(&self) -> CivilDate {
        CivilDate { year: self.year as int, month: self.month as int, day: self.day as int }
    }
}

/// Calls `chrono::NaiveDate::from_ymd_opt` and tells whether it gave a date.
///
/// Taken on trust: it gives a date exactly for the days that [`valid_ymd`]
/// describes, the days of the proleptic Gregorian calendar in the years
/// from [`MIN_YEAR`] to [`MAX_YEAR`].
#[verifier::external_body]
fn ymd_exists(year: i32, month: u32, day: u32) -> (b: bool)
    ensures
        b == valid_ymd(year as int, month as int, day as int),
{
    NaiveDate::from_ymd_opt(year, month, day).is_some()
}

/// Calls `chrono::NaiveDate::signed_duration_since` and takes the whole days
/// of the result with `TimeDelta::num_days`.
///
/// Taken on trust: the result is the number of days from `earlier` to
/// `later`, that is the difference of their day numbers, negative where
/// `later` is the earlier day.
#[verifier::external_body]
fn days_between(later: Date, earlier: Date) -> (days: i64)
    ensures
        days == later@.day_number() - earlier@.day_number(),
{
    let a = NaiveDate::from_ymd_opt(later.year, later.month, later.day).unwrap();
    let b = NaiveDate::from_ymd_opt(earlier.year, earlier.month, earlier.day).unwrap();
    a.signed_duration_since(b).num_days()
}

/// Calls `chrono::NaiveDate::format` with `pattern` and takes the text.
///
/// Taken on trust, for the two patterns that the library writes dates in:
/// `%d` writes the day and `%m` the month in two digits, `%b` writes the
/// month as its three English letters, `%Y` writes the year in four digits
/// from 0 to 9999 and with a sign and at least four digits outside, and
/// what stands between them is written as it is.
#[verifier::external_body]
fn format_with(date: Date, pattern: &str) -> (out: String)
    requires
        pattern@ == numeric_pattern() || pattern@ == lettered_pattern(),
    ensures
        out@ == formatted(date@, pattern@),
{
    let d = NaiveDate::from_ymd_opt(date.year, date.month, date.day).unwrap();
    d.format(pattern).to_string()
}

/// Calls `chrono::Utc::now` and takes its date, `DateTime::date_naive`: the
/// day that it is now, by the clock of the machine. Nothing is stated of
/// which day that is.
#[verifier::external_body]
fn utc_today() -> (today: Date) {
    let d = Utc::now().date_naive();
    Date { year: d.year(), month: d.month(), day: d.day() }
}

impl Date {
    #[verifier::type_invariant]
    closed spec fn exists_in_calendar(self) -> bool {
        valid_ymd(self.year as int, self.month as int, self.day as int)
    }

    /// The date with the given year, month and day, where the calendar has it.
    pub fn from_ymd_opt(year: i32, month: u32, day: u32) -> (r: Option<Date>)
        ensures
            r is Some <==> valid_ymd(year as int, month as int, day as int),
            r matches Some(d) ==> d@ == (CivilDate {
                year: year as int,
                month: month as int,
                day: day as int,
            }),
    {
        if ymd_exists(year, month, day) {
            Some(Date { year, month, day })
        } else {
            None
        }
    }

    /// The day that it is now. The clock decides which; it is a day that exists.
    pub fn today() -> (today: Date)
        ensures
            today@.valid(),
    {
        let today = utc_today();
        proof {
            use_type_invariant(&today);
        }
        today
    }

    /// The year.
    pub fn year(&self) -> (year: i32)
        ensures
            year == self@.year,
            self@.valid(),
    {
        proof {
            use_type_invariant(self);
        }
        self.year
    }

    /// The month, from 1 to 12.
    pub fn month(&self) -> (month: u32)
        ensures
            month == self@.month,
            self@.valid(),
    {
        proof {
            use_type_invariant(self);
        }
        self.month
    }

    /// The day of the month, from 1.
    pub fn day(&self) -> (day: u32)
        ensures
            day == self@.day,
            self@.valid(),
    {
        proof {
            use_type_invariant(self);
        }
        self.day
    }

    /// The number of days from `earlier` to this date: negative where this
    /// date is the earlier one, zero where the two are the same day.
    pub fn days_since(&self, earlier: Date) -> (days: i64)
        ensures
            days == self@.day_number() - earlier@.day_number(),
            self@.valid(),
            earlier@.valid(),
    {
        proof {
            use_type_invariant(self);
            use_type_invariant(&earlier);
        }
        days_between(*self, earlier)
    }

    /// The date with the month in letters, as an inventory listing shows it.
    pub fn lettered(&self) -> (out: String)
        ensures
            out@ == formatted(self@, lettered_pattern()),
            self@.valid(),
    {
        proof {
            use_type_invariant(self);
            reveal_strlit("%d %b %Y");
            assert("%d %b %Y"@ =~= lettered_pattern());
        }
        format_with(*self, "%d %b %Y")
    }

    /// The date in digits: day, month and year with hyphens between.
    pub fn numeric(&self) -> (out: String)
        ensures
            out@ == formatted(self@, numeric_pattern()),
            self@.valid(),
    {
        proof {
            use_type_invariant(self);
            reveal_strlit("%d-%m-%Y");
            assert("%d-%m-%Y"@ =~= numeric_pattern());
        }
        format_with(*self, "%d-%m-%Y")
    }
}

} // verus!
