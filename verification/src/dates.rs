//! Calendar dates of the proleptic Gregorian calendar, as journal entries are
//! named and looked up by them.
//!
//! A [`Date`] holds year, month and day as plain integers; its type invariant
//! is that they name a day that exists, within the range that chrono's
//! `NaiveDate` supports. Date arithmetic, parsing and formatting are done by
//! chrono; the functions here convert at the boundary and state what the
//! calls compute.
use vstd::prelude::*;
use chrono::{Datelike, Timelike};

verus! {

/// Smallest year that a date can have.
pub const MIN_YEAR: i32 = -262143;

/// Largest year that a date can have.
pub const MAX_YEAR: i32 = 262142;

/// Leap years of the proleptic Gregorian calendar.
pub open spec fn is_leap_year(y: int) -> bool {
    y % 4 == 0 && (y % 100 != 0 || y % 400 == 0)
}

/// Number of days of month `m` (1..=12) in year `y`.
pub open spec fn days_in_month(y: int, m: int) -> int {
    if m == 2 {
        if is_leap_year(y) { 29 } else { 28 }
    } else if m == 4 || m == 6 || m == 9 || m == 11 {
        30
    } else {
        31
    }
}

/// Whether `(y, m, d)` names an existing day within the supported range.
pub open spec fn valid_ymd(v: (int, int, int)) -> bool {
    &&& MIN_YEAR <= v.0 <= MAX_YEAR
    &&& 1 <= v.1 <= 12
    &&& 1 <= v.2 <= days_in_month(v.0, v.1)
}

/// Strict calendar order: `a` is an earlier day than `b`.
pub open spec fn date_lt(a: (int, int, int), b: (int, int, int)) -> bool {
    ||| a.0 < b.0
    ||| (a.0 == b.0 && a.1 < b.1)
    ||| (a.0 == b.0 && a.1 == b.1 && a.2 < b.2)
}

/// The day before `v`.
pub open spec fn prev_day(v: (int, int, int)) -> (int, int, int) {
    if v.2 > 1 {
        (v.0, v.1, v.2 - 1)
    } else if v.1 > 1 {
        (v.0, v.1 - 1, days_in_month(v.0, v.1 - 1))
    } else {
        (v.0 - 1, 12, 31)
    }
}

/// The day `k` days before `v`.
pub open spec fn days_before(v: (int, int, int), k: nat) -> (int, int, int)
    decreases k,
{
    if k == 0 {
        v
    } else {
        days_before(prev_day(v), (k - 1) as nat)
    }
}

/// What chrono's `checked_sub_months` gives for `n` months before `v`: the
/// same day of the month `n` months earlier, clamped to the last day of that
/// month; `None` when the month count or the result is out of range.
pub open spec fn months_back(v: (int, int, int), n: int) -> Option<(int, int, int)> {
    let total = v.0 * 12 + v.1 - 1 - n;
    if n > i32::MAX || total < i32::MIN {
        None
    } else {
        let y = total / 12;
        let m = total % 12 + 1;
        let d = if v.2 > days_in_month(y, m) { days_in_month(y, m) } else { v.2 };
        if MIN_YEAR <= y <= MAX_YEAR {
            Some((y, m, d))
        } else {
            None
        }
    }
}

/// A day of the proleptic Gregorian calendar.
#[derive(Debug, Clone, Copy, PartialEq, Eq, Structural, Hash)]
pub struct Date {
    year: i32,
    month: u32,
    day: u32,
}

impl View for Date {
    type V = (int, int, int);

    closed spec fn view(&self) -> (int, int, int) {
        (self.year as int, self.month as int, self.day as int)
    }
}

impl Date {
    /// A date always names an existing day.
    #[verifier::type_invariant]
    pub closed spec fn inv(self) -> bool {
        valid_ymd(self@)
    }

    /// What the type invariant of a date says.
    pub proof fn lemma_inv(d: Date)
        requires
            d.inv(),
        ensures
            valid_ymd(d@),
    {
    }

    /// The date with the given year, month and day, if that day exists.
    pub fn from_ymd_opt(year: i32, month: u32, day: u32) -> (r: Option<Date>)
        ensures
            r is Some <==> valid_ymd((year as int, month as int, day as int)),
            r matches Some(d) ==> d@ == (year as int, month as int, day as int),
    {
        if year < MIN_YEAR || year > MAX_YEAR || month < 1 || month > 12 || day < 1 {
            return None;
        }
        // Shifting by a multiple of 400 years keeps leap years and makes the
        // year positive, so unsigned remainders can be used.
        let shifted: u32 = (year + 262400) as u32;
        let leap = shifted % 4 == 0 && (shifted % 100 != 0 || shifted % 400 == 0);
        proof {
            lemma_leap_shift(year as int);
        }
        let dim: u32 = if month == 2 {
            if leap { 29 } else { 28 }
        } else if month == 4 || month == 6 || month == 9 || month == 11 {
            30
        } else {
            31
        };
        if day > dim {
            None
        } else {
            Some(Date { year, month, day })
        }
    }

    /// The year.
    pub fn year(&self) -> (r: i32)
        ensures
            r as int == self@.0,
            valid_ymd(self@),
    {
        proof { use_type_invariant(self); }
        self.year
    }

    /// The month, from 1 to 12.
    pub fn month(&self) -> (r: u32)
        ensures
            r as int == self@.1,
            valid_ymd(self@),
    {
        proof { use_type_invariant(self); }
        self.month
    }

    /// The day of the month, from 1.
    pub fn day(&self) -> (r: u32)
        ensures
            r as int == self@.2,
            valid_ymd(self@),
    {
        proof { use_type_invariant(self); }
        self.day
    }

    /// Whether `self` is an earlier day than `other`.
    pub fn is_before(&self, other: &Date) -> (r: bool)
        ensures
            r == date_lt(self@, other@),
    {
        self.year < other.year || (self.year == other.year && (self.month < other.month || (
        self.month == other.month && self.day < other.day)))
    }

    /// chrono's `NaiveDate::checked_sub_months`: the date `months` months
    /// earlier, with the day clamped to the length of the month reached.
    #[verifier::external_body]
    pub(crate) fn checked_sub_months(&self, months: u32) -> (r: Option<Date>)
        ensures
            r matches Some(d) ==> months_back(self@, months as int) == Some(d@),
            r is None ==> months_back(self@, months as int) is None,
    {
        let n = chrono::NaiveDate::from_ymd_opt(self.year, self.month, self.day).unwrap();
        match n.checked_sub_months(chrono::Months::new(months)) {
            Some(p) => Some(Date { year: p.year(), month: p.month(), day: p.day() }),
            None => None,
        }
    }

    /// `NaiveDate - TimeDelta::days(k)`: the date `k` days earlier. chrono
    /// panics when that day is out of range, which `requires` rules out.
    #[verifier::external_body]
    pub(crate) fn minus_days(&self, k: i64) -> (r: Date)
        requires
            0 <= k,
            valid_ymd(days_before(self@, k as nat)),
        ensures
            r@ == days_before(self@, k as nat),
    {
        let n = chrono::NaiveDate::from_ymd_opt(self.year, self.month, self.day).unwrap();
        let p = n - chrono::TimeDelta::days(k);
        Date { year: p.year(), month: p.month(), day: p.day() }
    }

    /// chrono's `NaiveDate::format` with the journal header format,
    /// written out as a string. Its text is named by [`chrono_format_date`].
    #[verifier::external_body]
    pub(crate) fn format_with(&self, format: &str) -> (r: String)
        requires
            format@ == crate::constants::JOURNAL_HEADER_DATE_FORMAT@,
        ensures
            r@ == chrono_format_date(self@, format@),
    {
        let n = chrono::NaiveDate::from_ymd_opt(self.year, self.month, self.day).unwrap();
        n.format(format).to_string()
    }
}

/// Leap years repeat every 400 years.
proof fn lemma_leap_shift(y: int)
    ensures
        is_leap_year(y) == is_leap_year(y + 262400),
{
    assert((y + 262400) % 4 == y % 4) by (nonlinear_arith);
    assert((y + 262400) % 100 == y % 100) by (nonlinear_arith);
    assert((y + 262400) % 400 == y % 400) by (nonlinear_arith);
}

/// The text chrono writes for a date under a format string.
pub uninterp spec fn chrono_format_date(date: (int, int, int), format: Seq<char>) -> Seq<char>;

/// What chrono's `NaiveDate::parse_from_str` gives for an input and a format:
/// the date read, or the text of the parse error.
pub uninterp spec fn chrono_parse_date(input: Seq<char>, format: Seq<char>) -> Result<(int, int, int), Seq<char>>;

/// chrono's `NaiveDate::parse_from_str`, with the error turned into its
/// message as chrono displays it.
#[verifier::external_body]
pub(crate) fn parse_date_with(input: &str, format: &str) -> (r: Result<Date, String>)
    ensures
        chrono_parse_date(input@, format@) == (match r {
            Ok(d) => Ok::<(int, int, int), Seq<char>>(d@),
            Err(e) => Err::<(int, int, int), Seq<char>>(e@),
        }),
{
    match chrono::NaiveDate::parse_from_str(input, format) {
        Ok(p) => Ok(Date { year: p.year(), month: p.month(), day: p.day() }),
        Err(e) => Err(e.to_string()),
    }
}

/// A local date and time of day, as read from the clock.
#[derive(Debug, Clone, Copy)]
pub struct LocalDateTime {
    /// The calendar date.
    pub date: Date,
    /// Hour, from 0 to 23.
    pub hour: u32,
    /// Minute, from 0 to 59.
    pub minute: u32,
    /// Second, from 0 to 59.
    pub second: u32,
    /// Nanoseconds within the second; at least 10^9 during a leap second.
    pub nanosecond: u32,
}

/// Whether the time-of-day fields are in range.
pub open spec fn time_fields_valid(t: LocalDateTime) -> bool {
    t.hour < 24 && t.minute < 60 && t.second < 60 && t.nanosecond < 2_000_000_000
}

/// The current local date and time, read from the clock: time fields in
/// range and a year of 1969 or later; which moment it is depends on the
/// clock.
pub fn current_local_time() -> (r: LocalDateTime)
    ensures
        time_fields_valid(r),
        r.date@.0 >= 1969,
{
    local_now()
}

/// chrono's `Local::now()`: the current local date and time. chrono panics
/// when the system clock is before 1970 (UTC), so a returned date is in 1969
/// or later (a local offset is less than a day); nothing else is known of it.
#[verifier::external_body]
pub(crate) fn local_now() -> (r: LocalDateTime)
    ensures
        time_fields_valid(r),
        r.date@.0 >= 1969,
{
    let now = chrono::Local::now();
    let d = now.date_naive();
    LocalDateTime {
        date: Date { year: d.year(), month: d.month(), day: d.day() },
        hour: now.hour(),
        minute: now.minute(),
        second: now.second(),
        nanosecond: now.nanosecond(),
    }
}

} // verus!
