//! Calendar dates and local clock readings as plain values, with the
//! date arithmetic, formatting and clock reading that `chrono` performs.
use vstd::prelude::*;

use chrono::{Datelike, Timelike};

verus! {

/// The smallest year that `chrono::NaiveDate` represents.
pub const MIN_YEAR: i32 = -262143;

/// The largest year that `chrono::NaiveDate` represents.
pub const MAX_YEAR: i32 = 262142;

/// A day of the proleptic Gregorian calendar.
#[derive(Clone, Copy, Debug, PartialEq, Eq, Structural)]
pub struct CalendarDate {
    pub year: i32,
    pub month: u32,
    pub day: u32,
}

/// A reading of the local wall clock, to the second.
#[derive(Clone, Copy, Debug, PartialEq, Eq, Structural)]
pub struct LocalDateTime {
    pub date: CalendarDate,
    pub hour: u32,
    pub minute: u32,
    pub second: u32,
}

pub open spec fn is_leap_year(year: int) -> bool {
    (year % 4 == 0 && year % 100 != 0) || year % 400 == 0
}

pub open spec fn days_in_month(year: int, month: int) -> int {
    if month == 2 {
        if is_leap_year(year) { 29 } else { 28 }
    } else if month == 4 || month == 6 || month == 9 || month == 11 {
        30
    } else {
        31
    }
}

impl CalendarDate {
    /// The date exists and lies in the range of `chrono::NaiveDate`.
    pub open spec fn valid(self) -> bool {
        &&& MIN_YEAR <= self.year <= MAX_YEAR
        &&& 1 <= self.month <= 12
        &&& 1 <= self.day <= days_in_month(self.year as int, self.month as int)
    }
}

/// The first day that `chrono::NaiveDate` represents.
pub open spec fn first_date() -> CalendarDate {
    CalendarDate { year: MIN_YEAR, month: 1, day: 1 }
}

/// The last day that `chrono::NaiveDate` represents.
pub open spec fn last_date() -> CalendarDate {
    CalendarDate { year: MAX_YEAR, month: 12, day: 31 }
}

/// The number of the day `date` counted from 1970-01-01 (day 0) in the
/// proleptic Gregorian calendar: 400-year eras of 146097 days, years taken
/// from March so that the leap day ends them.
pub open spec fn day_number(date: CalendarDate) -> int {
    let y = if date.month <= 2 { date.year - 1 } else { date.year as int };
    let era = y / 400;
    let year_of_era = y - era * 400;
    let month_from_march = if date.month > 2 { date.month - 3 } else { date.month + 9 };
    let day_of_year = (153 * month_from_march + 2) / 5 + date.day - 1;
    let day_of_era = year_of_era * 365 + year_of_era / 4 - year_of_era / 100 + day_of_year;
    era * 146097 + day_of_era - 719468
}

/// `days` days after (or before, when negative) `date` is still a day that
/// chrono represents.
pub open spec fn shift_in_range(date: CalendarDate, days: int) -> bool {
    day_number(first_date()) <= day_number(date) + days <= day_number(last_date())
}

/// Whether `days` days after `date` is still a day that chrono represents.
pub fn can_shift(date: CalendarDate, days: i64) -> (r: bool)
    requires
        date.valid(),
        -366 <= days <= 366,
    ensures
        r == shift_in_range(date, days as int),
{
    shift_date(date, days).is_some()
}

impl LocalDateTime {
    pub open spec fn valid(self) -> bool {
        &&& self.date.valid()
        &&& self.hour < 24
        &&& self.minute < 60
        &&& self.second < 60
    }
}

/// The character of a decimal digit.
pub open spec fn digit_char(d: int) -> char {
    (48 + d) as char
}

/// The decimal digits of `n`, without leading zeros (`0` is `"0"`).
pub open spec fn decimal(n: nat) -> Seq<char>
    decreases n,
{
    if n < 10 {
        seq![digit_char(n as int)]
    } else {
        decimal(n / 10).push(digit_char((n % 10) as int))
    }
}

/// `s` left-padded with `'0'` to at least `width` characters.
pub open spec fn zero_padded(s: Seq<char>, width: nat) -> Seq<char> {
    if s.len() < width {
        Seq::new((width - s.len()) as nat, |i: int| '0') + s
    } else {
        s
    }
}

/// A number written with at least two digits (`%m`, `%d`, `%H`, `%M`, `%S`).
pub open spec fn two_digit_text(n: nat) -> Seq<char> {
    zero_padded(decimal(n), 2)
}

/// A year as `%Y` writes it: four digits for 0 to 9999, otherwise a sign
/// followed by at least four digits.
pub open spec fn year_text(year: int) -> Seq<char> {
    if 0 <= year <= 9999 {
        zero_padded(decimal(year as nat), 4)
    } else if year > 9999 {
        seq!['+'] + decimal(year as nat)
    } else {
        seq!['-'] + zero_padded(decimal((-year) as nat), 4)
    }
}

/// A date as `%Y-%m-%d` writes it.
pub open spec fn date_text(date: CalendarDate) -> Seq<char> {
    year_text(date.year as int) + seq!['-'] + two_digit_text(date.month as nat) + seq!['-']
        + two_digit_text(date.day as nat)
}

/// A clock reading as `%Y-%m-%d %H:%M:%S` writes it.
pub open spec fn timestamp_text(t: LocalDateTime) -> Seq<char> {
    date_text(t.date) + seq![' '] + two_digit_text(t.hour as nat) + seq![':']
        + two_digit_text(t.minute as nat) + seq![':'] + two_digit_text(t.second as nat)
}

/// The date that `chrono` reaches from `year-month-day` by adding `days`
/// whole days, if it represents it.
pub uninterp spec fn date_after_days(year: int, month: int, day: int, days: int) -> Option<
    CalendarDate,
>;

/// The date reached from `date` by adding `days` days, when chrono represents
/// it.
pub open spec fn shifted(date: CalendarDate, days: int) -> CalendarDate {
    date_after_days(date.year as int, date.month as int, date.day as int, days)->0
}

/// Reads the local wall clock: `chrono::Local::now()`, taken apart by
/// `naive_local()`, `Datelike` and `Timelike`.
/// Claimed: the reading is a valid date and time of day (chrono's `second()`
/// is 0 to 59; a reading built from the system clock carries no leap second).
/// Nothing is claimed of which instant it is.
#[verifier::external_body]
pub(crate) fn local_now() -> (now: LocalDateTime)
    ensures
        now.valid(),
{
    let n = chrono::Local::now().naive_local();
    LocalDateTime {
        date: CalendarDate { year: n.year(), month: n.month(), day: n.day() },
        hour: n.hour(),
        minute: n.minute(),
        second: n.second(),
    }
}

/// Reads the local wall clock: a valid date and time of day, of which
/// nothing else is known.
pub fn read_clock() -> (now: LocalDateTime)
    ensures
        now.valid(),
{
    local_now()
}

/// `chrono::NaiveDate::checked_add_signed(chrono::TimeDelta::days(days))`,
/// the date `days` whole days after (or before, when negative) `date`.
/// Claimed: the result is the value named by [`date_after_days`]; it is
/// `None` exactly when that day lies outside chrono's range (chrono's
/// `add_days` refuses only years outside `MIN_YEAR..=MAX_YEAR`); otherwise it
/// is a valid date whose [`day_number`] is `days` more than `date`'s.
#[verifier::external_body]
pub(crate) fn shift_date(date: CalendarDate, days: i64) -> (moved: Option<CalendarDate>)
    requires
        date.valid(),
        -366 <= days <= 366,
    ensures
        moved == date_after_days(date.year as int, date.month as int, date.day as int, days as int),
        moved is None <==> !shift_in_range(date, days as int),
        moved matches Some(d) ==> d.valid() && day_number(d) == day_number(date) + days,
{
    let start = chrono::NaiveDate::from_ymd_opt(date.year, date.month, date.day).unwrap();
    match start.checked_add_signed(chrono::TimeDelta::days(days)) {
        Some(d) => Some(CalendarDate { year: d.year(), month: d.month(), day: d.day() }),
        None => None,
    }
}

/// `chrono::NaiveDate::format("%Y-%m-%d")` written out with `to_string()`.
/// Claimed: the text is [`date_text`] (chrono's `write_year` and zero-padded
/// `write_two`).
#[verifier::external_body]
pub(crate) fn format_date(date: CalendarDate) -> (text: String)
    requires
        date.valid(),
    ensures
        text@ == date_text(date),
{
    chrono::NaiveDate::from_ymd_opt(date.year, date.month, date.day).unwrap().format(
        "%Y-%m-%d",
    ).to_string()
}

/// `chrono::NaiveDateTime::format("%Y-%m-%d %H:%M:%S")` written out with
/// `to_string()`.
/// Claimed: the text is [`timestamp_text`].
#[verifier::external_body]
pub(crate) fn format_timestamp(t: LocalDateTime) -> (text: String)
    requires
        t.valid(),
    ensures
        text@ == timestamp_text(t),
{
    chrono::NaiveDate::from_ymd_opt(t.date.year, t.date.month, t.date.day).unwrap().and_hms_opt(
        t.hour,
        t.minute,
        t.second,
    ).unwrap().format("%Y-%m-%d %H:%M:%S").to_string()
}

} // verus!
