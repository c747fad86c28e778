//! Dates as the pages show them.

use chrono::Datelike;
use vstd::prelude::*;
use crate::endpoint::nat_decimal;

verus! {

/// Whether `year` is a leap year of the proleptic Gregorian calendar.
pub open spec fn is_leap_year(year: int) -> bool {
    year % 4 == 0 && (year % 100 != 0 || year % 400 == 0)
}

/// Number of days of `month` (1 to 12) in `year`.
pub open spec fn days_in_month(year: int, month: int) -> int {
    if month == 4 || month == 6 || month == 9 || month == 11 {
        30
    } else if month == 2 {
        if is_leap_year(year) {
            29
        } else {
            28
        }
    } else {
        31
    }
}

/// A day that chrono's `NaiveDate` can hold: years -262143 to 262142.
pub open spec fn is_calendar_date(year: i32, month: u32, day: u32) -> bool {
    -262143 <= year <= 262142 && 1 <= month <= 12 && 1 <= day <= days_in_month(
        year as int,
        month as int,
    )
}

/// `n` in decimal, with leading zeros up to `width` digits.
pub open spec fn zero_padded(n: nat, width: nat) -> Seq<char> {
    let digits = nat_decimal(n);
    if digits.len() < width {
        Seq::new((width - digits.len()) as nat, |_i: int| '0') + digits
    } else {
        digits
    }
}

/// A year as `%Y` writes it: four digits at least, with a sign outside 0 to 9999.
pub open spec fn year_text(year: int) -> Seq<char> {
    if 0 <= year <= 9999 {
        zero_padded(year as nat, 4)
    } else if year > 9999 {
        seq!['+'] + zero_padded(year as nat, 4)
    } else {
        seq!['-'] + zero_padded((-year) as nat, 4)
    }
}

/// A day written as `%m-%d-%Y`.
pub open spec fn month_day_year_text(year: i32, month: u32, day: u32) -> Seq<char> {
    zero_padded(month as nat, 2) + seq!['-'] + zero_padded(day as nat, 2) + seq!['-']
        + year_text(year as int)
}

/// The day (year, month, day) that chrono reads from `s` in the form
/// `%Y-%m-%dT%H:%M:%S`, if it reads one.
pub uninterp spec fn iso_date_of(s: Seq<char>) -> Option<(i32, u32, u32)>;

/// Relies on chrono::NaiveDateTime::parse_from_str with the form
/// `%Y-%m-%dT%H:%M:%S`; what it returns is a valid `NaiveDateTime`.
#[verifier::external_body]
fn parse_iso_date(s: &str) -> (r: Option<(i32, u32, u32)>)
    ensures
        r == iso_date_of(s@),
        r matches Some((y, m, d)) ==> is_calendar_date(y, m, d),
{
    match chrono::NaiveDateTime::parse_from_str(s, "%Y-%m-%dT%H:%M:%S") {
        Ok(t) => Some((t.year(), t.month(), t.day())),
        Err(_) => None,
    }
}

/// Relies on chrono::NaiveDate::from_ymd_opt, which accepts every calendar
/// day, and on `format("%m-%d-%Y")`, which writes month and day as two
/// digits and the year as `%Y` does.
#[verifier::external_body]
fn format_month_day_year(year: i32, month: u32, day: u32) -> (r: String)
    requires
        is_calendar_date(year, month, day),
    ensures
        r@ == month_day_year_text(year, month, day),
{
    chrono::NaiveDate::from_ymd_opt(year, month, day).unwrap().format("%m-%d-%Y").to_string()
}

/// Shows an ISO date and time (`2024-03-05T10:20:30`) as month-day-year
/// (`03-05-2024`); text that does not read as one shows as the Unix epoch,
/// `01-01-1970`.
pub fn format_date(date_str: &str) -> (r: String)
    ensures
        r@ == match iso_date_of(date_str@) {
            Some((y, m, d)) => month_day_year_text(y, m, d),
            None => month_day_year_text(1970, 1, 1),
        },
{
    match parse_iso_date(date_str) {
        Some((y, m, d)) => format_month_day_year(y, m, d),
        None => format_month_day_year(1970, 1, 1),
    }
}

} // verus!
