//! Calendar dates and the day type that scopes an upstream query.

use vstd::prelude::*;

use crate::text::zero_padded;

verus! {

/// The upstream filter bucket of a calendar day.
#[derive(Clone, Copy, Debug, PartialEq, Eq, Structural)]
pub enum DayType {
    Weekday,
    Saturday,
    Sunday,
}

/// Earliest year that the calendar backend represents.
pub const MIN_YEAR: i32 = -262143;

/// Latest year that the calendar backend represents.
pub const MAX_YEAR: i32 = 262142;

/// A day of the proleptic Gregorian calendar, as the local date of a query.
#[derive(Clone, Copy, Debug, PartialEq, Eq, Structural)]
pub struct CalendarDate {
    pub year: i32,
    pub month: u32,
    pub day: u32,
}

pub open spec fn is_leap_year(y: int) -> bool {
    y % 4 == 0 && (y % 100 != 0 || y % 400 == 0)
}

pub open spec fn days_in_month(y: int, m: int) -> int {
    if m == 2 {
        if is_leap_year(y) { 29 } else { 28 }
    } else if m == 4 || m == 6 || m == 9 || m == 11 {
        30
    } else {
        31
    }
}

/// Whether year, month and day name an existing date within the supported years.
pub open spec fn valid_ymd(y: int, m: int, d: int) -> bool {
    &&& MIN_YEAR <= y <= MAX_YEAR
    &&& 1 <= m <= 12
    &&& 1 <= d <= days_in_month(y, m)
}

/// ISO weekday number (1 = Monday, ..., 7 = Sunday) of a proleptic Gregorian
/// date, by Zeller's congruence with January and February counted as months
/// 13 and 14 of the year before.
pub open spec fn iso_weekday(y: int, m: int, d: int) -> int {
    let yy = if m < 3 { y - 1 } else { y };
    let mm = if m < 3 { m + 12 } else { m };
    let h = (d + (13 * (mm + 1)) / 5 + yy + yy / 4 - yy / 100 + yy / 400) % 7;
    (h + 5) % 7 + 1
}

/// Zeller's sum for a date, before it is taken modulo 7.
pub open spec fn zeller_sum(y: int, m: int, d: int) -> int {
    let yy = if m < 3 { y - 1 } else { y };
    let mm = if m < 3 { m + 12 } else { m };
    d + (13 * (mm + 1)) / 5 + yy + yy / 4 - yy / 100 + yy / 400
}

/// The calendar day after year `y`, month `m`, day `d`.
pub open spec fn next_day(y: int, m: int, d: int) -> (int, int, int) {
    if d < days_in_month(y, m) {
        (y, m, d + 1)
    } else if m < 12 {
        (y, m + 1, 1)
    } else {
        (y + 1, 1, 1)
    }
}

proof fn lemma_leap_days(y: int)
    ensures
        (y + y / 4 - y / 100 + y / 400) - ((y - 1) + (y - 1) / 4 - (y - 1) / 100 + (y - 1) / 400)
            == if is_leap_year(y) { 2int } else { 1int },
{
    assert(y / 4 - (y - 1) / 4 == if y % 4 == 0 { 1int } else { 0int });
    assert(y / 100 - (y - 1) / 100 == if y % 100 == 0 { 1int } else { 0int });
    assert(y / 400 - (y - 1) / 400 == if y % 400 == 0 { 1int } else { 0int });
    if y % 400 == 0 {
        assert(y % 100 == 0);
        assert(y % 4 == 0);
    } else if y % 100 == 0 {
        assert(y % 4 == 0);
    }
}

/// The weekday runs through the whole week without a gap: the day after any
/// valid date has the next ISO weekday, Sunday wrapping round to Monday, also
/// from the end of a month or of a year.
pub proof fn lemma_weekday_advances(y: int, m: int, d: int)
    requires
        1 <= m <= 12,
        1 <= d <= days_in_month(y, m),
    ensures
        ({
            let n = next_day(y, m, d);
            iso_weekday(n.0, n.1, n.2) == iso_weekday(y, m, d) % 7 + 1
        }),
{
    let n = next_day(y, m, d);
    let x = zeller_sum(y, m, d);
    let x2 = zeller_sum(n.0, n.1, n.2);
    if d < days_in_month(y, m) {
        assert(x2 == x + 1);
    } else if m == 2 {
        lemma_leap_days(y);
        assert(x2 == x - 55);
    } else {
        lemma_month_step(y, m);
        assert(x2 == x - 27);
    }
    lemma_weekday_step(x, x2);
}

/// At the end of any month but February, Zeller's sum falls by 27 on the
/// way to the first of the next month.
proof fn lemma_month_step(y: int, m: int)
    requires
        1 <= m <= 12,
        m != 2,
    ensures
        ({
            let n = next_day(y, m, days_in_month(y, m));
            zeller_sum(n.0, n.1, n.2) == zeller_sum(y, m, days_in_month(y, m)) - 27
        }),
{
    if m == 1 {
    } else if m == 3 {
    } else if m == 4 {
    } else if m == 5 {
    } else if m == 6 {
    } else if m == 7 {
    } else if m == 8 {
    } else if m == 9 {
    } else if m == 10 {
    } else if m == 11 {
    } else {
    }
}

proof fn lemma_weekday_step(x: int, x2: int)
    requires
        x2 == x + 1 || x2 == x - 27 || x2 == x - 55,
    ensures
        (x2 % 7 + 5) % 7 + 1 == ((x % 7 + 5) % 7 + 1) % 7 + 1,
{
    assert(x2 % 7 == (x + 1) % 7);
}

/// The day type of an ISO weekday number.
pub open spec fn day_type_of(weekday: int) -> DayType {
    if weekday == 6 {
        DayType::Saturday
    } else if weekday == 7 {
        DayType::Sunday
    } else {
        DayType::Weekday
    }
}

/// "YYYY-MM-DD": a year in 0..=9999 as four digits, any other year with its
/// sign and at least four digits; month and day as two digits.
pub open spec fn iso_date_text(y: int, m: int, d: int) -> Seq<char> {
    let year = if 0 <= y <= 9999 {
        zero_padded(y as nat, 4)
    } else if y < 0 {
        seq!['-'] + zero_padded((-y) as nat, 4)
    } else {
        seq!['+'] + zero_padded(y as nat, 4)
    };
    year + seq!['-'] + zero_padded(m as nat, 2) + seq!['-'] + zero_padded(d as nat, 2)
}

impl CalendarDate {
    pub open spec fn wf(&self) -> bool {
        valid_ymd(self.year as int, self.month as int, self.day as int)
    }

    pub open spec fn weekday(&self) -> int {
        iso_weekday(self.year as int, self.month as int, self.day as int)
    }

    /// The date with these parts, or `None` where no such date exists.
    pub fn new(year: i32, month: u32, day: u32) -> (r: Option<CalendarDate>)
        ensures
            r is Some <==> valid_ymd(year as int, month as int, day as int),
            r matches Some(d) ==> d.year == year && d.month == month && d.day == day,
    {
        if year < MIN_YEAR || year > MAX_YEAR || month < 1 || month > 12 || day < 1 {
            return None;
        }
        let leap = year % 4 == 0 && (year % 100 != 0 || year % 400 == 0);
        let last: u32 = if month == 2 {
            if leap { 29 } else { 28 }
        } else if month == 4 || month == 6 || month == 9 || month == 11 {
            30
        } else {
            31
        };
        if day > last {
            None
        } else {
            Some(CalendarDate { year, month, day })
        }
    }
}

/// Relies on chrono's `NaiveDate::from_ymd_opt` and `Datelike::weekday`
/// (`Weekday::number_from_monday`): the ISO weekday of every date that
/// chrono represents.
#[verifier::external_body]
fn weekday_number(date: &CalendarDate) -> (r: Option<u32>)
    ensures
        date.wf() ==> r == Some(date.weekday() as u32),
{
    chrono::NaiveDate::from_ymd_opt(date.year, date.month, date.day).map(
        |d| chrono::Datelike::weekday(&d).number_from_monday(),
    )
}

/// Relies on chrono's `NaiveDate::from_ymd_opt` and `NaiveDate::format` with
/// "%Y-%m-%d": the date's year, month and day, zero-padded.
#[verifier::external_body]
fn date_text(date: &CalendarDate) -> (r: Option<String>)
    ensures
        r is Some || !date.wf(),
        r matches Some(s) ==> (date.wf() ==> s@ == iso_date_text(
            date.year as int,
            date.month as int,
            date.day as int,
        )),
{
    chrono::NaiveDate::from_ymd_opt(date.year, date.month, date.day).map(
        |d| d.format("%Y-%m-%d").to_string(),
    )
}

/// Day type of an ISO weekday number: 6 is Saturday, 7 is Sunday, every
/// other number a weekday.
pub fn classify_weekday(weekday: u32) -> (r: DayType)
    ensures
        r == day_type_of(weekday as int),
{
    if weekday == 6 {
        DayType::Saturday
    } else if weekday == 7 {
        DayType::Sunday
    } else {
        DayType::Weekday
    }
}

/// Day type of a date: Saturday exactly when its ISO weekday is 6, Sunday
/// exactly when it is 7, a weekday otherwise.
pub fn process_day_type(date: &CalendarDate) -> (r: DayType)
    requires
        date.wf(),
    ensures
        r == day_type_of(date.weekday()),
        r == DayType::Saturday <==> date.weekday() == 6,
        r == DayType::Sunday <==> date.weekday() == 7,
        r == DayType::Weekday <==> (date.weekday() != 6 && date.weekday() != 7),
{
    match weekday_number(date) {
        Some(n) => classify_weekday(n),
        None => DayType::Weekday,
    }
}

/// The date as "YYYY-MM-DD".
pub fn format_date(date: &CalendarDate) -> (r: String)
    requires
        date.wf(),
    ensures
        r@ == iso_date_text(date.year as int, date.month as int, date.day as int),
{
    match date_text(date) {
        Some(s) => s,
        None => String::new(),
    }
}

/// The upstream token of a day type.
pub open spec fn day_type_token_spec(t: DayType) -> Seq<char> {
    match t {
        DayType::Weekday => "WEEKDAY"@,
        DayType::Saturday => "SATURDAY"@,
        DayType::Sunday => "SUNDAY"@,
    }
}

/// The token that the upstream lookup expects for a day type.
pub fn day_type_token(t: DayType) -> (r: String)
    ensures
        r@ == day_type_token_spec(t),
{
    match t {
        DayType::Weekday => "WEEKDAY".to_string(),
        DayType::Saturday => "SATURDAY".to_string(),
        DayType::Sunday => "SUNDAY".to_string(),
    }
}

} // verus!
