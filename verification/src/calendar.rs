//! Calendar dates, months and the month grid shown on the home page.

use vstd::prelude::*;
use crate::text::{
    chars_of, find_char, fixed_digits, is_first_index, lemma_fixed_digits_value,
    lemma_split_once_at, parse_signed, parse_signed_range, parse_unsigned, parse_unsigned_range,
    pow10, split_once, unsigned_body,
};

verus! {

/// A month of the Gregorian calendar.
#[derive(Clone, Copy, Debug, PartialEq, Eq, Structural)]
pub enum Month {
    January,
    February,
    March,
    April,
    May,
    June,
    July,
    August,
    September,
    October,
    November,
    December,
}

/// The number of a month, January being 1.
pub open spec fn month_number(m: Month) -> int {
    match m {
        Month::January => 1,
        Month::February => 2,
        Month::March => 3,
        Month::April => 4,
        Month::May => 5,
        Month::June => 6,
        Month::July => 7,
        Month::August => 8,
        Month::September => 9,
        Month::October => 10,
        Month::November => 11,
        Month::December => 12,
    }
}

/// The month whose number is `n` (1 to 12).
pub open spec fn month_of_number(n: int) -> Month
    recommends
        1 <= n <= 12,
{
    if n == 1 {
        Month::January
    } else if n == 2 {
        Month::February
    } else if n == 3 {
        Month::March
    } else if n == 4 {
        Month::April
    } else if n == 5 {
        Month::May
    } else if n == 6 {
        Month::June
    } else if n == 7 {
        Month::July
    } else if n == 8 {
        Month::August
    } else if n == 9 {
        Month::September
    } else if n == 10 {
        Month::October
    } else if n == 11 {
        Month::November
    } else {
        Month::December
    }
}

/// The earliest and latest years a date can have.
pub const MIN_YEAR: i32 = -9999;

pub const MAX_YEAR: i32 = 9999;

/// Leap years of the proleptic Gregorian calendar.
pub open spec fn is_leap_year(y: int) -> bool {
    y % 4 == 0 && (y % 100 != 0 || y % 400 == 0)
}

pub open spec fn days_in_month(y: int, m: int) -> int {
    if m == 2 {
        if is_leap_year(y) {
            29
        } else {
            28
        }
    } else if m == 4 || m == 6 || m == 9 || m == 11 {
        30
    } else {
        31
    }
}

pub open spec fn days_in_year(y: int) -> int {
    if is_leap_year(y) {
        366
    } else {
        365
    }
}

/// A year, month and day that name a day of the calendar.
pub open spec fn is_valid_date(y: int, m: int, d: int) -> bool {
    &&& MIN_YEAR <= y <= MAX_YEAR
    &&& 1 <= m <= 12
    &&& 1 <= d <= days_in_month(y, m)
}

/// Days of year `y` that come before the first day of month `m`.
pub open spec fn days_before_month(y: int, m: int) -> int {
    let leap: int = if is_leap_year(y) {
        1
    } else {
        0
    };
    if m == 1 {
        0
    } else if m == 2 {
        31
    } else if m == 3 {
        59 + leap
    } else if m == 4 {
        90 + leap
    } else if m == 5 {
        120 + leap
    } else if m == 6 {
        151 + leap
    } else if m == 7 {
        181 + leap
    } else if m == 8 {
        212 + leap
    } else if m == 9 {
        243 + leap
    } else if m == 10 {
        273 + leap
    } else if m == 11 {
        304 + leap
    } else {
        334 + leap
    }
}

/// Julian day number of the day before January 1 of year `y`
/// (`y` no earlier than `MIN_YEAR`).
pub open spec fn julian_day_before_year(y: int) -> int {
    let adj = y + 999_999;
    let century = adj / 100;
    (1461 * adj) / 4 - century + century / 4 - 363_521_075
}

/// The Julian day number of a date: a count of days, so that consecutive
/// days have consecutive numbers.
pub open spec fn julian_day(y: int, m: int, d: int) -> int {
    julian_day_before_year(y) + days_before_month(y, m) + d
}

/// Days from the Monday that starts the week of the date (0 on Mondays,
/// 6 on Sundays).
pub open spec fn weekday_from_monday(y: int, m: int, d: int) -> int {
    julian_day(y, m, d) % 7
}

/// Julian day numbers of the earliest and the latest date.
pub open spec fn min_julian_day() -> int {
    julian_day(MIN_YEAR as int, 1, 1)
}

pub open spec fn max_julian_day() -> int {
    julian_day(MAX_YEAR as int, 12, 31)
}

impl Month {
    /// The number of the month, January being 1.
    pub fn number(self) -> (r: u8)
        ensures
            r == month_number(self),
    {
        match self {
            Month::January => 1,
            Month::February => 2,
            Month::March => 3,
            Month::April => 4,
            Month::May => 5,
            Month::June => 6,
            Month::July => 7,
            Month::August => 8,
            Month::September => 9,
            Month::October => 10,
            Month::November => 11,
            Month::December => 12,
        }
    }

    /// The month with number `n`, or `None` where `n` is not in 1..=12.
    pub fn from_number(n: u8) -> (r: Option<Month>)
        ensures
            r is Some <==> 1 <= n <= 12,
            r matches Some(m) ==> month_number(m) == n && m == month_of_number(n as int),
    {
        if n == 1 {
            Some(Month::January)
        } else if n == 2 {
            Some(Month::February)
        } else if n == 3 {
            Some(Month::March)
        } else if n == 4 {
            Some(Month::April)
        } else if n == 5 {
            Some(Month::May)
        } else if n == 6 {
            Some(Month::June)
        } else if n == 7 {
            Some(Month::July)
        } else if n == 8 {
            Some(Month::August)
        } else if n == 9 {
            Some(Month::September)
        } else if n == 10 {
            Some(Month::October)
        } else if n == 11 {
            Some(Month::November)
        } else if n == 12 {
            Some(Month::December)
        } else {
            None
        }
    }

    /// The month before this one (December before January).
    pub fn previous(self) -> (r: Month)
        ensures
            month_number(r) == if month_number(self) == 1 {
                12
            } else {
                month_number(self) - 1
            },
    {
        match self {
            Month::January => Month::December,
            Month::February => Month::January,
            Month::March => Month::February,
            Month::April => Month::March,
            Month::May => Month::April,
            Month::June => Month::May,
            Month::July => Month::June,
            Month::August => Month::July,
            Month::September => Month::August,
            Month::October => Month::September,
            Month::November => Month::October,
            Month::December => Month::November,
        }
    }

    /// The month after this one (January after December).
    pub fn next(self) -> (r: Month)
        ensures
            month_number(r) == if month_number(self) == 12 {
                1
            } else {
                month_number(self) + 1
            },
    {
        match self {
            Month::January => Month::February,
            Month::February => Month::March,
            Month::March => Month::April,
            Month::April => Month::May,
            Month::May => Month::June,
            Month::June => Month::July,
            Month::July => Month::August,
            Month::August => Month::September,
            Month::September => Month::October,
            Month::October => Month::November,
            Month::November => Month::December,
            Month::December => Month::January,
        }
    }
}

/// Two months with the same number are the same month.
pub proof fn lemma_month_number_injective(a: Month, b: Month)
    ensures
        month_number(a) == month_number(b) <==> a == b,
        1 <= month_number(a) <= 12,
        month_of_number(month_number(a)) == a,
{
}


/// The Julian day number of January 1 follows that of the last day of the
/// year before.
pub proof fn lemma_julian_day_before_year_step(y: int)
    requires
        y >= MIN_YEAR,
    ensures
        julian_day_before_year(y + 1) == julian_day_before_year(y) + days_in_year(y),
{
    let a = y + 999_999;
    assert(a >= 0);
    assert((1461 * a) / 4 == 365 * a + a / 4) by (nonlinear_arith)
        requires
            a >= 0,
    ;
    assert((1461 * (a + 1)) / 4 == 365 * (a + 1) + (a + 1) / 4) by (nonlinear_arith)
        requires
            a >= 0,
    ;
    assert((a + 1) / 4 == a / 4 + if y % 4 == 0 { 1int } else { 0int }) by (nonlinear_arith)
        requires
            a == y + 999_999,
            a >= 0,
    ;
    assert((a + 1) / 100 == a / 100 + if y % 100 == 0 { 1int } else { 0int }) by (nonlinear_arith)
        requires
            a == y + 999_999,
            a >= 0,
    ;
    let c = a / 100;
    let c1 = (a + 1) / 100;
    assert(c1 / 4 == c / 4 + if y % 400 == 0 { 1int } else { 0int }) by (nonlinear_arith)
        requires
            a == y + 999_999,
            a >= 0,
            c == a / 100,
            c1 == (a + 1) / 100,
            c1 == c + if y % 100 == 0 { 1int } else { 0int },
    ;
}

/// Within a year, the days before a month and the days of that month add up
/// to the days before the next month.
pub proof fn lemma_days_before_month_step(y: int, m: int)
    requires
        1 <= m <= 12,
    ensures
        days_before_month(y, 1) == 0,
        m < 12 ==> days_before_month(y, m + 1) == days_before_month(y, m) + days_in_month(y, m),
        m == 12 ==> days_before_month(y, m) + days_in_month(y, m) == days_in_year(y),
        days_before_month(y, m) + days_in_month(y, m) <= days_in_year(y),
{
}


/// Calendar order of two (year, month, day) triples.
pub open spec fn date_precedes(a: (int, int, int), b: (int, int, int)) -> bool {
    ||| a.0 < b.0
    ||| a.0 == b.0 && a.1 < b.1
    ||| a.0 == b.0 && a.1 == b.1 && a.2 < b.2
}

pub open spec fn is_valid_ymd(t: (int, int, int)) -> bool {
    is_valid_date(t.0, t.1, t.2)
}

pub open spec fn julian_day_of(t: (int, int, int)) -> int {
    julian_day(t.0, t.1, t.2)
}

proof fn lemma_julian_day_before_year_monotone(y1: int, y2: int)
    requires
        MIN_YEAR <= y1 < y2,
    ensures
        julian_day_before_year(y1) + days_in_year(y1) <= julian_day_before_year(y2),
    decreases y2 - y1,
{
    lemma_julian_day_before_year_step(y1);
    if y2 > y1 + 1 {
        lemma_julian_day_before_year_monotone(y1 + 1, y2);
    }
}

proof fn lemma_days_before_month_monotone(y: int, m1: int, m2: int)
    requires
        1 <= m1 < m2 <= 12,
    ensures
        days_before_month(y, m1) + days_in_month(y, m1) <= days_before_month(y, m2),
    decreases m2 - m1,
{
    lemma_days_before_month_step(y, m1);
    if m2 > m1 + 1 {
        lemma_days_before_month_monotone(y, m1 + 1, m2);
    }
}

/// Julian day numbers follow calendar order: an earlier date has a smaller
/// number, so two dates with the same number are the same date.
pub proof fn lemma_julian_day_order(a: (int, int, int), b: (int, int, int))
    requires
        is_valid_ymd(a),
        is_valid_ymd(b),
    ensures
        date_precedes(a, b) <==> julian_day_of(a) < julian_day_of(b),
        julian_day_of(a) == julian_day_of(b) <==> a == b,
{
    lemma_days_before_month_step(a.0, a.1);
    lemma_days_before_month_step(b.0, b.1);
    if a.0 < b.0 {
        lemma_julian_day_before_year_monotone(a.0, b.0);
    } else if b.0 < a.0 {
        lemma_julian_day_before_year_monotone(b.0, a.0);
    } else if a.1 < b.1 {
        lemma_days_before_month_monotone(a.0, a.1, b.1);
    } else if b.1 < a.1 {
        lemma_days_before_month_monotone(a.0, b.1, a.1);
    }
}

/// The day after the last day of a month is the first day of the next
/// month, or of the next year after December.
pub proof fn lemma_julian_day_month_end(y: int, m: int)
    requires
        is_valid_date(y, m, 1),
    ensures
        m < 12 ==> julian_day(y, m + 1, 1) == julian_day(y, m, days_in_month(y, m)) + 1,
        m == 12 ==> julian_day(y + 1, 1, 1) == julian_day(y, 12, 31) + 1,
{
    lemma_days_before_month_step(y, m);
    lemma_julian_day_before_year_step(y);
}


/// `time::Date::from_calendar_date` on the year, month number and day:
/// time accepts exactly the valid dates of years `MIN_YEAR..=MAX_YEAR` (the
/// crate is built without its `large-dates` feature) and keeps the three
/// components as given.
#[verifier::external_body]
fn time_calendar_date(year: i32, month: u8, day: u8) -> (r: Option<(i32, u8, u8)>)
    requires
        1 <= month <= 12,
    ensures
        r is Some <==> is_valid_date(year as int, month as int, day as int),
        r matches Some(t) ==> t == (year, month, day),
{
    let month = time::Month::try_from(month).ok()?;
    match time::Date::from_calendar_date(year, month, day) {
        Ok(date) => Some((date.year(), date.month() as u8, date.day())),
        Err(_) => None,
    }
}

/// `time::Weekday::number_days_from_monday` of the `weekday()` of a valid
/// date: time computes the weekday as the date's Julian day number modulo 7,
/// Monday giving 0.
#[verifier::external_body]
fn time_weekday_from_monday(year: i32, month: u8, day: u8) -> (r: u8)
    requires
        is_valid_date(year as int, month as int, day as int),
    ensures
        r == weekday_from_monday(year as int, month as int, day as int),
{
    let month = time::Month::try_from(month).unwrap();
    time::Date::from_calendar_date(year, month, day).unwrap().weekday().number_days_from_monday()
}

/// `time::Date::checked_add` of `time::Duration::days(days)` to a valid date:
/// the date whose Julian day number is `days` more, or `None` where no date
/// of the supported range has that number.
#[verifier::external_body]
fn time_checked_add_days(year: i32, month: u8, day: u8, days: i32) -> (r: Option<(i32, u8, u8)>)
    requires
        is_valid_date(year as int, month as int, day as int),
    ensures
        r is Some <==> min_julian_day() <= julian_day(year as int, month as int, day as int) + days
            <= max_julian_day(),
        r matches Some(t) ==> is_valid_date(t.0 as int, t.1 as int, t.2 as int) && julian_day(
            t.0 as int,
            t.1 as int,
            t.2 as int,
        ) == julian_day(year as int, month as int, day as int) + days,
{
    let month = time::Month::try_from(month).unwrap();
    let date = time::Date::from_calendar_date(year, month, day).unwrap();
    match date.checked_add(time::Duration::days(days as i64)) {
        Some(r) => Some((r.year(), r.month() as u8, r.day())),
        None => None,
    }
}

/// `time::Date::checked_sub` of `time::Duration::days(days)` from a valid
/// date: the date whose Julian day number is `days` less, or `None` where no
/// date of the supported range has that number.
#[verifier::external_body]
fn time_checked_sub_days(year: i32, month: u8, day: u8, days: i32) -> (r: Option<(i32, u8, u8)>)
    requires
        is_valid_date(year as int, month as int, day as int),
    ensures
        r is Some <==> min_julian_day() <= julian_day(year as int, month as int, day as int) - days
            <= max_julian_day(),
        r matches Some(t) ==> is_valid_date(t.0 as int, t.1 as int, t.2 as int) && julian_day(
            t.0 as int,
            t.1 as int,
            t.2 as int,
        ) == julian_day(year as int, month as int, day as int) - days,
{
    let month = time::Month::try_from(month).unwrap();
    let date = time::Date::from_calendar_date(year, month, day).unwrap();
    match date.checked_sub(time::Duration::days(days as i64)) {
        Some(r) => Some((r.year(), r.month() as u8, r.day())),
        None => None,
    }
}

/// `time::OffsetDateTime::now_utc().date()`: today's date in UTC. It depends
/// on the clock; all that is stated is that it is a valid date.
#[verifier::external_body]
fn time_today_utc() -> (r: (i32, u8, u8))
    ensures
        is_valid_date(r.0 as int, r.1 as int, r.2 as int),
{
    let date = time::OffsetDateTime::now_utc().date();
    (date.year(), date.month() as u8, date.day())
}

/// A day of the calendar.
#[derive(Clone, Copy, Debug, PartialEq, Eq, Structural)]
pub struct Date {
    year: i32,
    month: Month,
    day: u8,
}

impl View for Date {
    type V = (int, int, int);

    /// The year, month number and day of the date.
    closed spec fn view(&self) -> (int, int, int) {
        (self.year as int, month_number(self.month), self.day as int)
    }
}

impl Date {
    #[verifier::type_invariant]
    closed spec fn inv(self) -> bool {
        is_valid_date(self.year as int, month_number(self.month), self.day as int)
    }

    fn from_parts(t: (i32, u8, u8)) -> (r: Date)
        requires
            is_valid_date(t.0 as int, t.1 as int, t.2 as int),
        ensures
            r@ == (t.0 as int, t.1 as int, t.2 as int),
            is_valid_ymd(r@),
    {
        let month = match Month::from_number(t.1) {
            Some(m) => m,
            None => Month::January,
        };
        Date { year: t.0, month, day: t.2 }
    }

    /// The date with this year, month and day, or `None` where the day does
    /// not exist in that month or the year is outside `MIN_YEAR..=MAX_YEAR`.
    pub fn from_calendar_date(year: i32, month: Month, day: u8) -> (r: Option<Date>)
        ensures
            r is Some <==> is_valid_date(year as int, month_number(month), day as int),
            r matches Some(d) ==> d@ == (year as int, month_number(month), day as int)
                && is_valid_ymd(d@),
    {
        match time_calendar_date(year, month.number(), day) {
            Some(t) => Some(Date::from_parts(t)),
            None => None,
        }
    }

    pub fn year(&self) -> (r: i32)
        ensures
            r == self@.0,
            is_valid_ymd(self@),
    {
        proof {
            use_type_invariant(self);
        }
        self.year
    }

    pub fn month(&self) -> (r: Month)
        ensures
            month_number(r) == self@.1,
    {
        self.month
    }

    pub fn day(&self) -> (r: u8)
        ensures
            r == self@.2,
    {
        self.day
    }

    /// Whether this date comes before `other`.
    pub fn is_before(&self, other: &Date) -> (r: bool)
        ensures
            r == date_precedes(self@, other@),
    {
        let a = self.month.number();
        let b = other.month.number();
        self.year < other.year || (self.year == other.year && (a < b || (a == b && self.day
            < other.day)))
    }

    /// Whether this is the same day as `other`.
    pub fn same_day(&self, other: &Date) -> (r: bool)
        ensures
            r == (self@ == other@),
    {
        self.year == other.year && self.month.number() == other.month.number() && self.day
            == other.day
    }

    /// Days from the Monday that starts this date's week (0 to 6).
    pub fn days_from_monday(&self) -> (r: u8)
        ensures
            r == weekday_from_monday(self@.0, self@.1, self@.2),
            r < 7,
            is_valid_ymd(self@),
    {
        proof {
            use_type_invariant(self);
        }
        time_weekday_from_monday(self.year, self.month.number(), self.day)
    }

    /// The date `days` days later, or `None` past the last supported date.
    pub fn checked_add_days(&self, days: i32) -> (r: Option<Date>)
        ensures
            r is Some <==> min_julian_day() <= julian_day_of(self@) + days <= max_julian_day(),
            r matches Some(d) ==> julian_day_of(d@) == julian_day_of(self@) + days && is_valid_ymd(
                d@,
            ),
            is_valid_ymd(self@),
    {
        proof {
            use_type_invariant(self);
        }
        match time_checked_add_days(self.year, self.month.number(), self.day, days) {
            Some(t) => Some(Date::from_parts(t)),
            None => None,
        }
    }

    /// The date `days` days earlier, or `None` before the first supported date.
    pub fn checked_sub_days(&self, days: i32) -> (r: Option<Date>)
        ensures
            r is Some <==> min_julian_day() <= julian_day_of(self@) - days <= max_julian_day(),
            r matches Some(d) ==> julian_day_of(d@) == julian_day_of(self@) - days && is_valid_ymd(
                d@,
            ),
            is_valid_ymd(self@),
    {
        proof {
            use_type_invariant(self);
        }
        match time_checked_sub_days(self.year, self.month.number(), self.day, days) {
            Some(t) => Some(Date::from_parts(t)),
            None => None,
        }
    }
}

/// Today's date in UTC.
pub fn today() -> (r: Date)
    ensures
        is_valid_ymd(r@),
{
    let t = time_today_utc();
    Date::from_parts(t)
}


/// A day shown in the month grid, and whether it belongs to the month shown.
#[derive(Clone, Copy, Debug, PartialEq, Eq, Structural)]
pub struct DayCell {
    pub date: Date,
    pub in_month: bool,
}

/// Julian day number of the Monday on or before the first day of the month:
/// the first cell of the month's grid.
pub open spec fn grid_start_julian_day(year: int, month: int) -> int {
    let first = julian_day(year, month, 1);
    first - first % 7
}

/// Whether the six weeks of the month's grid lie within the supported dates
/// (only the first and last months of the range can fail this).
pub open spec fn month_grid_fits(year: int, month: int) -> bool {
    &&& MIN_YEAR <= year <= MAX_YEAR
    &&& 1 <= month <= 12
    &&& min_julian_day() <= grid_start_julian_day(year, month)
    &&& grid_start_julian_day(year, month) + 41 <= max_julian_day()
}

/// `cells` is the grid of `month` of `year`: 42 consecutive days starting on
/// the Monday on or before the first of the month, each flagged by whether
/// it lies in that month.
pub open spec fn is_month_grid(year: int, month: int, cells: Seq<DayCell>) -> bool {
    &&& cells.len() == 42
    &&& forall|i: int|
        0 <= i < 42 ==> is_valid_ymd(#[trigger] cells[i].date@) && julian_day_of(cells[i].date@)
            == grid_start_julian_day(year, month) + i
    &&& forall|i: int|
        0 <= i < 42 ==> #[trigger] cells[i].in_month == (cells[i].date@.0 == year
            && cells[i].date@.1 == month)
}

/// The grid of `month` of `year`, or `None` where part of it would fall
/// outside the supported dates.
pub fn try_month_grid(year: i32, month: Month) -> (r: Option<Vec<DayCell>>)
    ensures
        r is Some <==> month_grid_fits(year as int, month_number(month)),
        r matches Some(cells) ==> is_month_grid(year as int, month_number(month), cells@),
{
    let ghost m = month_number(month);
    let first = match Date::from_calendar_date(year, month, 1) {
        Some(d) => d,
        None => {
            return None;
        },
    };
    let offset = first.days_from_monday();
    let start = match first.checked_sub_days(offset as i32) {
        Some(d) => d,
        None => {
            return None;
        },
    };
    assert(julian_day_of(start@) == grid_start_julian_day(year as int, m));
    let mut cells: Vec<DayCell> = Vec::new();
    let mut i: i32 = 0;
    while i < 42
        invariant
            0 <= i <= 42,
            cells@.len() == i,
            m == month_number(month),
            MIN_YEAR <= year <= MAX_YEAR,
            1 <= m <= 12,
            julian_day_of(start@) == grid_start_julian_day(year as int, m),
            min_julian_day() <= julian_day_of(start@) <= max_julian_day(),
            i > 0 ==> julian_day_of(start@) + i - 1 <= max_julian_day(),
            forall|k: int|
                0 <= k < i ==> is_valid_ymd(#[trigger] cells@[k].date@) && julian_day_of(
                    cells@[k].date@,
                ) == grid_start_julian_day(year as int, m) + k,
            forall|k: int|
                0 <= k < i ==> #[trigger] cells@[k].in_month == (cells@[k].date@.0 == year
                    && cells@[k].date@.1 == m),
        decreases 42 - i,
    {
        let date = match start.checked_add_days(i) {
            Some(d) => d,
            None => {
                return None;
            },
        };
        let in_month = date.year() == year && date.month().number() == month.number();
        cells.push(DayCell { date, in_month });
        i = i + 1;
    }
    Some(cells)
}

/// The 42-day grid (six Monday-to-Sunday weeks) covering `month` of `year`,
/// padded with the trailing days of the previous and next months.
pub fn month_grid(year: i32, month: Month) -> (r: Vec<DayCell>)
    requires
        month_grid_fits(year as int, month_number(month)),
    ensures
        is_month_grid(year as int, month_number(month), r@),
{
    match try_month_grid(year, month) {
        Some(cells) => cells,
        None => {
            assert(false);
            Vec::new()
        },
    }
}

/// The month before `month` of `year`, stepping back a year from January.
pub fn previous_month(year: i32, month: Month) -> (r: (i32, Month))
    requires
        month == Month::January ==> year > i32::MIN,
    ensures
        (r.0 as int, month_number(r.1)) == month_before(year as int, month_number(month)),
{
    if month == Month::January {
        (year - 1, Month::December)
    } else {
        (year, month.previous())
    }
}

/// The month after `month` of `year`, stepping to the next year after
/// December.
pub fn next_month(year: i32, month: Month) -> (r: (i32, Month))
    requires
        month == Month::December ==> year < i32::MAX,
    ensures
        (r.0 as int, month_number(r.1)) == month_after(year as int, month_number(month)),
{
    if month == Month::December {
        (year + 1, Month::January)
    } else {
        (year, month.next())
    }
}


/// The (year, month number) before a month.
pub open spec fn month_before(year: int, month: int) -> (int, int) {
    if month == 1 {
        (year - 1, 12)
    } else {
        (year, month - 1)
    }
}

/// The (year, month number) after a month.
pub open spec fn month_after(year: int, month: int) -> (int, int) {
    if month == 12 {
        (year + 1, 1)
    } else {
        (year, month + 1)
    }
}

/// Stepping a month back and then forward again, or forward and then back,
/// returns to the month one started from.
pub proof fn lemma_month_steps_undo(year: int, month: int)
    requires
        1 <= month <= 12,
    ensures
        month_after(month_before(year, month).0, month_before(year, month).1) == (year, month),
        month_before(month_after(year, month).0, month_after(year, month).1) == (year, month),
        1 <= month_before(year, month).1 <= 12,
        1 <= month_after(year, month).1 <= 12,
{
}

/// Every row of a month grid is a full Monday-to-Sunday week: the cells are
/// consecutive days and the cell at index `i` falls `i % 7` days after a
/// Monday.
pub proof fn lemma_month_grid_weeks(year: int, month: int, cells: Seq<DayCell>)
    requires
        is_month_grid(year, month, cells),
    ensures
        forall|i: int|
            0 <= i < 42 ==> weekday_from_monday(
                #[trigger] cells[i].date@.0,
                cells[i].date@.1,
                cells[i].date@.2,
            ) == i % 7,
        forall|i: int|
            0 <= i < 41 ==> julian_day_of(#[trigger] cells[i + 1].date@) == julian_day_of(
                cells[i].date@,
            ) + 1,
{
    let first = julian_day(year, month, 1);
    let start = grid_start_julian_day(year, month);
    assert(start % 7 == 0) by (nonlinear_arith)
        requires
            start == first - first % 7,
    ;
    assert forall|i: int| 0 <= i < 42 implies weekday_from_monday(
        #[trigger] cells[i].date@.0,
        cells[i].date@.1,
        cells[i].date@.2,
    ) == i % 7 by {
        assert(julian_day_of(cells[i].date@) == start + i);
        assert((start + i) % 7 == i % 7) by (nonlinear_arith)
            requires
                start % 7 == 0,
        ;
    }
    assert forall|i: int| 0 <= i < 41 implies julian_day_of(#[trigger] cells[i + 1].date@)
        == julian_day_of(cells[i].date@) + 1 by {
        assert(julian_day_of(cells[i].date@) == start + i);
        assert(julian_day_of(cells[i + 1].date@) == start + i + 1);
    }
}

/// Days between the Monday starting a month's grid and the first of the
/// month: the index of the month's first day in its grid.
pub open spec fn grid_offset(year: int, month: int) -> int {
    julian_day(year, month, 1) % 7
}

/// The index of day `d` of the month in the month's grid.
pub open spec fn grid_index_of_day(year: int, month: int, d: int) -> int {
    grid_offset(year, month) + d - 1
}

/// A month grid shows every day of its month, day `d` at index
/// `grid_offset + d - 1`, and a cell is flagged as in the month exactly when
/// its index lies in that range.
pub proof fn lemma_month_grid_covers_month(year: int, month: int, cells: Seq<DayCell>)
    requires
        month_grid_fits(year, month),
        is_month_grid(year, month, cells),
    ensures
        0 <= grid_offset(year, month) < 7,
        forall|d: int|
            1 <= d <= days_in_month(year, month) ==> cells[#[trigger] grid_index_of_day(
                year,
                month,
                d,
            )].date@ == (year, month, d) && cells[grid_index_of_day(year, month, d)].in_month,
        forall|i: int|
            0 <= i < 42 ==> (#[trigger] cells[i].in_month <==> grid_offset(year, month) <= i
                < grid_offset(year, month) + days_in_month(year, month)),
{
    let w = grid_offset(year, month);
    let start = grid_start_julian_day(year, month);
    let dim = days_in_month(year, month);
    assert forall|d: int| 1 <= d <= dim implies cells[#[trigger] grid_index_of_day(
        year,
        month,
        d,
    )].date@ == (year, month, d) && cells[grid_index_of_day(year, month, d)].in_month by {
        let i = w + d - 1;
        assert(0 <= i < 42);
        assert(julian_day_of(cells[i].date@) == start + i);
        assert(julian_day(year, month, d) == start + i);
        lemma_julian_day_order(cells[i].date@, (year, month, d));
    }
    assert forall|i: int| 0 <= i < 42 implies (#[trigger] cells[i].in_month <==> w <= i < w
        + dim) by {
        let t = cells[i].date@;
        if cells[i].in_month {
            assert(julian_day_of(t) == start + i);
            assert(julian_day(year, month, t.2) == julian_day(year, month, 1) + t.2 - 1);
        } else if w <= i < w + dim {
            let d = i - w + 1;
            assert(cells[grid_index_of_day(year, month, d)].date@ == (year, month, d));
        }
    }
}

/// The number of cells flagged as in the month.
pub open spec fn count_in_month(cells: Seq<DayCell>) -> nat
    decreases cells.len(),
{
    if cells.len() == 0 {
        0
    } else {
        count_in_month(cells.drop_last()) + if cells.last().in_month {
            1nat
        } else {
            0nat
        }
    }
}

proof fn lemma_count_in_month_prefix(cells: Seq<DayCell>, lo: int, hi: int, n: int)
    requires
        0 <= lo <= hi <= 42,
        cells.len() == 42,
        0 <= n <= 42,
        forall|i: int| 0 <= i < 42 ==> (#[trigger] cells[i].in_month <==> lo <= i < hi),
    ensures
        count_in_month(cells.subrange(0, n)) == if n <= lo {
            0
        } else if n <= hi {
            n - lo
        } else {
            hi - lo
        },
    decreases n,
{
    if n > 0 {
        lemma_count_in_month_prefix(cells, lo, hi, n - 1);
        assert(cells.subrange(0, n).drop_last() =~= cells.subrange(0, n - 1));
        assert(cells.subrange(0, n).last() == cells[n - 1]);
    }
}

/// A month grid flags as many cells as the month has days.
pub proof fn lemma_month_grid_in_month_count(year: int, month: int, cells: Seq<DayCell>)
    requires
        month_grid_fits(year, month),
        is_month_grid(year, month, cells),
    ensures
        count_in_month(cells) == days_in_month(year, month),
{
    lemma_month_grid_covers_month(year, month, cells);
    let w = grid_offset(year, month);
    let dim = days_in_month(year, month);
    lemma_count_in_month_prefix(cells, w, w + dim, 42);
    assert(cells.subrange(0, 42) =~= cells);
}


/// The calendar date at the start of an RFC 3339 timestamp: the text before
/// the first `-` read as an `i32` year, the text up to the next `-` as the
/// month number, and the two characters after it as the day, each read as
/// std's `FromStr` reads integers; `None` where a part is missing, does not
/// read, or the three do not form a valid date.
pub open spec fn parse_date_spec(s: Seq<char>) -> Option<(int, int, int)> {
    match split_once(s, '-') {
        None => None,
        Some((year_text, rest)) => match split_once(rest, '-') {
            None => None,
            Some((month_text, day_rest)) => if day_rest.len() < 2 {
                None
            } else {
                match (
                    parse_signed(year_text, i32::MIN as int, i32::MAX as int),
                    parse_unsigned(month_text, 255),
                    parse_unsigned(day_rest.take(2), 255),
                ) {
                    (Some(y), Some(m), Some(d)) => if is_valid_date(y, m, d) {
                        Some((y, m, d))
                    } else {
                        None
                    },
                    _ => None,
                }
            },
        },
    }
}

/// Parses the `YYYY-MM-DD...` prefix of an RFC 3339 timestamp (as sent by
/// the backend) into a calendar date, ignoring the time-of-day component.
pub fn parse_date(rfc3339: &str) -> (r: Option<Date>)
    ensures
        r is None <==> parse_date_spec(rfc3339@) is None,
        r matches Some(d) ==> parse_date_spec(rfc3339@) == Some(d@) && is_valid_ymd(d@),
{
    let s = chars_of(rfc3339);
    let ghost text = s@;
    assert(text.skip(0) =~= text);
    let dash1 = match find_char(&s, 0, '-') {
        Some(i) => i,
        None => {
            return None;
        },
    };
    proof {
        lemma_split_once_at(text, '-', dash1 as int);
    }
    let ghost rest = text.skip(dash1 + 1);
    let dash2 = match find_char(&s, dash1 + 1, '-') {
        Some(i) => i,
        None => {
            return None;
        },
    };
    proof {
        lemma_split_once_at(rest, '-', dash2 - dash1 - 1);
        assert(rest.take(dash2 - dash1 - 1) =~= text.subrange(dash1 + 1, dash2 as int));
        assert(rest.skip(dash2 - dash1) =~= text.skip(dash2 + 1));
        assert(text.take(dash1 as int) =~= text.subrange(0, dash1 as int));
    }
    let day_start = dash2 + 1;
    if s.len() - day_start < 2 {
        return None;
    }
    proof {
        assert(text.skip(dash2 + 1).take(2) =~= text.subrange(day_start as int, day_start + 2));
    }
    let year = parse_signed_range(&s, 0, dash1, 0x7fff_ffff);
    let month = parse_unsigned_range(&s, dash1 + 1, dash2, 255);
    let day = parse_unsigned_range(&s, day_start, day_start + 2, 255);
    match (year, month, day) {
        (Some(y), Some(m), Some(d)) => {
            match Month::from_number(m as u8) {
                Some(month) => Date::from_calendar_date(y as i32, month, d as u8),
                None => None,
            }
        },
        _ => None,
    }
}

/// The `YYYY-MM-DD` text of a date whose year lies in 0..=9999, as RFC 3339
/// timestamps begin.
pub open spec fn iso_date_text(y: int, m: int, d: int) -> Seq<char> {
    fixed_digits(y as nat, 4) + seq!['-'] + fixed_digits(m as nat, 2) + seq!['-'] + fixed_digits(
        d as nat,
        2,
    )
}

/// A timestamp that begins with the `YYYY-MM-DD` text of a valid date reads
/// as that date, whatever time of day (or other text) follows.
pub proof fn lemma_parse_date_reads_iso_prefix(y: int, m: int, d: int, rest: Seq<char>)
    requires
        is_valid_date(y, m, d),
        0 <= y,
    ensures
        parse_date_spec(iso_date_text(y, m, d) + rest) == Some((y, m, d)),
{
    reveal_with_fuel(pow10, 5);
    lemma_fixed_digits_value(y as nat, 4);
    lemma_fixed_digits_value(m as nat, 2);
    lemma_fixed_digits_value(d as nat, 2);
    let year_text = fixed_digits(y as nat, 4);
    let month_text = fixed_digits(m as nat, 2);
    let day_text = fixed_digits(d as nat, 2);
    let s = iso_date_text(y, m, d) + rest;
    assert(s =~= year_text + (seq!['-'] + month_text + seq!['-'] + day_text + rest));
    assert(is_first_index(s, '-', 4)) by {
        assert(s[4] == '-');
        assert forall|k: int| 0 <= k < 4 implies s[k] != '-' by {
            assert(s[k] == year_text[k]);
        }
    }
    lemma_split_once_at(s, '-', 4);
    assert(s.take(4) =~= year_text);
    let after_year = s.skip(5);
    assert(after_year =~= month_text + (seq!['-'] + day_text + rest));
    assert(is_first_index(after_year, '-', 2)) by {
        assert(after_year[2] == '-');
        assert forall|k: int| 0 <= k < 2 implies after_year[k] != '-' by {
            assert(after_year[k] == month_text[k]);
        }
    }
    lemma_split_once_at(after_year, '-', 2);
    assert(after_year.take(2) =~= month_text);
    let after_month = after_year.skip(3);
    assert(after_month =~= day_text + rest);
    assert(after_month.take(2) =~= day_text);
    assert(unsigned_body(year_text) == year_text);
    assert(unsigned_body(month_text) == month_text);
    assert(unsigned_body(day_text) == day_text);
    assert(parse_signed(year_text, i32::MIN as int, i32::MAX as int) == Some(y));
    assert(parse_unsigned(month_text, 255) == Some(m));
    assert(parse_unsigned(day_text, 255) == Some(d));
}

/// The twelve months in calendar order.
pub open spec fn calendar_months() -> Seq<Month> {
    seq![
        Month::January,
        Month::February,
        Month::March,
        Month::April,
        Month::May,
        Month::June,
        Month::July,
        Month::August,
        Month::September,
        Month::October,
        Month::November,
        Month::December,
    ]
}

/// Each month is numbered by its position in the calendar (January 1, ...,
/// May 5, ..., December 12), the numbering of `time::Month` that the
/// calendar calls pass on; the month with number `n` is the `n`-th month;
/// and the month after or before one is its neighbour in calendar order,
/// December and January wrapping around.
pub proof fn lemma_months_in_calendar_order()
    ensures
        forall|i: int|
            0 <= i < 12 ==> month_number(#[trigger] calendar_months()[i]) == i + 1
                && month_of_number(i + 1) == calendar_months()[i],
        forall|m: Month| calendar_months().contains(m),
{
    assert forall|m: Month| calendar_months().contains(m) by {
        let i = month_number(m) - 1;
        assert(calendar_months()[i] == m);
    }
}

/// The month after a month begins the day after that month ends, and the
/// month before a month ends the day before it begins: stepping a month
/// moves to the adjacent month of the calendar, across the year boundary
/// too.
pub proof fn lemma_month_steps_are_adjacent(year: int, month: int)
    requires
        year > MIN_YEAR,
        1 <= month <= 12,
    ensures
        1 <= month_after(year, month).1 <= 12,
        1 <= month_before(year, month).1 <= 12,
        julian_day(month_after(year, month).0, month_after(year, month).1, 1) == julian_day(
            year,
            month,
            days_in_month(year, month),
        ) + 1,
        julian_day(year, month, 1) == julian_day(
            month_before(year, month).0,
            month_before(year, month).1,
            days_in_month(month_before(year, month).0, month_before(year, month).1),
        ) + 1,
{
    lemma_days_before_month_step(year, month);
    lemma_julian_day_before_year_step(year);
    lemma_julian_day_before_year_step(year - 1);
    if month > 1 {
        lemma_days_before_month_step(year, month - 1);
    } else {
        lemma_days_before_month_step(year - 1, 12);
    }
}

} // verus!
