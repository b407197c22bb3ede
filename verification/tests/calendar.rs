use leitsys::calendar::{
    month_grid, next_month, parse_date, previous_month, today, try_month_grid, Date, Month,
};

#[test]
fn month_grid_always_has_42_cells() {
    assert_eq!(month_grid(2026, Month::February).len(), 42);
    assert_eq!(month_grid(2026, Month::September).len(), 42);
    assert_eq!(month_grid(2024, Month::February).len(), 42); // leap year
}

#[test]
fn month_grid_marks_in_month_correctly() {
    let year = 2026;
    let month = Month::September;
    let days_in_month = Date::from_calendar_date(year, month.next(), 1).unwrap().checked_sub_days(1).unwrap();
    let expected_in_month_count = days_in_month.day() as usize;

    let grid = month_grid(year, month);
    let in_month_count = grid.iter().filter(|c| c.in_month).count();
    assert_eq!(in_month_count, expected_in_month_count);

    for cell in &grid {
        let belongs_to_requested_month = cell.date.year() == year && cell.date.month() == month;
        assert_eq!(cell.in_month, belongs_to_requested_month);
    }
}

#[test]
fn previous_month_rolls_over_the_year_boundary() {
    assert_eq!(previous_month(2026, Month::January), (2025, Month::December));
    assert_eq!(previous_month(2026, Month::September), (2026, Month::August));
}

#[test]
fn next_month_rolls_over_the_year_boundary() {
    assert_eq!(next_month(2026, Month::December), (2027, Month::January));
    assert_eq!(next_month(2026, Month::September), (2026, Month::October));
}

#[test]
fn parse_date_reads_the_date_prefix_of_an_rfc3339_timestamp() {
    assert_eq!(
        parse_date("2026-09-17T10:00:00.123456Z"),
        Some(Date::from_calendar_date(2026, Month::September, 17).unwrap())
    );
}

#[test]
fn parse_date_rejects_garbage() {
    assert_eq!(parse_date("not a date"), None);
    assert_eq!(parse_date("2026-13-40T00:00:00Z"), None);
}

#[test]
fn parse_date_reads_integers_as_from_str_does() {
    assert_eq!(parse_date("+2026-+9-07"), Some(Date::from_calendar_date(2026, Month::September, 7).unwrap()));
    assert_eq!(parse_date("02026-009-07"), Some(Date::from_calendar_date(2026, Month::September, 7).unwrap()));
    assert_eq!(parse_date("2024-02-29"), Some(Date::from_calendar_date(2024, Month::February, 29).unwrap()));
    assert_eq!(parse_date("2023-02-29"), None);
    assert_eq!(parse_date("2026-09-7"), None);
    assert_eq!(parse_date("2026-09"), None);
    assert_eq!(parse_date("-2026-09-17"), None);
    assert_eq!(parse_date("10000-01-01"), None);
    assert_eq!(parse_date("2026-09-1é"), None);
}

#[test]
fn month_grid_starts_on_the_monday_before_the_first() {
    // September 1, 2026 is a Tuesday.
    let grid = month_grid(2026, Month::September);
    assert_eq!(grid[0].date, Date::from_calendar_date(2026, Month::August, 31).unwrap());
    assert!(!grid[0].in_month);
    assert_eq!(grid[1].date, Date::from_calendar_date(2026, Month::September, 1).unwrap());
    assert_eq!(grid[41].date, Date::from_calendar_date(2026, Month::October, 11).unwrap());
    for cell in &grid {
        assert!(cell.date.days_from_monday() < 7);
    }
    for (i, cell) in grid.iter().enumerate() {
        assert_eq!(cell.date.days_from_monday() as usize, i % 7);
    }
}

#[test]
fn month_grid_of_a_leap_february_flags_29_days() {
    let grid = month_grid(2024, Month::February);
    assert_eq!(grid.iter().filter(|c| c.in_month).count(), 29);
    let grid = month_grid(2026, Month::February);
    assert_eq!(grid.iter().filter(|c| c.in_month).count(), 28);
}

#[test]
fn month_grid_outside_the_supported_years_is_refused() {
    assert!(try_month_grid(10000, Month::January).is_none());
    assert!(try_month_grid(-10000, Month::January).is_none());
    // December 9999 would run past the last supported date.
    assert!(try_month_grid(9999, Month::December).is_none());
    assert!(try_month_grid(9999, Month::November).is_some());
}

#[test]
fn weekday_and_day_arithmetic() {
    let d = Date::from_calendar_date(2000, Month::January, 1).unwrap();
    assert_eq!(d.days_from_monday(), 5); // a Saturday
    let next = d.checked_add_days(60).unwrap();
    assert_eq!(next, Date::from_calendar_date(2000, Month::March, 1).unwrap());
    assert_eq!(d.checked_sub_days(1).unwrap(), Date::from_calendar_date(1999, Month::December, 31).unwrap());
    let last = Date::from_calendar_date(9999, Month::December, 31).unwrap();
    assert!(last.checked_add_days(1).is_none());
}

#[test]
fn calendar_dates_are_validated() {
    assert!(Date::from_calendar_date(2026, Month::April, 31).is_none());
    assert!(Date::from_calendar_date(1900, Month::February, 29).is_none());
    assert!(Date::from_calendar_date(2000, Month::February, 29).is_some());
    assert!(Date::from_calendar_date(2026, Month::April, 0).is_none());
}

#[test]
fn months_step_back_and_forth() {
    assert_eq!(Month::January.previous(), Month::December);
    assert_eq!(Month::December.next(), Month::January);
    assert_eq!(Month::from_number(9), Some(Month::September));
    assert_eq!(Month::from_number(13), None);
    assert_eq!(Month::September.number(), 9);
    let (y, m) = previous_month(2026, Month::March);
    assert_eq!(next_month(y, m), (2026, Month::March));
}

#[test]
fn today_is_a_date_of_the_supported_range() {
    let t = today();
    assert!(t.year() >= 2024 && t.year() <= 9999);
    assert!(t.day() >= 1 && t.day() <= 31);
}

#[test]
fn dates_compare_in_calendar_order() {
    let a = Date::from_calendar_date(2026, Month::January, 31).unwrap();
    let b = Date::from_calendar_date(2026, Month::February, 1).unwrap();
    assert!(a.is_before(&b));
    assert!(!b.is_before(&a));
    assert!(a.same_day(&a));
    assert!(!a.same_day(&b));
}

#[test]
fn parse_date_reads_back_any_iso_date() {
    assert_eq!(parse_date("0000-02-29"), Some(Date::from_calendar_date(0, Month::February, 29).unwrap()));
    assert_eq!(parse_date("9999-12-31T23:59:59Z"), Some(Date::from_calendar_date(9999, Month::December, 31).unwrap()));
    assert_eq!(parse_date("1999-01-05anything"), Some(Date::from_calendar_date(1999, Month::January, 5).unwrap()));
}
