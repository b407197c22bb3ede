//! The home page's review agenda: the due dates of the active questions,
//! how many are late, due today or due in the month shown, and how many fall
//! on each day of the calendar.

use vstd::prelude::*;
use crate::api::Question;
use crate::calendar::{
    date_precedes, days_in_month, grid_offset, is_month_grid, is_valid_ymd,
    lemma_month_grid_covers_month, month_grid_fits, month_number, parse_date, parse_date_spec,
    grid_index_of_day, Date, DayCell, Month,
};

verus! {

/// The due dates of `questions`, in order, skipping those whose
/// `next_review_date` does not read as a date.
pub open spec fn review_dates_spec(questions: Seq<Question>) -> Seq<(int, int, int)>
    decreases questions.len(),
{
    if questions.len() == 0 {
        Seq::empty()
    } else {
        let earlier = review_dates_spec(questions.drop_last());
        match parse_date_spec(questions.last().next_review_date@) {
            Some(d) => earlier.push(d),
            None => earlier,
        }
    }
}

pub open spec fn dates_view(dates: Seq<Date>) -> Seq<(int, int, int)> {
    dates.map_values(|d: Date| d@)
}

/// The due dates of the questions whose review date reads as a date.
pub fn review_dates(questions: &Vec<Question>) -> (r: Vec<Date>)
    ensures
        dates_view(r@) == review_dates_spec(questions@),
        forall|i: int| 0 <= i < r@.len() ==> is_valid_ymd(#[trigger] r@[i]@),
{
    let mut out: Vec<Date> = Vec::new();
    let mut i: usize = 0;
    while i < questions.len()
        invariant
            i <= questions@.len(),
            dates_view(out@) == review_dates_spec(questions@.take(i as int)),
            forall|k: int| 0 <= k < out@.len() ==> is_valid_ymd(#[trigger] out@[k]@),
        decreases questions@.len() - i,
    {
        let ghost before = out@;
        proof {
            assert(questions@.take(i + 1).drop_last() =~= questions@.take(i as int));
            assert(questions@.take(i + 1).last() == questions@[i as int]);
        }
        match parse_date(questions[i].next_review_date.as_str()) {
            Some(d) => {
                out.push(d);
                assert(dates_view(out@) =~= dates_view(before).push(d@));
            },
            None => {},
        }
        i = i + 1;
    }
    assert(questions@.take(questions@.len() as int) =~= questions@);
    out
}

/// The positions, in order, of the questions whose review date reads as
/// `day`.
pub open spec fn due_on_day_spec(questions: Seq<Question>, day: (int, int, int)) -> Seq<int>
    decreases questions.len(),
{
    if questions.len() == 0 {
        Seq::empty()
    } else {
        let earlier = due_on_day_spec(questions.drop_last(), day);
        if parse_date_spec(questions.last().next_review_date@) == Some(day) {
            earlier.push(questions.len() - 1)
        } else {
            earlier
        }
    }
}

/// The questions due on `day` (shown when a day of the calendar is picked):
/// their positions in `questions`, in order.
pub fn questions_due_on(questions: &Vec<Question>, day: &Date) -> (r: Vec<usize>)
    ensures
        r@.map_values(|i: usize| i as int) == due_on_day_spec(questions@, day@),
{
    let mut out: Vec<usize> = Vec::new();
    let mut i: usize = 0;
    while i < questions.len()
        invariant
            i <= questions@.len(),
            out@.map_values(|k: usize| k as int) == due_on_day_spec(questions@.take(i as int), day@),
        decreases questions@.len() - i,
    {
        let ghost before = out@;
        proof {
            assert(questions@.take(i + 1).drop_last() =~= questions@.take(i as int));
            assert(questions@.take(i + 1).last() == questions@[i as int]);
        }
        match parse_date(questions[i].next_review_date.as_str()) {
            Some(d) => {
                if d.same_day(day) {
                    out.push(i);
                    assert(out@.map_values(|k: usize| k as int) =~= before.map_values(
                        |k: usize| k as int,
                    ).push(i as int));
                }
            },
            None => {},
        }
        i = i + 1;
    }
    assert(questions@.take(questions@.len() as int) =~= questions@);
    out
}

/// Which dates a count keeps.
pub enum DateFilter {
    Before((int, int, int)),
    On((int, int, int)),
    After((int, int, int)),
    InMonth(int, int),
}

pub open spec fn passes(d: (int, int, int), f: DateFilter) -> bool {
    match f {
        DateFilter::Before(t) => date_precedes(d, t),
        DateFilter::On(t) => d == t,
        DateFilter::After(t) => date_precedes(t, d),
        DateFilter::InMonth(y, m) => d.0 == y && d.1 == m,
    }
}

/// How many of `dates` pass the filter.
pub open spec fn count_passing(dates: Seq<(int, int, int)>, f: DateFilter) -> nat
    decreases dates.len(),
{
    if dates.len() == 0 {
        0
    } else {
        count_passing(dates.drop_last(), f) + if passes(dates.last(), f) {
            1nat
        } else {
            0nat
        }
    }
}

proof fn lemma_count_passing_bound(dates: Seq<(int, int, int)>, f: DateFilter)
    ensures
        count_passing(dates, f) <= dates.len(),
    decreases dates.len(),
{
    if dates.len() > 0 {
        lemma_count_passing_bound(dates.drop_last(), f);
    }
}

/// Counts the dates passing the filter that `kind` selects (0: before
/// `day`, 1: on `day`, otherwise: in `month` of `year`).
fn count_dates(dates: &Vec<Date>, day: &Date, year: i32, month: Month, kind: u8) -> (r: usize)
    ensures
        r == count_passing(
            dates_view(dates@),
            if kind == 0 {
                DateFilter::Before(day@)
            } else if kind == 1 {
                DateFilter::On(day@)
            } else {
                DateFilter::InMonth(year as int, month_number(month))
            },
        ),
{
    let ghost f = if kind == 0 {
        DateFilter::Before(day@)
    } else if kind == 1 {
        DateFilter::On(day@)
    } else {
        DateFilter::InMonth(year as int, month_number(month))
    };
    let ghost all = dates_view(dates@);
    let mut n: usize = 0;
    let mut i: usize = 0;
    while i < dates.len()
        invariant
            i <= dates@.len(),
            all == dates_view(dates@),
            f == if kind == 0 {
                DateFilter::Before(day@)
            } else if kind == 1 {
                DateFilter::On(day@)
            } else {
                DateFilter::InMonth(year as int, month_number(month))
            },
            n == count_passing(all.take(i as int), f),
            n <= i,
        decreases dates@.len() - i,
    {
        let d = &dates[i];
        let pass = if kind == 0 {
            d.is_before(day)
        } else if kind == 1 {
            d.same_day(day)
        } else {
            d.year() == year && d.month().number() == month.number()
        };
        proof {
            assert(all.take(i + 1).drop_last() =~= all.take(i as int));
            assert(all.take(i + 1).last() == d@);
            assert(pass == passes(d@, f));
        }
        if pass {
            n = n + 1;
        }
        i = i + 1;
    }
    assert(all.take(dates@.len() as int) =~= all);
    n
}

/// The agenda's counters.
#[derive(Clone, Copy, Debug, PartialEq, Eq, Structural)]
pub struct DueStats {
    /// Reviews whose date has passed.
    pub late: usize,
    /// Reviews due today.
    pub due_today: usize,
    /// Reviews due in the month shown.
    pub this_month: usize,
    /// All active questions with a due date.
    pub active: usize,
}

/// The agenda's counters for `dates`, as of `today`, with `month` of `year`
/// shown.
pub fn due_stats(dates: &Vec<Date>, today: &Date, year: i32, month: Month) -> (r: DueStats)
    ensures
        r.late == count_passing(dates_view(dates@), DateFilter::Before(today@)),
        r.due_today == count_passing(dates_view(dates@), DateFilter::On(today@)),
        r.this_month == count_passing(
            dates_view(dates@),
            DateFilter::InMonth(year as int, month_number(month)),
        ),
        r.active == dates@.len(),
{
    DueStats {
        late: count_dates(dates, today, year, month, 0),
        due_today: count_dates(dates, today, year, month, 1),
        this_month: count_dates(dates, today, year, month, 2),
        active: dates.len(),
    }
}

/// How many of `dates` fall on `day` (the count shown on a calendar cell).
pub fn due_on(dates: &Vec<Date>, day: &Date) -> (r: usize)
    ensures
        r == count_passing(dates_view(dates@), DateFilter::On(day@)),
{
    count_dates(dates, day, 0, Month::January, 1)
}

/// Every due date is late, due today, or due later: the three counts add up
/// to the number of dates.
pub proof fn lemma_due_counts_partition(dates: Seq<(int, int, int)>, today: (int, int, int))
    ensures
        count_passing(dates, DateFilter::Before(today)) + count_passing(dates, DateFilter::On(today))
            + count_passing(dates, DateFilter::After(today)) == dates.len(),
    decreases dates.len(),
{
    if dates.len() > 0 {
        lemma_due_counts_partition(dates.drop_last(), today);
    }
}

/// The month's count never exceeds the number of active questions.
pub proof fn lemma_month_count_bounded(dates: Seq<(int, int, int)>, year: int, month: int)
    ensures
        count_passing(dates, DateFilter::InMonth(year, month)) <= dates.len(),
{
    lemma_count_passing_bound(dates, DateFilter::InMonth(year, month));
}

/// Reviews due on days 1 to `k` of `month` of `year`, counted day by day.
pub open spec fn month_day_total(dates: Seq<(int, int, int)>, year: int, month: int, k: int) -> nat
    decreases k,
{
    if k <= 0 {
        0
    } else {
        month_day_total(dates, year, month, k - 1) + count_passing(
            dates,
            DateFilter::On((year, month, k)),
        )
    }
}

/// The counts shown on the cells of a grid that belong to its month, added
/// up.
pub open spec fn in_month_cell_total(cells: Seq<DayCell>, dates: Seq<(int, int, int)>) -> nat
    decreases cells.len(),
{
    if cells.len() == 0 {
        0
    } else {
        in_month_cell_total(cells.drop_last(), dates) + if cells.last().in_month {
            count_passing(dates, DateFilter::On(cells.last().date@))
        } else {
            0
        }
    }
}

proof fn lemma_month_day_total_push(
    dates: Seq<(int, int, int)>,
    x: (int, int, int),
    year: int,
    month: int,
    k: int,
)
    ensures
        month_day_total(dates.push(x), year, month, k) == month_day_total(dates, year, month, k)
            + if x.0 == year && x.1 == month && 1 <= x.2 <= k {
            1nat
        } else {
            0nat
        },
    decreases k,
{
    if k > 0 {
        lemma_month_day_total_push(dates, x, year, month, k - 1);
        assert(dates.push(x).drop_last() =~= dates);
    }
}

proof fn lemma_month_day_total_is_month_count(dates: Seq<(int, int, int)>, year: int, month: int)
    requires
        forall|i: int| 0 <= i < dates.len() ==> is_valid_ymd(#[trigger] dates[i]),
    ensures
        month_day_total(dates, year, month, days_in_month(year, month)) == count_passing(
            dates,
            DateFilter::InMonth(year, month),
        ),
    decreases dates.len(),
{
    let dim = days_in_month(year, month);
    if dates.len() == 0 {
        lemma_month_day_total_empty(dates, year, month, dim);
    } else {
        let earlier = dates.drop_last();
        let x = dates.last();
        assert forall|i: int| 0 <= i < earlier.len() implies is_valid_ymd(#[trigger] earlier[i]) by {
            assert(earlier[i] == dates[i]);
        }
        lemma_month_day_total_is_month_count(earlier, year, month);
        assert(earlier.push(x) =~= dates);
        lemma_month_day_total_push(earlier, x, year, month, dim);
        assert(is_valid_ymd(dates[dates.len() - 1]));
    }
}

proof fn lemma_month_day_total_empty(dates: Seq<(int, int, int)>, year: int, month: int, k: int)
    requires
        dates.len() == 0,
    ensures
        month_day_total(dates, year, month, k) == 0,
    decreases k,
{
    if k > 0 {
        lemma_month_day_total_empty(dates, year, month, k - 1);
    }
}

proof fn lemma_in_month_cell_prefix(
    year: int,
    month: int,
    cells: Seq<DayCell>,
    dates: Seq<(int, int, int)>,
    n: int,
)
    requires
        month_grid_fits(year, month),
        is_month_grid(year, month, cells),
        0 <= n <= 42,
    ensures
        in_month_cell_total(cells.take(n), dates) == month_day_total(
            dates,
            year,
            month,
            if n <= grid_offset(year, month) {
                0
            } else if n <= grid_offset(year, month) + days_in_month(year, month) {
                n - grid_offset(year, month)
            } else {
                days_in_month(year, month)
            },
        ),
    decreases n,
{
    lemma_month_grid_covers_month(year, month, cells);
    let w = grid_offset(year, month);
    let dim = days_in_month(year, month);
    if n == 0 {
        assert(cells.take(0).len() == 0);
    } else {
        lemma_in_month_cell_prefix(year, month, cells, dates, n - 1);
        assert(cells.take(n).drop_last() =~= cells.take(n - 1));
        assert(cells.take(n).last() == cells[n - 1]);
        if w < n <= w + dim {
            let d = n - w;
            assert(grid_index_of_day(year, month, d) == n - 1);
            assert(cells[n - 1].date@ == (year, month, d));
        }
    }
}

/// The counts shown on the days of the month in the home page's calendar
/// add up to the "this month" counter, for every month whose grid exists
/// and every list of (valid) due dates.
pub proof fn lemma_calendar_counts_add_up(
    year: int,
    month: int,
    cells: Seq<DayCell>,
    dates: Seq<(int, int, int)>,
)
    requires
        month_grid_fits(year, month),
        is_month_grid(year, month, cells),
        forall|i: int| 0 <= i < dates.len() ==> is_valid_ymd(#[trigger] dates[i]),
    ensures
        in_month_cell_total(cells, dates) == count_passing(dates, DateFilter::InMonth(year, month)),
{
    lemma_in_month_cell_prefix(year, month, cells, dates, 42);
    assert(cells.take(42) =~= cells);
    lemma_month_grid_covers_month(year, month, cells);
    lemma_month_day_total_is_month_count(dates, year, month);
}

/// A calendar day lists as many questions as its count shows.
pub proof fn lemma_day_list_matches_day_count(questions: Seq<Question>, day: (int, int, int))
    ensures
        due_on_day_spec(questions, day).len() == count_passing(
            review_dates_spec(questions),
            DateFilter::On(day),
        ),
    decreases questions.len(),
{
    if questions.len() > 0 {
        lemma_day_list_matches_day_count(questions.drop_last(), day);
        let earlier = review_dates_spec(questions.drop_last());
        match parse_date_spec(questions.last().next_review_date@) {
            Some(d) => {
                assert(earlier.push(d).drop_last() =~= earlier);
            },
            None => {},
        }
    }
}

} // verus!
