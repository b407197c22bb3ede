use leitsys::agenda::{due_on, due_stats, questions_due_on, review_dates};
use leitsys::api::{Endpoint, Question, Step};
use leitsys::calendar::{Date, Month};
use leitsys::review::{grading_call, remove_question};
use leitsys::steps::{moved_order, sort_steps};

fn question(id: i64, due: &str) -> Question {
    Question {
        id,
        title: format!("q{id}"),
        answer: "a".to_string(),
        category_id: 1,
        current_step_id: 1,
        next_review_date: due.to_string(),
        is_archived: false,
    }
}

fn step(id: i64, order: i64) -> Step {
    Step { id, title: format!("s{id}"), step_order: order, spacing_days: 1, color_code: "#95a5a6".to_string() }
}

fn date(y: i32, m: Month, d: u8) -> Date {
    Date::from_calendar_date(y, m, d).unwrap()
}

#[test]
fn review_dates_skip_unreadable_dates() {
    let qs = vec![
        question(1, "2026-09-17T10:00:00Z"),
        question(2, "garbage"),
        question(3, "2026-10-01T00:00:00Z"),
    ];
    let dates = review_dates(&qs);
    assert_eq!(dates, vec![date(2026, Month::September, 17), date(2026, Month::October, 1)]);
}

#[test]
fn due_stats_count_late_today_and_month() {
    let dates = vec![
        date(2026, Month::September, 1),
        date(2026, Month::September, 17),
        date(2026, Month::September, 17),
        date(2026, Month::October, 2),
        date(2025, Month::December, 31),
    ];
    let today = date(2026, Month::September, 17);
    let stats = due_stats(&dates, &today, 2026, Month::September);
    assert_eq!(stats.late, 2);
    assert_eq!(stats.due_today, 2);
    assert_eq!(stats.this_month, 3);
    assert_eq!(stats.active, 5);
    assert_eq!(due_on(&dates, &today), 2);
    assert_eq!(due_on(&dates, &date(2026, Month::October, 2)), 1);
    assert_eq!(due_on(&dates, &date(2026, Month::October, 3)), 0);
}

#[test]
fn graded_questions_leave_the_queue() {
    let mut queue = vec![question(1, "x"), question(2, "y"), question(3, "z"), question(2, "w")];
    remove_question(&mut queue, 2);
    assert_eq!(queue.iter().map(|q| q.id).collect::<Vec<_>>(), vec![1, 3]);
    remove_question(&mut queue, 9);
    assert_eq!(queue.len(), 2);
    remove_question(&mut queue, 1);
    remove_question(&mut queue, 3);
    assert!(queue.is_empty());
}

#[test]
fn grading_follows_the_answer() {
    assert_eq!(grading_call(Ok(5), true), Ok(Endpoint::MarkAnswerCorrect(5)));
    assert_eq!(grading_call(Ok(5), false), Ok(Endpoint::MarkAnswerIncorrect(5)));
    assert_eq!(grading_call(Err("down".to_string()), true), Err("down".to_string()));
}

#[test]
fn steps_sort_stably_by_order() {
    let steps = vec![step(1, 3), step(2, 1), step(3, 2), step(4, 1), step(5, 3)];
    let sorted = sort_steps(steps);
    assert_eq!(sorted.iter().map(|s| s.id).collect::<Vec<_>>(), vec![2, 4, 3, 1, 5]);
    assert!(sort_steps(vec![]).is_empty());
}

#[test]
fn steps_move_one_place() {
    assert_eq!(moved_order(3, -1), 2);
    assert_eq!(moved_order(3, 1), 4);
}

#[test]
fn calendar_counts_add_up_to_the_month_counter() {
    let dates = vec![
        date(2026, Month::September, 1),
        date(2026, Month::September, 30),
        date(2026, Month::September, 30),
        date(2026, Month::August, 31),
        date(2026, Month::October, 1),
    ];
    let grid = leitsys::calendar::month_grid(2026, Month::September);
    let total: usize = grid.iter().filter(|c| c.in_month).map(|c| due_on(&dates, &c.date)).sum();
    let stats = due_stats(&dates, &date(2026, Month::September, 17), 2026, Month::September);
    assert_eq!(total, stats.this_month);
    assert_eq!(total, 3);
    // The padding cells still show their own counts.
    assert_eq!(due_on(&dates, &grid[0].date), 1);
}

#[test]
fn late_today_and_later_partition_the_active_questions() {
    let dates = vec![
        date(2026, Month::January, 1),
        date(2026, Month::March, 3),
        date(2026, Month::March, 4),
        date(2027, Month::January, 1),
    ];
    let today = date(2026, Month::March, 3);
    let stats = due_stats(&dates, &today, 2026, Month::March);
    let later = dates.iter().filter(|d| today.is_before(d)).count();
    assert_eq!(stats.late + stats.due_today + later, stats.active);
}

#[test]
fn picking_a_day_lists_the_questions_due_then() {
    let qs = vec![
        question(1, "2026-09-17T10:00:00Z"),
        question(2, "2026-09-18T10:00:00Z"),
        question(3, "garbage"),
        question(4, "2026-09-17T23:59:59Z"),
    ];
    let day = date(2026, Month::September, 17);
    assert_eq!(questions_due_on(&qs, &day), vec![0, 3]);
    assert_eq!(questions_due_on(&qs, &day).len(), due_on(&review_dates(&qs), &day));
    assert!(questions_due_on(&qs, &date(2026, Month::September, 19)).is_empty());
}
