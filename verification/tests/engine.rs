use evexbot::cooldown::CooldownGuard;
use evexbot::date::Date;
use evexbot::history::JoinHistory;
use evexbot::milestone::evaluate_milestone;

fn d(year: i64, month: i64, day: i64) -> Date {
    Date { year, month, day }
}

#[test]
fn milestone_on_boundary() {
    let e = evaluate_milestone(200, 100);
    assert!(e.is_milestone);
    assert_eq!(e.remainder, 0);
    assert_eq!(e.next_target, 300);
}

#[test]
fn milestone_off_boundary() {
    let e = evaluate_milestone(237, 100);
    assert!(!e.is_milestone);
    assert_eq!(e.remainder, 37);
    assert_eq!(e.next_target, 300);
}

#[test]
fn milestone_small_counts() {
    let e = evaluate_milestone(0, 5);
    assert!(e.is_milestone);
    assert_eq!(e.next_target, 5);
    let e = evaluate_milestone(4, 5);
    assert!(!e.is_milestone);
    assert_eq!(e.next_target, 5);
}

#[test]
fn cooldown_suppresses_same_population() {
    let mut g = CooldownGuard::new();
    assert!(g.accept(42, 100));
    assert!(!g.accept(42, 101));
    assert!(!g.accept(42, 102));
    assert!(g.accept(42, 103));
}

#[test]
fn cooldown_identical_instant() {
    let mut g = CooldownGuard::new();
    assert!(g.accept(7, 50));
    assert!(!g.accept(7, 50));
}

#[test]
fn cooldown_independent_populations() {
    let mut g = CooldownGuard::new();
    assert!(g.accept(1, 100));
    assert!(g.accept(2, 100));
    assert!(g.accept(3, 100));
    assert!(!g.accept(1, 100));
}

#[test]
fn history_rejects_unsorted() {
    let dates = vec![d(2024, 1, 2), d(2024, 1, 1)];
    assert!(JoinHistory::from_dates(dates).is_none());
}

#[test]
fn history_rejects_invalid_date() {
    let dates = vec![d(2023, 2, 29)];
    assert!(JoinHistory::from_dates(dates).is_none());
}

#[test]
fn history_accepts_duplicates() {
    let dates = vec![d(2024, 1, 1), d(2024, 1, 1), d(2024, 1, 3)];
    let h = JoinHistory::from_dates(dates).unwrap();
    assert_eq!(h.len(), 3);
}

#[test]
fn history_counts_are_step_function() {
    let dates = vec![d(2024, 1, 1), d(2024, 1, 1), d(2024, 1, 3)];
    let h = JoinHistory::from_dates(dates).unwrap();
    let start = h.first_day();
    let counts = h.daily_counts(start, 4);
    assert_eq!(counts, vec![2, 2, 3, 3]);
    assert_eq!(h.count_through(start - 1), 0);
}

#[test]
fn history_empty_is_allowed() {
    let h = JoinHistory::from_dates(Vec::new()).unwrap();
    assert_eq!(h.len(), 0);
}

#[test]
fn regression_inputs_need_two_records() {
    let h = JoinHistory::from_dates(Vec::new()).unwrap();
    assert!(h.regression_inputs().is_none());
    let h = JoinHistory::from_dates(vec![d(2024, 1, 1)]).unwrap();
    assert!(h.regression_inputs().is_none());
    let h = JoinHistory::from_dates(vec![d(2024, 1, 1), d(2024, 1, 2)]).unwrap();
    let (xs, ys) = h.regression_inputs().unwrap();
    assert_eq!(xs.len(), 2);
    assert_eq!(ys, vec![1, 2]);
}
