use evexbot::date::{Date, date_to_ordinal};
use evexbot::forecast::{Forecast, HORIZON_DAYS, OrchestratorStep, delegate_payload, fallback_scan,
    interpret_delegate_reply, next_step};
use evexbot::history::JoinHistory;
use evexbot::milestone::evaluate_milestone;
use smartcore::linalg::naive::dense_matrix::DenseMatrix;
use smartcore::linear::linear_regression::LinearRegression;

fn d(year: i64, month: i64, day: i64) -> Date {
    Date { year, month, day }
}

/// Degree-3 polynomial least-squares fit of rank against day ordinal, as the
/// regression fallback uses.
fn fit_poly3(xs: &[i64], ys: &[i64]) -> LinearRegression<f64, DenseMatrix<f64>> {
    let n = xs.len();
    let mut feats: Vec<f64> = Vec::with_capacity(n * 4);
    for &x in xs {
        let xf = x as f64;
        for p in 0..=3 {
            feats.push(xf.powi(p));
        }
    }
    let m = DenseMatrix::from_array(n, 4, &feats);
    let y: Vec<f64> = ys.iter().map(|&v| v as f64).collect();
    LinearRegression::fit(&m, &y, Default::default()).unwrap()
}

/// The fitted value at a day, rounded down with a small tolerance guard.
fn eval_floor(lr: &LinearRegression<f64, DenseMatrix<f64>>, day: i64) -> i64 {
    let xf = day as f64;
    let mut feats: Vec<f64> = Vec::with_capacity(4);
    for p in 0..=3 {
        feats.push(xf.powi(p));
    }
    let pred = lr.predict(&DenseMatrix::from_array(1, 4, &feats)).unwrap()[0];
    (pred + 1e-7).floor() as i64
}

/// Fitted floors over the scan window starting at the last observed day.
fn scan_floors(h: &JoinHistory) -> Vec<i64> {
    let (xs, ys) = h.regression_inputs().unwrap();
    let lr = fit_poly3(&xs, &ys);
    let last = h.last_day();
    (0..HORIZON_DAYS as i64).map(|i| eval_floor(&lr, last + i)).collect()
}

/// A history with `per_day` joins on each of `days` consecutive days,
/// starting the day after day ordinal 0.
fn linear_history(per_day: usize, days: i64) -> JoinHistory {
    let mut dates = Vec::new();
    for day in 1..=days {
        for _ in 0..per_day {
            dates.push(evexbot::date::ordinal_to_date(day));
        }
    }
    JoinHistory::from_dates(dates).unwrap()
}

#[test]
fn linear_growth_forecast_is_target_over_rate() {
    // One join per day: the forecast day for target T is exactly day T.
    let h = linear_history(1, 10);
    let preds = scan_floors(&h);
    let day = fallback_scan(h.last_day(), &preds, 17).unwrap();
    assert_eq!(day, 17);

    // Five joins per day: target 63 is reached on day 13 = ceil(63/5).
    let h = linear_history(5, 10);
    let preds = scan_floors(&h);
    let day = fallback_scan(h.last_day(), &preds, 63).unwrap();
    assert_eq!(day, 13);
}

#[test]
fn forecast_beyond_horizon_is_no_result() {
    let h = linear_history(1, 10);
    let preds = scan_floors(&h);
    // One member per day: a target further away than the horizon is never
    // reached within it.
    assert!(fallback_scan(h.last_day(), &preds, 10_000).is_none());
}

#[test]
fn scan_picks_first_qualifying_day() {
    let preds = vec![5, 7, 9, 11, 9, 13];
    assert_eq!(fallback_scan(100, &preds, 9), Some(102));
    assert_eq!(fallback_scan(100, &preds, 5), Some(100));
    assert_eq!(fallback_scan(100, &preds, 14), None);
}

#[test]
fn orchestrator_prefers_delegate() {
    let delegate = Forecast { day: 123, chart: Vec::new() };
    let mut fallback_calls = 0;
    let result = match next_step(Some(delegate)) {
        OrchestratorStep::Done(f) => Some(f),
        OrchestratorStep::TryFallback => {
            fallback_calls += 1;
            None
        },
    };
    assert_eq!(fallback_calls, 0);
    assert_eq!(result.unwrap().day, 123);
}

#[test]
fn orchestrator_falls_back_on_no_result() {
    let mut fallback_calls = 0;
    let result = match next_step(None) {
        OrchestratorStep::Done(f) => Some(f),
        OrchestratorStep::TryFallback => {
            fallback_calls += 1;
            None
        },
    };
    assert_eq!(fallback_calls, 1);
    assert!(result.is_none());
}

#[test]
fn delegate_reply_needs_success() {
    let r = interpret_delegate_reply(
        false,
        Some("2024-01-02T00:00:00+00:00".to_string()),
        None,
    );
    assert!(r.is_none());
}

#[test]
fn delegate_reply_needs_date() {
    assert!(interpret_delegate_reply(true, None, Some("AQID".to_string())).is_none());
}

#[test]
fn delegate_reply_parses_date_and_image() {
    let r = interpret_delegate_reply(
        true,
        Some("2024-01-02T00:00:00+00:00".to_string()),
        Some("AQID".to_string()),
    )
    .unwrap();
    assert_eq!(r.day, date_to_ordinal(&d(2024, 1, 2)));
    assert_eq!(r.chart, vec![1u8, 2, 3]);
}

#[test]
fn delegate_reply_without_image_has_empty_chart() {
    let r = interpret_delegate_reply(
        true,
        Some("2024-01-02T00:00:00+00:00".to_string()),
        None,
    )
    .unwrap();
    assert!(r.chart.is_empty());
}

#[test]
fn delegate_reply_converts_to_utc() {
    // 23:30 at UTC-5 is 04:30 the next day in UTC.
    let r = interpret_delegate_reply(
        true,
        Some("2024-01-01T23:30:00-05:00".to_string()),
        None,
    )
    .unwrap();
    assert_eq!(r.day, date_to_ordinal(&d(2024, 1, 2)));
}

#[test]
fn delegate_reply_accepts_dates_before_year_one() {
    // RFC 3339 admits four-digit years from 0000; such a forecast is
    // returned, not dropped.
    let text = "0000-01-05T00:00:00+00:00";
    let r = interpret_delegate_reply(true, Some(text.to_string()), None).unwrap();
    let expected = chrono::Datelike::num_days_from_ce(
        &chrono::DateTime::parse_from_rfc3339(text)
            .unwrap()
            .with_timezone(&chrono::Utc)
            .date_naive(),
    ) as i64;
    assert_eq!(r.day, expected);
    assert_eq!(r.day, -361);
    match evexbot::commands::growth_reply(10, Some(r), true) {
        evexbot::commands::GrowthReply::Done { description, .. } => {
            assert_eq!(description, "10人に達する予測日: 0000-01-05");
        },
        _ => panic!("expected forecast reply"),
    }
}

#[test]
fn delegate_reply_rejects_bad_fields() {
    assert!(interpret_delegate_reply(true, Some("not a date".to_string()), None).is_none());
    assert!(
        interpret_delegate_reply(
            true,
            Some("2024-01-02T00:00:00+00:00".to_string()),
            Some("!!!".to_string()),
        )
        .is_none()
    );
}

#[test]
fn payload_lists_dates_and_target() {
    let h = JoinHistory::from_dates(vec![d(2024, 1, 1), d(2024, 1, 2)]).unwrap();
    let payload = delegate_payload(&h, 150);
    assert_eq!(payload, "{\"dates\":[\"2024-01-01\",\"2024-01-02\"],\"target\":150}");
    let parsed: serde_json::Value = serde_json::from_str(&payload).unwrap();
    assert_eq!(parsed["target"], serde_json::Value::from(150));
    assert_eq!(parsed["dates"][1], serde_json::Value::from("2024-01-02"));
}

#[test]
fn payload_of_empty_history() {
    let h = JoinHistory::from_dates(Vec::new()).unwrap();
    assert_eq!(delegate_payload(&h, 1), "{\"dates\":[],\"target\":1}");
}

#[test]
fn end_to_end_milestone_forecast() {
    // Ten joins on consecutive days with increment 10: the tenth join lands
    // on a milestone and the next target is 20.
    let h = linear_history(1, 10);
    let e = evaluate_milestone(h.len() as i64, 10);
    assert!(e.is_milestone);
    assert_eq!(e.next_target, 20);

    // Under a linear continuation the fallback forecasts target 20 ten days
    // after the tenth join.
    let preds = scan_floors(&h);
    let day = fallback_scan(h.last_day(), &preds, e.next_target).unwrap();
    assert_eq!(day, h.last_day() + 10);
}
