use evexbot::date::Date;
use evexbot::history::JoinHistory;
use evexbot::chart::{render_growth_chart, render_milestone_chart, render_range_chart};

fn d(year: i64, month: i64, day: i64) -> Date {
    Date { year, month, day }
}

fn sample_history() -> JoinHistory {
    let dates = vec![
        d(2024, 1, 1),
        d(2024, 1, 1),
        d(2024, 1, 3),
        d(2024, 1, 4),
        d(2024, 1, 7),
    ];
    JoinHistory::from_dates(dates).unwrap()
}

fn decode_dims(bytes: &[u8]) -> (u32, u32) {
    let img = image::load_from_memory(bytes).unwrap();
    (image::GenericImageView::dimensions(&img).0, image::GenericImageView::dimensions(&img).1)
}

#[test]
fn growth_chart_has_configured_dimensions() {
    let h = sample_history();
    let first = h.first_day();
    let predicted = first + 9;
    let projected: Vec<i32> = (0..10).map(|i| i as i32 + 1).collect();
    let bytes = render_growth_chart(&h, predicted, &projected).unwrap();
    assert_eq!(decode_dims(&bytes), (800, 450));
}

#[test]
fn milestone_chart_has_configured_dimensions() {
    let h = sample_history();
    let bytes = render_milestone_chart(&h).unwrap().unwrap();
    assert_eq!(decode_dims(&bytes), (800, 300));
}

#[test]
fn milestone_chart_of_empty_history_is_absent() {
    let h = JoinHistory::from_dates(Vec::new()).unwrap();
    assert!(render_milestone_chart(&h).unwrap().is_none());
}

#[test]
fn range_chart_has_configured_dimensions() {
    let h = sample_history();
    let start = h.first_day();
    let end = h.last_day();
    let (bytes, counts) = render_range_chart(&h, start, end).unwrap();
    assert_eq!(decode_dims(&bytes), (1200, 400));
    assert_eq!(counts, vec![2, 2, 3, 4, 4, 4, 5]);
}

#[test]
fn charts_are_painted_not_black() {
    // The canvas is filled white before the series are drawn; a backend that
    // left the zeroed buffer untouched would decode to black pixels.
    let h = sample_history();
    let bytes = render_milestone_chart(&h).unwrap().unwrap();
    let img = image::load_from_memory(&bytes).unwrap().to_rgb8();
    let corner = img.get_pixel(0, 0);
    assert_eq!(corner.0, [255u8, 255, 255]);
}
