use hcs::display::{clock, compact_next, event_line, shorten_summary, DISPLAY_ZONE};
use hcs::error::HcsError;
use hcs::instant::UtcInstant;
use hcs::window::{
    next_window, select_next, today_window, tomorrow_start, NextEventQuery, TimeWindow,
    TodayEventQuery, WindowEvent,
};

const DAY: i64 = 86_400_000;

fn ev(start: Option<i64>, summary: Option<&str>) -> WindowEvent {
    WindowEvent {
        start: start.map(|ms| UtcInstant { unix_ms: ms }),
        summary: summary.map(|s| s.to_string()),
    }
}

#[test]
fn next_window_spans_one_day_from_now() {
    let now = UtcInstant { unix_ms: 1_704_103_200_000 };
    let w = next_window(now).unwrap();
    assert_eq!(w.start, now);
    assert_eq!(w.end.unix_ms - w.start.unix_ms, DAY);
}

#[test]
fn next_window_overflow_is_an_error() {
    let now = UtcInstant { unix_ms: i64::MAX - 1 };
    assert_eq!(next_window(now), Err(HcsError::NextError {}));
}

#[test]
fn today_window_spans_the_day() {
    let midnight = UtcInstant { unix_ms: 1_704_060_000_000 };
    assert_eq!(
        today_window(midnight),
        Ok(TimeWindow { start: midnight, end: UtcInstant { unix_ms: 1_704_060_000_000 + DAY } })
    );
    assert_eq!(today_window(UtcInstant { unix_ms: i64::MAX }), Err(HcsError::TodayError {}));
}

#[test]
fn tomorrow_starts_a_day_later() {
    let midnight = UtcInstant { unix_ms: 1_704_060_000_000 };
    assert_eq!(tomorrow_start(midnight), Ok(UtcInstant { unix_ms: 1_704_060_000_000 + DAY }));
    assert_eq!(
        tomorrow_start(UtcInstant { unix_ms: i64::MAX - DAY + 1 }),
        Err(HcsError::TomorrowError {})
    );
}

#[test]
fn next_of_empty_result_is_none_and_renders_na() {
    let r = select_next(vec![]);
    assert!(r.is_none());
    assert_eq!(compact_next(&r, DISPLAY_ZONE).unwrap(), "<fc=#00ed8a>N/A</fc>");
}

#[test]
fn next_takes_first_of_result() {
    let r = select_next(vec![ev(Some(2), Some("a")), ev(Some(1), Some("b"))]).unwrap();
    assert_eq!(r.summary.as_deref(), Some("a"));
}

#[test]
fn query_replies_without_data_are_errors() {
    assert!(matches!(TodayEventQuery::events(None), Err(HcsError::TodayError {})));
    assert!(matches!(NextEventQuery::next_event(None), Err(HcsError::NextError {})));
    assert!(matches!(NextEventQuery::next_event(Some(vec![])), Ok(None)));
    assert_eq!(TodayEventQuery::events(Some(vec![ev(Some(1), None)])).unwrap().len(), 1);
}

#[test]
fn event_line_shows_local_time() {
    // 2024-01-01T09:05:00Z is 11:05 in Bucharest.
    let (t, s) = event_line(&ev(Some(1_704_099_900_000), Some("Standup")), DISPLAY_ZONE).unwrap();
    assert_eq!(t, "11:05");
    assert_eq!(s, "Standup");
}

#[test]
fn event_line_needs_start_and_summary() {
    assert_eq!(
        event_line(&ev(None, Some("x")), DISPLAY_ZONE),
        Err(HcsError::MissingStart {})
    );
    assert_eq!(event_line(&ev(Some(0), None), DISPLAY_ZONE), Err(HcsError::MissingStart {}));
    assert_eq!(
        event_line(&ev(Some(0), Some("x")), "Nowhere/Land"),
        Err(HcsError::MissingStart {})
    );
}

#[test]
fn compact_line_truncates_long_summary() {
    let e = Some(ev(Some(1_704_099_900_000), Some("A very long meeting title")));
    assert_eq!(
        compact_next(&e, DISPLAY_ZONE).unwrap(),
        "<fc=#00ed8a>11:05</fc> <fc=#00d9ed>A very long meet...</fc>"
    );
    let f = Some(ev(Some(1_704_099_900_000), Some("Standup")));
    assert_eq!(
        compact_next(&f, DISPLAY_ZONE).unwrap(),
        "<fc=#00ed8a>11:05</fc> <fc=#00d9ed>Standup</fc>"
    );
    assert_eq!(compact_next(&Some(ev(None, Some("x"))), DISPLAY_ZONE), Err(HcsError::MissingStart {}));
}

#[test]
fn summary_shortening() {
    assert_eq!(shorten_summary("exactly sixteen!"), "exactly sixteen!");
    assert_eq!(shorten_summary("seventeen chars!!"), "seventeen chars!...");
    assert_eq!(shorten_summary(""), "");
}

#[test]
fn clock_formats_two_digits() {
    assert_eq!(clock(0), "00:00");
    assert_eq!(clock(9 * 3600 + 5 * 60 + 59), "09:05");
    assert_eq!(clock(86_399), "23:59");
}

#[test]
fn local_time_before_epoch() {
    // 1969-12-31T23:00:00Z is 01:00 in Bucharest.
    let (t, _) = event_line(&ev(Some(-3_600_000), Some("x")), DISPLAY_ZONE).unwrap();
    assert_eq!(t, "01:00");
}
