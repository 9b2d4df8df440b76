use std::collections::VecDeque;

use mousse::display::{history_stats, log_entry_kind, title_text, HistoryStats, LogKind};
use mousse::state::{AppState, MouseEvent};
use mousse::text::decimal_string;

#[test]
fn decimal_text() {
    assert_eq!(decimal_string(0), "0");
    assert_eq!(decimal_string(7), "7");
    assert_eq!(decimal_string(10), "10");
    assert_eq!(decimal_string(-42), "-42");
    assert_eq!(decimal_string(i64::MAX), "9223372036854775807");
    assert_eq!(decimal_string(i64::MIN), "-9223372036854775808");
}

#[test]
fn log_kinds() {
    assert_eq!(log_entry_kind("[t] SCROLL dy:1 dx:0"), LogKind::Scroll);
    assert_eq!(log_entry_kind("[t] LEFT DOWN"), LogKind::Down);
    assert_eq!(log_entry_kind("[t] RIGHT UP"), LogKind::Up);
    assert_eq!(log_entry_kind("[t] hello"), LogKind::Other);
    assert_eq!(log_entry_kind(""), LogKind::Other);
    assert_eq!(log_entry_kind("UP DOWN"), LogKind::Down);
    assert_eq!(log_entry_kind("U"), LogKind::Other);
    assert_eq!(log_entry_kind("xSCROLLDOWN"), LogKind::Scroll);
}

#[test]
fn titles() {
    assert_eq!(title_text(true), "mousse [PAUSED — p: resume, c: clear, q: quit]");
    assert_eq!(title_text(false), "mousse [p: pause, c: clear, q: quit]");
    let mut s = AppState::new();
    assert_eq!(s.title(), "mousse [p: pause, c: clear, q: quit]");
    s.handle_key('p');
    assert_eq!(s.title(), "mousse [PAUSED — p: resume, c: clear, q: quit]");
}

#[test]
fn stats_of_empty_history() {
    let h: VecDeque<i64> = VecDeque::new();
    assert_eq!(history_stats(&h), HistoryStats { min: 0, max: 0, sum: 0, count: 0 });
}

#[test]
fn stats_of_history() {
    let h: VecDeque<i64> = VecDeque::from(vec![3, -7, 10, 0, 2]);
    assert_eq!(history_stats(&h), HistoryStats { min: -7, max: 10, sum: 8, count: 5 });
}

#[test]
fn stats_sum_does_not_overflow() {
    let h: VecDeque<i64> = VecDeque::from(vec![i64::MAX, i64::MAX, i64::MIN]);
    let s = history_stats(&h);
    assert_eq!(s.sum, i64::MAX as i128 - 1);
    assert_eq!((s.min, s.max, s.count), (i64::MIN, i64::MAX, 3));
}

#[test]
fn chart_bars_and_scale() {
    let mut s = AppState::new();
    assert_eq!(s.scroll_bars(), Vec::<u64>::new());
    assert_eq!(s.scroll_chart_max(), 1);
    for dy in [0i64, -5, 3] {
        s.apply_event_at(MouseEvent::Scroll { dx: 0, dy, continuous: 0 }, "t");
    }
    assert_eq!(s.scroll_bars(), vec![0, 5, 3]);
    assert_eq!(s.scroll_chart_max(), 5);
    s.clear();
    s.apply_event_at(MouseEvent::Scroll { dx: 0, dy: i64::MIN, continuous: 0 }, "t");
    assert_eq!(s.scroll_bars(), vec![1u64 << 63]);
    assert_eq!(s.scroll_chart_max(), 1u64 << 63);
}

#[test]
fn chart_scale_is_at_least_one() {
    let mut s = AppState::new();
    s.apply_event_at(MouseEvent::Scroll { dx: 0, dy: 0, continuous: 0 }, "t");
    assert_eq!(s.scroll_chart_max(), 1);
}

#[test]
fn stats_do_not_depend_on_order() {
    let a: VecDeque<i64> = VecDeque::from(vec![4, -1, 9, 9, 0]);
    let b: VecDeque<i64> = VecDeque::from(vec![9, 0, 4, 9, -1]);
    assert_eq!(history_stats(&a), history_stats(&b));
    assert_eq!(history_stats(&a), HistoryStats { min: -1, max: 9, sum: 21, count: 5 });
}

#[test]
fn log_lines_are_newest_first_with_kinds() {
    let mut s = AppState::new();
    assert!(s.log_lines_newest_first().is_empty());
    s.apply_event_at(MouseEvent::LeftDown, "a");
    s.apply_event_at(MouseEvent::Scroll { dx: 1, dy: 2, continuous: 0 }, "b");
    s.apply_event_at(MouseEvent::RightUp, "c");
    s.log_at("d", "note");
    let lines: Vec<(&str, LogKind)> =
        s.log_lines_newest_first().into_iter().map(|l| (l.text, l.kind)).collect();
    assert_eq!(
        lines,
        vec![
            ("[d] note", LogKind::Other),
            ("[c] RIGHT UP", LogKind::Up),
            ("[b] SCROLL dy:2 dx:1", LogKind::Scroll),
            ("[a] LEFT DOWN", LogKind::Down),
        ]
    );
}
