use mousse::state::{AppState, KeyAction, MouseEvent, TapAction, HISTORY_CAPACITY, LOG_CAPACITY};

fn scroll(dx: i64, dy: i64, continuous: i64) -> MouseEvent {
    MouseEvent::Scroll { dx, dy, continuous }
}

#[test]
fn new_state_is_empty_at_origin() {
    let s = AppState::new();
    assert_eq!((s.mouse_x, s.mouse_y), (0, 0));
    assert!(!s.btn_left && !s.btn_right && !s.btn_middle && !s.btn_side_back && !s.btn_side_forward);
    assert_eq!((s.scroll_dx, s.scroll_dy), (0, 0));
    assert!(!s.scroll_is_pixel);
    assert!(s.scroll_dy_history.is_empty());
    assert!(s.scroll_dx_history.is_empty());
    assert!(s.event_log.is_empty());
    assert!(!s.paused);
}

#[test]
fn log_at_formats_entry() {
    let mut s = AppState::new();
    s.log_at("12:34:56.789", "LEFT DOWN");
    assert_eq!(s.event_log.len(), 1);
    assert_eq!(s.event_log[0], "[12:34:56.789] LEFT DOWN");
}

#[test]
fn log_at_while_paused_does_nothing() {
    let mut s = AppState::new();
    s.paused = true;
    s.log_at("00:00:00.000", "LEFT DOWN");
    assert!(s.event_log.is_empty());
}

#[test]
fn log_keeps_newest_hundred_entries() {
    let mut s = AppState::new();
    for i in 0..150 {
        s.log_at("t", &format!("m{}", i));
    }
    assert_eq!(s.event_log.len(), LOG_CAPACITY);
    assert_eq!(s.event_log[0], "[t] m50");
    assert_eq!(s.event_log[99], "[t] m149");
}

#[test]
fn log_stamps_with_local_time() {
    let mut s = AppState::new();
    s.log("hello".to_string());
    assert_eq!(s.event_log.len(), 1);
    let entry = s.event_log[0].clone();
    assert!(entry.starts_with('['));
    assert!(entry.ends_with("] hello"));
    let stamp = &entry[1..entry.len() - "] hello".len()];
    assert_clock_text(stamp);
}

fn assert_clock_text(stamp: &str) {
    let b = stamp.as_bytes();
    assert_eq!(b.len(), 12, "timestamp {:?}", stamp);
    assert_eq!(b[2], b':');
    assert_eq!(b[5], b':');
    assert_eq!(b[8], b'.');
    for i in [0, 1, 3, 4, 6, 7, 9, 10, 11] {
        assert!(b[i].is_ascii_digit(), "timestamp {:?}", stamp);
    }
    let two = |i: usize| (b[i] - b'0') as u32 * 10 + (b[i + 1] - b'0') as u32;
    assert!(two(0) <= 23 && two(3) <= 59 && two(6) <= 59, "timestamp {:?}", stamp);
}

#[test]
fn log_while_paused_does_nothing() {
    let mut s = AppState::new();
    s.paused = true;
    s.log("hello".to_string());
    assert!(s.event_log.is_empty());
}

#[test]
fn clear_empties_histories_and_log_only() {
    let mut s = AppState::new();
    s.apply_event_at(MouseEvent::Moved { x: 5, y: 6 }, "t");
    s.apply_event_at(scroll(1, -2, 1), "t");
    s.apply_event_at(MouseEvent::LeftDown, "t");
    s.clear();
    assert!(s.scroll_dy_history.is_empty());
    assert!(s.scroll_dx_history.is_empty());
    assert!(s.event_log.is_empty());
    assert_eq!((s.mouse_x, s.mouse_y), (5, 6));
    assert_eq!((s.scroll_dx, s.scroll_dy), (1, -2));
    assert!(s.btn_left);
    assert!(s.scroll_is_pixel);
}

#[test]
fn moves_set_position_without_logging() {
    let mut s = AppState::new();
    s.apply_event_at(MouseEvent::Moved { x: -10, y: 2000 }, "t");
    assert_eq!((s.mouse_x, s.mouse_y), (-10, 2000));
    assert!(s.event_log.is_empty());
}

#[test]
fn left_and_right_buttons() {
    let mut s = AppState::new();
    s.apply_event_at(MouseEvent::LeftDown, "a");
    assert!(s.btn_left);
    s.apply_event_at(MouseEvent::RightDown, "b");
    assert!(s.btn_right);
    s.apply_event_at(MouseEvent::LeftUp, "c");
    assert!(!s.btn_left);
    s.apply_event_at(MouseEvent::RightUp, "d");
    assert!(!s.btn_right);
    let log: Vec<&str> = s.event_log.iter().map(|e| e.as_str()).collect();
    assert_eq!(log, vec!["[a] LEFT DOWN", "[b] RIGHT DOWN", "[c] LEFT UP", "[d] RIGHT UP"]);
}

#[test]
fn other_buttons_by_number() {
    let mut s = AppState::new();
    s.apply_event_at(MouseEvent::OtherDown { button: 2 }, "t");
    s.apply_event_at(MouseEvent::OtherDown { button: 3 }, "t");
    s.apply_event_at(MouseEvent::OtherDown { button: 4 }, "t");
    assert!(s.btn_middle && s.btn_side_back && s.btn_side_forward);
    s.apply_event_at(MouseEvent::OtherUp { button: 2 }, "t");
    s.apply_event_at(MouseEvent::OtherUp { button: 3 }, "t");
    s.apply_event_at(MouseEvent::OtherUp { button: 4 }, "t");
    assert!(!s.btn_middle && !s.btn_side_back && !s.btn_side_forward);
    let log: Vec<&str> = s.event_log.iter().map(|e| e.as_str()).collect();
    assert_eq!(
        log,
        vec![
            "[t] MIDDLE DOWN",
            "[t] BACK DOWN",
            "[t] FORWARD DOWN",
            "[t] MIDDLE UP",
            "[t] BACK UP",
            "[t] FORWARD UP"
        ]
    );
}

#[test]
fn unknown_button_numbers_are_ignored() {
    let mut s = AppState::new();
    s.apply_event_at(MouseEvent::OtherDown { button: 5 }, "t");
    s.apply_event_at(MouseEvent::OtherUp { button: 1 }, "t");
    s.apply_event_at(MouseEvent::Other, "t");
    assert!(!s.btn_middle && !s.btn_side_back && !s.btn_side_forward);
    assert!(s.event_log.is_empty());
}

#[test]
fn scroll_records_deltas_and_logs() {
    let mut s = AppState::new();
    s.apply_event_at(scroll(0, -3, 0), "t");
    assert_eq!((s.scroll_dx, s.scroll_dy), (0, -3));
    assert!(!s.scroll_is_pixel);
    assert_eq!(s.event_log[0], "[t] SCROLL dy:-3 dx:0");
    s.apply_event_at(scroll(12, 40, 1), "u");
    assert!(s.scroll_is_pixel);
    assert_eq!(s.event_log[1], "[u] SCROLL dy:40 dx:12");
    assert_eq!(s.scroll_dy_history.iter().copied().collect::<Vec<i64>>(), vec![-3, 40]);
    assert_eq!(s.scroll_dx_history.iter().copied().collect::<Vec<i64>>(), vec![0, 12]);
}

#[test]
fn scroll_is_pixel_only_for_exactly_one() {
    let mut s = AppState::new();
    s.apply_event_at(scroll(1, 1, 2), "t");
    assert!(!s.scroll_is_pixel);
}

#[test]
fn scroll_extreme_values_are_written_exactly() {
    let mut s = AppState::new();
    s.apply_event_at(scroll(i64::MAX, i64::MIN, 0), "t");
    assert_eq!(
        s.event_log[0],
        "[t] SCROLL dy:-9223372036854775808 dx:9223372036854775807"
    );
}

#[test]
fn scroll_histories_keep_newest_sixty() {
    let mut s = AppState::new();
    for i in 0..100i64 {
        s.apply_event_at(scroll(-i, i, 0), "t");
    }
    assert_eq!(s.scroll_dy_history.len(), HISTORY_CAPACITY);
    assert_eq!(s.scroll_dx_history.len(), HISTORY_CAPACITY);
    assert_eq!(s.scroll_dy_history[0], 40);
    assert_eq!(*s.scroll_dy_history.back().unwrap(), 99);
    assert_eq!(s.scroll_dx_history[0], -40);
    assert_eq!(s.event_log.len(), LOG_CAPACITY);
}

#[test]
fn paused_scroll_updates_figures_but_not_log() {
    let mut s = AppState::new();
    s.paused = true;
    s.apply_event_at(scroll(2, 3, 0), "t");
    assert_eq!(s.scroll_dy_history.len(), 1);
    assert_eq!((s.scroll_dx, s.scroll_dy), (2, 3));
    assert!(s.event_log.is_empty());
    s.apply_event(MouseEvent::LeftDown);
    assert!(s.btn_left);
    assert!(s.event_log.is_empty());
}

#[test]
fn apply_event_stamps_with_clock() {
    let mut s = AppState::new();
    s.apply_event(scroll(0, 1, 0));
    assert_eq!(s.event_log.len(), 1);
    assert!(s.event_log[0].starts_with('['));
    assert!(s.event_log[0].ends_with("] SCROLL dy:1 dx:0"));
    let entry = s.event_log[0].clone();
    assert_clock_text(&entry[1..entry.len() - "] SCROLL dy:1 dx:0".len()]);
}

#[test]
fn keys_pause_clear_and_quit() {
    let mut s = AppState::new();
    assert_eq!(s.handle_key('p'), KeyAction::Continue);
    assert!(s.paused);
    assert_eq!(s.handle_key('p'), KeyAction::Continue);
    assert!(!s.paused);
    s.apply_event_at(MouseEvent::LeftDown, "t");
    assert_eq!(s.handle_key('c'), KeyAction::Continue);
    assert!(s.event_log.is_empty());
    assert!(s.btn_left);
    assert_eq!(s.handle_key('x'), KeyAction::Continue);
    s.apply_event_at(MouseEvent::LeftUp, "t");
    assert_eq!(s.handle_key('q'), KeyAction::Quit);
    assert_eq!(s.event_log.len(), 1);
    assert!(!s.paused);
}

#[test]
fn tap_stops_when_not_running() {
    let mut s = AppState::new();
    assert_eq!(s.on_tap_event(false, MouseEvent::LeftDown), TapAction::StopListening);
    assert!(!s.btn_left);
    assert!(s.event_log.is_empty());
    assert_eq!(s.on_tap_event(true, MouseEvent::Moved { x: 1, y: 2 }), TapAction::Continue);
    assert_eq!((s.mouse_x, s.mouse_y), (1, 2));
}

#[test]
fn event_logging_predicate() {
    assert!(MouseEvent::LeftDown.is_logged());
    assert!(scroll(0, 0, 0).is_logged());
    assert!(MouseEvent::OtherUp { button: 4 }.is_logged());
    assert!(!MouseEvent::OtherUp { button: 5 }.is_logged());
    assert!(!MouseEvent::Moved { x: 0, y: 0 }.is_logged());
    assert!(!MouseEvent::Other.is_logged());
}
