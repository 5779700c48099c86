use logs_panel::event::{ActivityLogEvent, EventType, LogLevel};
use logs_panel::window::{capacity, display_window, visible_events};
use ratatui::style::Color;

fn event(n: usize, display: bool) -> ActivityLogEvent {
    ActivityLogEvent {
        event_type: EventType::StateChange,
        log_level: LogLevel::Debug,
        display,
        time: String::new(),
        message: n.to_string(),
        color: Color::Reset,
    }
}

#[test]
fn capacity_leaves_three_rows_out() {
    assert_eq!(capacity(10), 7);
    assert_eq!(capacity(4), 1);
    assert_eq!(capacity(3), 0);
    assert_eq!(capacity(2), 0);
    assert_eq!(capacity(0), 0);
    assert_eq!(capacity(u16::MAX), 65532);
}

#[test]
fn visible_events_keeps_order_and_drops_hidden() {
    let logs =
        vec![event(1, true), event(2, false), event(3, true), event(4, true), event(5, false)];
    let shown = visible_events(&logs);
    let messages: Vec<&str> = shown.iter().map(|e| e.message.as_str()).collect();
    assert_eq!(messages, vec!["1", "3", "4"]);
    assert!(visible_events(&Vec::new()).is_empty());
    assert!(visible_events(&vec![event(1, false)]).is_empty());
}

#[test]
fn window_is_newest_first() {
    let items: Vec<u32> = (1..=10).collect();
    assert_eq!(display_window(&items, 0, 7), vec![10, 9, 8, 7, 6, 5, 4]);
    assert_eq!(display_window(&items, 3, 7), vec![7, 6, 5, 4, 3, 2, 1]);
    assert_eq!(display_window(&items, 5, 7), vec![5, 4, 3, 2, 1]);
    assert_eq!(display_window(&items, 0, 100), vec![10, 9, 8, 7, 6, 5, 4, 3, 2, 1]);
    assert_eq!(display_window(&items, 9, 1), vec![1]);
}

#[test]
fn window_is_empty_without_room_or_items() {
    let items: Vec<u32> = (1..=10).collect();
    assert_eq!(display_window(&items, 0, 0), Vec::<u32>::new());
    assert_eq!(display_window(&items, 10, 7), Vec::<u32>::new());
    assert_eq!(display_window(&items, 15, 7), Vec::<u32>::new());
    assert_eq!(display_window(&items, usize::MAX, usize::MAX), Vec::<u32>::new());
    assert_eq!(display_window(&Vec::<u32>::new(), 0, 7), Vec::<u32>::new());
}

#[test]
fn window_matches_reverse_skip_take() {
    let items: Vec<u32> = (0..9).collect();
    for offset in 0..12 {
        for room in 0..12 {
            let expected: Vec<u32> = items.iter().rev().skip(offset).take(room).copied().collect();
            assert_eq!(display_window(&items, offset, room), expected);
        }
    }
}
