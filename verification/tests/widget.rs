use logs_panel::event::{ActivityLogEvent, DashboardState, EventType, LogLevel, Viewport};
use logs_panel::panel::{LogsPanel, PanelLine, StyledSpan};
use logs_panel::render_logs_panel;
use logs_panel::widget::panel_widget;
use ratatui::buffer::Buffer;
use ratatui::layout::Rect;
use ratatui::style::{Color, Style};
use ratatui::text::{Line, Span};
use ratatui::widgets::{Block, BorderType, Borders, Padding, Paragraph, Widget, Wrap};

fn event(event_type: EventType, time: &str, message: &str, color: Color) -> ActivityLogEvent {
    ActivityLogEvent {
        event_type,
        log_level: LogLevel::Info,
        display: true,
        time: time.to_string(),
        message: message.to_string(),
        color,
    }
}

fn framed(title: &str, lines: Vec<Line<'static>>) -> Paragraph<'static> {
    let block = Block::default()
        .title(title.to_string())
        .borders(Borders::ALL)
        .border_type(BorderType::Rounded)
        .border_style(Style::default().fg(Color::Cyan))
        .padding(Padding::uniform(1));
    Paragraph::new(lines).block(block).wrap(Wrap { trim: true })
}

fn drawn(widget: Paragraph<'static>, width: u16, height: u16) -> Buffer {
    let area = Rect::new(0, 0, width, height);
    let mut buffer = Buffer::empty(area);
    widget.render(area, &mut buffer);
    buffer
}

fn row(buffer: &Buffer, y: u16) -> String {
    let mut text = String::new();
    for x in 0..buffer.area.width {
        text.push_str(buffer[(x, y)].symbol());
    }
    text
}

#[test]
fn widget_is_the_framed_paragraph_of_the_event_lines() {
    let mut state = DashboardState {
        activity_logs: vec![
            event(EventType::Success, "10:00:01", "first", Color::Green),
            event(EventType::Error, "10:00:02", "second", Color::Yellow),
        ],
        log_scroll_offset: 0,
        max_logs: 0,
    };
    let widget = render_logs_panel(Viewport { width: 40, height: 10 }, &mut state);
    let expected = framed(
        "ACTIVITY LOG",
        vec![
            Line::from(vec![
                Span::raw("❌ ".to_string()),
                Span::styled("10:00:02 ".to_string(), Style::default().fg(Color::DarkGray)),
                Span::styled("second".to_string(), Style::default().fg(Color::Yellow)),
            ]),
            Line::from(vec![
                Span::raw("✅ ".to_string()),
                Span::styled("10:00:01 ".to_string(), Style::default().fg(Color::DarkGray)),
                Span::styled("first".to_string(), Style::default().fg(Color::Green)),
            ]),
        ],
    );
    assert_eq!(widget, expected);
}

#[test]
fn widget_of_an_empty_log_is_the_framed_placeholder() {
    let mut state = DashboardState { activity_logs: Vec::new(), log_scroll_offset: 0, max_logs: 0 };
    let widget = render_logs_panel(Viewport { width: 40, height: 10 }, &mut state);
    assert_eq!(widget, framed("ACTIVITY LOG", vec![Line::from("Starting up...")]));
}

#[test]
fn widget_title_carries_the_scroll_indicator() {
    let mut logs = Vec::new();
    for n in 0..10 {
        logs.push(event(EventType::Refresh, "t", &n.to_string(), Color::Blue));
    }
    let mut state = DashboardState { activity_logs: logs, log_scroll_offset: 3, max_logs: 0 };
    let widget = render_logs_panel(Viewport { width: 40, height: 4 }, &mut state);
    let expected = framed(
        "ACTIVITY LOG 7/10 ",
        vec![Line::from(vec![
            Span::raw(" ".to_string()),
            Span::styled("t ".to_string(), Style::default().fg(Color::DarkGray)),
            Span::styled("6".to_string(), Style::default().fg(Color::Blue)),
        ])],
    );
    assert_eq!(widget, expected);
}

#[test]
fn widget_differs_from_one_without_its_frame_or_wrap() {
    let panel = LogsPanel {
        title: "ACTIVITY LOG".to_string(),
        body: vec![PanelLine::Text("Starting up...")],
    };
    let widget = panel_widget(&panel);
    let lines = vec![Line::from("Starting up...")];
    let plain = Paragraph::new(lines.clone());
    let block = Block::default().title("ACTIVITY LOG".to_string());
    assert_ne!(widget, plain);
    assert_ne!(widget, plain.clone().wrap(Wrap { trim: true }));
    assert_ne!(widget, plain.clone().block(block.clone()).wrap(Wrap { trim: true }));
    let bordered = block.borders(Borders::ALL);
    assert_ne!(widget, plain.clone().block(bordered.clone()).wrap(Wrap { trim: true }));
    let rounded = bordered.border_type(BorderType::Rounded);
    assert_ne!(widget, plain.clone().block(rounded.clone()).wrap(Wrap { trim: true }));
    let cyan = rounded.border_style(Style::default().fg(Color::Cyan));
    assert_ne!(widget, plain.clone().block(cyan.clone()).wrap(Wrap { trim: true }));
    let padded = cyan.padding(Padding::uniform(1));
    assert_ne!(widget, plain.clone().block(padded.clone()));
    assert_ne!(widget, plain.clone().block(padded.clone()).wrap(Wrap { trim: false }));
    assert_eq!(widget, plain.block(padded).wrap(Wrap { trim: true }));
}

#[test]
fn span_without_colour_is_raw_and_one_with_colour_is_styled() {
    let panel = LogsPanel {
        title: String::new(),
        body: vec![PanelLine::Spans(vec![
            StyledSpan { text: "a".to_string(), color: None },
            StyledSpan { text: "b".to_string(), color: Some(Color::Red) },
        ])],
    };
    let expected = framed(
        "",
        vec![Line::from(vec![
            Span::raw("a".to_string()),
            Span::styled("b".to_string(), Style::default().fg(Color::Red)),
        ])],
    );
    assert_eq!(panel_widget(&panel), expected);
    let unstyled = framed(
        "",
        vec![Line::from(vec![Span::raw("a".to_string()), Span::raw("b".to_string())])],
    );
    assert_ne!(panel_widget(&panel), unstyled);
}

#[test]
fn drawn_panel_has_rounded_cyan_border_title_and_padded_text() {
    let mut state = DashboardState {
        activity_logs: vec![
            event(EventType::Refresh, "10:00:01", "older", Color::Green),
            event(EventType::Success, "10:00:02", "newer", Color::Magenta),
        ],
        log_scroll_offset: 0,
        max_logs: 0,
    };
    let widget = render_logs_panel(Viewport { width: 30, height: 8 }, &mut state);
    assert_eq!(state.max_logs, 5);
    let buffer = drawn(widget, 30, 8);
    assert_eq!(row(&buffer, 0), "╭ACTIVITY LOG────────────────╮");
    assert_eq!(row(&buffer, 1), "│                            │");
    assert_eq!(row(&buffer, 2), "│ ✅  10:00:02 newer          │");
    assert_eq!(row(&buffer, 3), "│ 10:00:01 older             │");
    assert_eq!(row(&buffer, 7), "╰────────────────────────────╯");
    assert_eq!(buffer[(0, 0)].fg, Color::Cyan);
    assert_eq!(buffer[(29, 7)].fg, Color::Cyan);
    assert_eq!(buffer[(2, 2)].fg, Color::Reset);
    assert_eq!(buffer[(5, 2)].fg, Color::DarkGray);
    assert_eq!(buffer[(14, 2)].fg, Color::Magenta);
    assert_eq!(buffer[(2, 3)].fg, Color::DarkGray);
    assert_eq!(buffer[(11, 3)].fg, Color::Green);
}

#[test]
fn drawn_panel_without_events_shows_the_placeholder() {
    let mut state = DashboardState { activity_logs: Vec::new(), log_scroll_offset: 0, max_logs: 0 };
    let widget = render_logs_panel(Viewport { width: 24, height: 6 }, &mut state);
    let buffer = drawn(widget, 24, 6);
    assert_eq!(row(&buffer, 0), "╭ACTIVITY LOG──────────╮");
    assert_eq!(row(&buffer, 2), "│ Starting up...       │");
}

#[test]
fn drawn_panel_wraps_a_long_message() {
    let mut state = DashboardState {
        activity_logs: vec![event(EventType::Waiting, "t", "alpha beta gamma delta", Color::White)],
        log_scroll_offset: 0,
        max_logs: 0,
    };
    let widget = render_logs_panel(Viewport { width: 16, height: 8 }, &mut state);
    let buffer = drawn(widget, 16, 8);
    assert_eq!(row(&buffer, 2), "│ t alpha beta │");
    assert_eq!(row(&buffer, 3), "│ gamma delta  │");
}
