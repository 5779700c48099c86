//! The panel as plain values: its title and its lines of styled text.

use crate::color::{color_named, named_color, PanelColor};
use crate::event::{ActivityLogEvent, DashboardState, Viewport};
use crate::text::{glyph, status_glyph, title, title_string};
use crate::window::{
    capacity, capacity_of, display_window, source_index, visible, visible_events, window,
    window_is_bounded, window_is_newest_first, RESERVED_ROWS,
};
use ratatui::style::Color;
use vstd::prelude::*;

verus! {

/// A run of text in one style.
#[derive(Debug, PartialEq)]
pub struct StyledSpan {
    pub text: String,
    /// The foreground colour, or `None` for the terminal's default style.
    pub color: Option<Color>,
}

/// One line of the panel's body.
#[derive(Debug, PartialEq)]
pub enum PanelLine {
    /// A fixed notice in the default style.
    Text(&'static str),
    /// Styled spans, from left to right.
    Spans(Vec<StyledSpan>),
}

/// What the panel shows inside its frame.
#[derive(Debug, PartialEq)]
pub struct LogsPanel {
    pub title: String,
    /// The lines of the body, from top to bottom.
    pub body: Vec<PanelLine>,
}

/// A [`StyledSpan`] as a mathematical value.
pub struct SpanView {
    pub text: Seq<char>,
    pub color: Option<Color>,
}

/// A [`PanelLine`] as a mathematical value.
pub enum LineView {
    Text(Seq<char>),
    Spans(Seq<SpanView>),
}

/// A [`LogsPanel`] as a mathematical value.
pub struct PanelView {
    pub title: Seq<char>,
    pub body: Seq<LineView>,
}

impl View for StyledSpan {
    type V = SpanView;

    open spec fn view(&self) -> SpanView {
        SpanView { text: self.text@, color: self.color }
    }
}

impl View for PanelLine {
    type V = LineView;

    open spec fn view(&self) -> LineView {
        match *self {
            PanelLine::Text(text) => LineView::Text(text@),
            PanelLine::Spans(spans) => LineView::Spans(spans@.map_values(|s: StyledSpan| s@)),
        }
    }
}

impl View for LogsPanel {
    type V = PanelView;

    open spec fn view(&self) -> PanelView {
        PanelView { title: self.title@, body: self.body@.map_values(|l: PanelLine| l@) }
    }
}

/// The line that stands in for the events while there are none to show.
pub open spec fn placeholder() -> LineView {
    LineView::Text("Starting up..."@)
}

/// The line of an event: its status glyph, its timestamp in the muted colour and its
/// message in its worker's colour. A space follows the glyph and the timestamp.
pub open spec fn event_line(event: ActivityLogEvent) -> LineView {
    LineView::Spans(
        seq![
            SpanView { text: glyph(event.event_type, event.log_level) + seq![' '], color: None },
            SpanView {
                text: event.time@ + seq![' '],
                color: Some(named_color(PanelColor::DarkGray)),
            },
            SpanView { text: event.message@, color: Some(event.color) },
        ],
    )
}

/// The events that a panel of the given height shows, newest first.
pub open spec fn shown_events(
    logs: Seq<ActivityLogEvent>,
    offset: nat,
    height: u16,
) -> Seq<ActivityLogEvent> {
    window(visible(logs), offset, capacity_of(height))
}

/// The panel for the given events, scroll offset and viewport height.
pub open spec fn panel_of(logs: Seq<ActivityLogEvent>, offset: nat, height: u16) -> PanelView {
    let shown = shown_events(logs, offset, height);
    PanelView {
        title: title(visible(logs).len(), offset, capacity_of(height)),
        body: if shown.len() == 0 {
            seq![placeholder()]
        } else {
            shown.map_values(|e: ActivityLogEvent| event_line(e))
        },
    }
}

/// The panel shows no more events than fit and no more than are visible, and of the
/// events no more than are visible. Its body has one line for each event shown, or the
/// placeholder alone.
pub proof fn shown_events_are_bounded(logs: Seq<ActivityLogEvent>, offset: nat, height: u16)
    ensures
        shown_events(logs, offset, height).len() <= capacity_of(height),
        shown_events(logs, offset, height).len() <= visible(logs).len(),
        visible(logs).len() <= logs.len(),
        panel_of(logs, offset, height).body.len() == if shown_events(logs, offset, height).len()
            == 0 {
            1
        } else {
            shown_events(logs, offset, height).len()
        },
{
    window_is_bounded(visible(logs), offset, capacity_of(height));
    logs.lemma_filter_len(|e: ActivityLogEvent| e.display);
}

/// The panel's lines run from newer to older: of two lines, the upper one is the line of
/// the event that stands later among the visible events, and neither event is one of the
/// `offset` newest.
pub proof fn lines_are_newest_first(
    logs: Seq<ActivityLogEvent>,
    offset: nat,
    height: u16,
    upper: int,
    lower: int,
)
    requires
        0 <= upper < lower < shown_events(logs, offset, height).len(),
    ensures
        panel_of(logs, offset, height).body[upper] == event_line(
            visible(logs)[source_index(visible(logs).len(), offset, upper)],
        ),
        panel_of(logs, offset, height).body[lower] == event_line(
            visible(logs)[source_index(visible(logs).len(), offset, lower)],
        ),
        0 <= source_index(visible(logs).len(), offset, lower) < source_index(
            visible(logs).len(),
            offset,
            upper,
        ) < visible(logs).len() - offset,
{
    window_is_newest_first(visible(logs), offset, capacity_of(height), upper, lower);
}

/// Where no event is left to show, because none is visible, or all that are visible are
/// scrolled past, or the viewport has no room for a line, the body is the placeholder
/// line alone; and only then.
pub proof fn empty_window_shows_placeholder(logs: Seq<ActivityLogEvent>, offset: nat, height: u16)
    ensures
        visible(logs).len() == 0 || offset >= visible(logs).len() || height <= RESERVED_ROWS
            <==> shown_events(logs, offset, height).len() == 0,
        shown_events(logs, offset, height).len() == 0 <==> panel_of(logs, offset, height).body
            == seq![LineView::Text("Starting up..."@)],
{
    window_is_bounded(visible(logs), offset, capacity_of(height));
    let shown = shown_events(logs, offset, height);
    if shown.len() > 0 {
        assert(panel_of(logs, offset, height).body[0] == event_line(shown[0]));
        assert(seq![LineView::Text("Starting up..."@)][0] == LineView::Text("Starting up..."@));
    }
}

/// Lays out one event as a line of the panel.
pub fn format_event(event: &ActivityLogEvent) -> (line: PanelLine)
    ensures
        line@ == event_line(*event),
{
    proof {
        reveal_strlit(" ");
        assert(" "@ =~= seq![' ']);
    }
    let mut status = String::from_str(status_glyph(event.event_type, event.log_level));
    status.append(" ");
    let mut time = event.time.clone();
    time.append(" ");
    let message = event.message.clone();
    let muted = color_named(PanelColor::DarkGray);
    let spans = vec![
        StyledSpan { text: status, color: None },
        StyledSpan { text: time, color: Some(muted) },
        StyledSpan { text: message, color: Some(event.color) },
    ];
    let line = PanelLine::Spans(spans);
    assert(line@->Spans_0 =~= event_line(*event)->Spans_0);
    line
}

/// Builds the panel for a viewport from the dashboard's state: the visible events, newest
/// first from the scroll offset on, as many as fit, under a title that tells where the
/// window stands; or the placeholder where no event is left to show.
pub fn logs_panel(viewport: Viewport, state: &DashboardState) -> (panel: LogsPanel)
    ensures
        panel@ == panel_of(state.activity_logs@, state.log_scroll_offset as nat, viewport.height),
{
    let room = capacity(viewport.height);
    let listed = visible_events(&state.activity_logs);
    let shown = display_window(&listed, state.log_scroll_offset, room);
    let title = title_string(listed.len(), state.log_scroll_offset, room);
    let ghost events = shown_events(
        state.activity_logs@,
        state.log_scroll_offset as nat,
        viewport.height,
    );
    let mut body: Vec<PanelLine> = Vec::new();
    let mut row: usize = 0;
    while row < shown.len()
        invariant
            row <= shown.len(),
            shown@.map_values(|e: &ActivityLogEvent| *e) =~= events,
            body.len() == row,
            forall|k: int| 0 <= k < row ==> #[trigger] body@[k]@ == event_line(events[k]),
        decreases shown.len() - row,
    {
        body.push(format_event(shown[row]));
        row += 1;
    }
    if body.len() == 0 {
        body.push(PanelLine::Text("Starting up..."));
    }
    let panel = LogsPanel { title, body };
    assert(panel@.body =~= panel_of(
        state.activity_logs@,
        state.log_scroll_offset as nat,
        viewport.height,
    ).body);
    panel
}

} // verus!
