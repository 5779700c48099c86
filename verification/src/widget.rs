//! The panel as a `ratatui` widget.
//!
//! Building the widget is `ratatui`'s work. Each constructor or setter of `ratatui` that
//! the panel calls stands here behind a small function whose contract is assumed, not
//! proved. Such a contract claims one thing only: that what the call returns depends on
//! its arguments alone. It gives that result a name, and [`widget_of`] says over those
//! names which calls, on which arguments, make the widget of a panel. What `ratatui`
//! draws for the widget is not stated here.

use crate::color::{color_named, named_color, PanelColor};
use crate::panel::{LineView, LogsPanel, PanelLine, PanelView, SpanView, StyledSpan};
use ratatui::style::{Color, Style};
use ratatui::text::{Line, Span};
use ratatui::widgets::{Block, BorderType, Borders, Padding, Paragraph, Wrap};
use vstd::prelude::*;

verus! {

/// A text style of `ratatui`, opaque to the verifier.
#[verifier::external_type_specification]
#[verifier::external_body]
pub struct ExStyle(Style);

/// A styled run of text of `ratatui`, opaque to the verifier.
#[verifier::external_type_specification]
#[verifier::external_body]
pub struct ExSpan<'a>(Span<'a>);

/// A line of text of `ratatui`, opaque to the verifier.
#[verifier::external_type_specification]
#[verifier::external_body]
pub struct ExLine<'a>(Line<'a>);

/// The frame around a widget of `ratatui`, opaque to the verifier.
#[verifier::external_type_specification]
#[verifier::external_body]
pub struct ExBlock<'a>(Block<'a>);

/// The paragraph widget of `ratatui`, opaque to the verifier.
#[verifier::external_type_specification]
#[verifier::external_body]
pub struct ExParagraph<'a>(Paragraph<'a>);

/// The sides of a frame that get a border: one of the sets of sides that `ratatui` has a
/// name for.
#[derive(Clone, Copy, Debug, PartialEq, Eq)]
pub enum Sides {
    NoSide,
    Top,
    Right,
    Bottom,
    Left,
    All,
}

/// The symbols a border is drawn with, by the names that `ratatui` gives them.
#[derive(Clone, Copy, Debug, PartialEq, Eq)]
pub enum BorderKind {
    Plain,
    Rounded,
    Double,
    Thick,
    QuadrantInside,
    QuadrantOutside,
}

/// What `Style::default().fg(color)` returns.
pub uninterp spec fn fg_style(color: Color) -> Style;

/// Calls `Style::default().fg(color)`, which sets the foreground colour of the default
/// style. Assumed: the style depends on `color` alone.
#[verifier::external_body]
fn new_fg_style(color: Color) -> (style: Style)
    ensures
        style == fg_style(color),
{
    Style::default().fg(color)
}

/// What `Span::raw` returns for a string of the given characters.
pub uninterp spec fn raw_span(text: Seq<char>) -> Span<'static>;

/// Calls `Span::raw(text)`, which makes a span of `text` in the default style. Assumed:
/// the span depends on the characters of `text` alone.
#[verifier::external_body]
fn new_raw_span(text: String) -> (span: Span<'static>)
    ensures
        span == raw_span(text@),
{
    Span::raw(text)
}

/// What `Span::styled` returns for a string of the given characters and `style`.
pub uninterp spec fn styled_span(text: Seq<char>, style: Style) -> Span<'static>;

/// Calls `Span::styled(text, style)`, which makes a span of `text` in `style`. Assumed:
/// the span depends on the characters of `text` and on `style` alone.
#[verifier::external_body]
fn new_styled_span(text: String, style: Style) -> (span: Span<'static>)
    ensures
        span == styled_span(text@, style),
{
    Span::styled(text, style)
}

/// What `Line::from` returns for a vector of the given spans.
pub uninterp spec fn spans_line(spans: Seq<Span<'static>>) -> Line<'static>;

/// Calls `Line::from(spans)`, which makes a line of the spans. Assumed: the line depends
/// on the spans, in their order, alone.
#[verifier::external_body]
fn new_spans_line(spans: Vec<Span<'static>>) -> (line: Line<'static>)
    ensures
        line == spans_line(spans@),
{
    Line::from(spans)
}

/// What `Line::from` returns for a string slice of the given characters.
pub uninterp spec fn text_line(text: Seq<char>) -> Line<'static>;

/// Calls `Line::from(text)`, which makes a line of `text` in the default style. Assumed:
/// the line depends on the characters of `text` alone.
#[verifier::external_body]
fn new_text_line(text: &'static str) -> (line: Line<'static>)
    ensures
        line == text_line(text@),
{
    Line::from(text)
}

/// What `Paragraph::new` returns for a vector of the given lines.
pub uninterp spec fn paragraph(lines: Seq<Line<'static>>) -> Paragraph<'static>;

/// Calls `Paragraph::new(lines)`, which makes a paragraph of the lines with no block and
/// no wrapping. Assumed: the paragraph depends on the lines, in their order, alone.
#[verifier::external_body]
fn new_paragraph(lines: Vec<Line<'static>>) -> (widget: Paragraph<'static>)
    ensures
        widget == paragraph(lines@),
{
    Paragraph::new(lines)
}

/// What `Block::default().title(..)` returns for a string of the given characters.
pub uninterp spec fn titled_block(title: Seq<char>) -> Block<'static>;

/// Calls `Block::default().title(title)`, which adds a title to the default block.
/// Assumed: the block depends on the characters of `title` alone.
#[verifier::external_body]
fn new_titled_block(title: String) -> (block: Block<'static>)
    ensures
        block == titled_block(title@),
{
    Block::default().title(title)
}

/// What `Block::borders` returns for `block` and the set of sides named by `sides`.
pub uninterp spec fn with_borders(block: Block<'static>, sides: Sides) -> Block<'static>;

/// Calls `block.borders(..)` with the constant of `Borders` that has the name of `sides`;
/// the call sets which borders are visible. Assumed: the result depends on `block` and
/// `sides` alone.
#[verifier::external_body]
fn set_borders(block: Block<'static>, sides: Sides) -> (framed: Block<'static>)
    ensures
        framed == with_borders(block, sides),
{
    block.borders(
        match sides {
            Sides::NoSide => Borders::NONE,
            Sides::Top => Borders::TOP,
            Sides::Right => Borders::RIGHT,
            Sides::Bottom => Borders::BOTTOM,
            Sides::Left => Borders::LEFT,
            Sides::All => Borders::ALL,
        },
    )
}

/// What `Block::border_type` returns for `block` and the border type named by `kind`.
pub uninterp spec fn with_border_type(block: Block<'static>, kind: BorderKind) -> Block<'static>;

/// Calls `block.border_type(..)` with the variant of `BorderType` that has the name of
/// `kind`; the call sets the symbols of the border. Assumed: the result depends on
/// `block` and `kind` alone.
#[verifier::external_body]
fn set_border_type(block: Block<'static>, kind: BorderKind) -> (framed: Block<'static>)
    ensures
        framed == with_border_type(block, kind),
{
    block.border_type(
        match kind {
            BorderKind::Plain => BorderType::Plain,
            BorderKind::Rounded => BorderType::Rounded,
            BorderKind::Double => BorderType::Double,
            BorderKind::Thick => BorderType::Thick,
            BorderKind::QuadrantInside => BorderType::QuadrantInside,
            BorderKind::QuadrantOutside => BorderType::QuadrantOutside,
        },
    )
}

/// What `Block::border_style` returns for `block` and `style`.
pub uninterp spec fn with_border_style(block: Block<'static>, style: Style) -> Block<'static>;

/// Calls `block.border_style(style)`, which sets the style of the border. Assumed: the
/// result depends on `block` and `style` alone.
#[verifier::external_body]
fn set_border_style(block: Block<'static>, style: Style) -> (framed: Block<'static>)
    ensures
        framed == with_border_style(block, style),
{
    block.border_style(style)
}

/// What `Block::padding` returns for `block` and `Padding::uniform(cells)`.
pub uninterp spec fn with_padding(block: Block<'static>, cells: u16) -> Block<'static>;

/// Calls `block.padding(Padding::uniform(cells))`, which sets a padding of `cells` on
/// every side. Assumed: the result depends on `block` and `cells` alone.
#[verifier::external_body]
fn set_padding(block: Block<'static>, cells: u16) -> (framed: Block<'static>)
    ensures
        framed == with_padding(block, cells),
{
    block.padding(Padding::uniform(cells))
}

/// What `Paragraph::block` returns for `widget` and `block`.
pub uninterp spec fn with_block(
    widget: Paragraph<'static>,
    block: Block<'static>,
) -> Paragraph<'static>;

/// Calls `widget.block(block)`, which surrounds the paragraph with the block. Assumed:
/// the result depends on `widget` and `block` alone.
#[verifier::external_body]
fn set_block(widget: Paragraph<'static>, block: Block<'static>) -> (framed: Paragraph<'static>)
    ensures
        framed == with_block(widget, block),
{
    widget.block(block)
}

/// What `Paragraph::wrap` returns for `widget` and `Wrap { trim }`.
pub uninterp spec fn with_wrap(widget: Paragraph<'static>, trim: bool) -> Paragraph<'static>;

/// Calls `widget.wrap(Wrap { trim })`, which switches word wrap on; with `trim`, leading
/// whitespace is trimmed. Assumed: the result depends on `widget` and `trim` alone.
#[verifier::external_body]
fn set_wrap(widget: Paragraph<'static>, trim: bool) -> (wrapping: Paragraph<'static>)
    ensures
        wrapping == with_wrap(widget, trim),
{
    widget.wrap(Wrap { trim })
}

/// The span widget of a span: raw where it has no colour, and styled with its colour as
/// the foreground where it has one.
pub open spec fn span_widget(span: SpanView) -> Span<'static> {
    match span.color {
        None => raw_span(span.text),
        Some(color) => styled_span(span.text, fg_style(color)),
    }
}

/// The line widget of a line of the panel.
pub open spec fn line_widget(line: LineView) -> Line<'static> {
    match line {
        LineView::Text(text) => text_line(text),
        LineView::Spans(spans) => spans_line(spans.map_values(|s: SpanView| span_widget(s))),
    }
}

/// The frame of the panel: a block with the given title, a border on all sides with
/// rounded corners in the accent colour, and one cell of padding all round.
pub open spec fn frame(title: Seq<char>) -> Block<'static> {
    with_padding(
        with_border_style(
            with_border_type(with_borders(titled_block(title), Sides::All), BorderKind::Rounded),
            fg_style(named_color(PanelColor::Cyan)),
        ),
        1,
    )
}

/// The widget of a panel: a paragraph of its lines inside its frame, wrapping long lines
/// and trimming the whitespace at the start of what is wrapped.
pub open spec fn widget_of(panel: PanelView) -> Paragraph<'static> {
    with_wrap(
        with_block(
            paragraph(panel.body.map_values(|l: LineView| line_widget(l))),
            frame(panel.title),
        ),
        true,
    )
}

/// Builds the span widget of a span.
fn span_to_widget(span: &StyledSpan) -> (widget: Span<'static>)
    ensures
        widget == span_widget(span@),
{
    match span.color {
        None => new_raw_span(span.text.clone()),
        Some(color) => new_styled_span(span.text.clone(), new_fg_style(color)),
    }
}

/// Builds the line widget of a line.
fn line_to_widget(line: &PanelLine) -> (widget: Line<'static>)
    ensures
        widget == line_widget(line@),
{
    match line {
        PanelLine::Text(text) => new_text_line(text),
        PanelLine::Spans(spans) => {
            let mut widgets: Vec<Span<'static>> = Vec::new();
            let mut i: usize = 0;
            while i < spans.len()
                invariant
                    i <= spans.len(),
                    widgets.len() == i,
                    forall|k: int| 0 <= k < i ==> widgets@[k] == span_widget(#[trigger] spans@[k]@),
                decreases spans.len() - i,
            {
                widgets.push(span_to_widget(&spans[i]));
                i += 1;
            }
            assert(widgets@ =~= spans@.map_values(|s: StyledSpan| s@).map_values(
                |s: SpanView| span_widget(s),
            ));
            new_spans_line(widgets)
        },
    }
}

/// Builds the frame of the panel.
fn panel_frame(title: String) -> (block: Block<'static>)
    ensures
        block == frame(title@),
{
    let block = new_titled_block(title);
    let block = set_borders(block, Sides::All);
    let block = set_border_type(block, BorderKind::Rounded);
    let block = set_border_style(block, new_fg_style(color_named(PanelColor::Cyan)));
    set_padding(block, 1)
}

/// Builds the widget that draws `panel`.
pub fn panel_widget(panel: &LogsPanel) -> (widget: Paragraph<'static>)
    ensures
        widget == widget_of(panel@),
{
    let mut lines: Vec<Line<'static>> = Vec::new();
    let mut i: usize = 0;
    while i < panel.body.len()
        invariant
            i <= panel.body.len(),
            lines.len() == i,
            forall|k: int| 0 <= k < i ==> lines@[k] == line_widget(#[trigger] panel.body@[k]@),
        decreases panel.body.len() - i,
    {
        lines.push(line_to_widget(&panel.body[i]));
        i += 1;
    }
    assert(lines@ =~= panel@.body.map_values(|l: LineView| line_widget(l)));
    let widget = new_paragraph(lines);
    let widget = set_block(widget, panel_frame(panel.title.clone()));
    set_wrap(widget, true)
}

} // verus!
