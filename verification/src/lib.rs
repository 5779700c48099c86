//! The activity-log panel of a terminal dashboard: which events it shows, how each is
//! laid out as a line of styled text, and the frame drawn around them.

pub mod color;
pub mod event;
pub mod panel;
pub mod text;
pub mod widget;
pub mod window;

use crate::event::{DashboardState, Viewport};
use crate::panel::{logs_panel, panel_of};
use crate::widget::{panel_widget, widget_of};
use crate::window::{capacity, capacity_of};
use ratatui::widgets::Paragraph;
use vstd::prelude::*;

verus! {

/// Renders the logs panel for one redraw: records in `state.max_logs` how many log lines
/// fit in `area`, and returns the widget that fills `area` with the panel for the events
/// and the scroll offset of `state`. Nothing else in `state` changes.
pub fn render_logs_panel(area: Viewport, state: &mut DashboardState) -> (widget: Paragraph<'static>)
    ensures
        final(state).max_logs == capacity_of(area.height),
        final(state).activity_logs == old(state).activity_logs,
        final(state).log_scroll_offset == old(state).log_scroll_offset,
        widget == widget_of(
            panel_of(
                old(state).activity_logs@,
                old(state).log_scroll_offset as nat,
                area.height,
            ),
        ),
{
    state.max_logs = capacity(area.height);
    let panel = logs_panel(area, state);
    panel_widget(&panel)
}

} // verus!
