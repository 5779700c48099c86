//! The data the logs panel reads: activity-log events and the dashboard state.

use ratatui::style::Color;
use vstd::prelude::*;

verus! {

/// What kind of occurrence an activity-log event records.
#[derive(Clone, Copy, Debug, PartialEq, Eq)]
pub enum EventType {
    Success,
    Error,
    Refresh,
    Waiting,
    StateChange,
}

/// Severity of an activity-log event, from least to most severe.
#[derive(Clone, Copy, Debug, PartialEq, Eq)]
pub enum LogLevel {
    Trace,
    Debug,
    Info,
    Warn,
    Error,
}

/// One recorded occurrence in the dashboard's timeline, in the form the panel draws it.
///
/// The panel decides nothing about an event's visibility, its wording or its colour:
/// whoever appends the event supplies them.
#[derive(Debug, PartialEq)]
pub struct ActivityLogEvent {
    pub event_type: EventType,
    pub log_level: LogLevel,
    /// Whether the event passes the dashboard's display filter.
    pub display: bool,
    /// The event's timestamp in its compact form.
    pub time: String,
    /// The event's message, cleaned of transport noise.
    pub message: String,
    /// The colour assigned to the worker that produced the event.
    pub color: Color,
}

/// The part of the dashboard's state that the logs panel shares with the rest of it.
#[derive(Debug, PartialEq)]
pub struct DashboardState {
    /// All events in the order they were appended, oldest first.
    pub activity_logs: Vec<ActivityLogEvent>,
    /// How many of the most recent visible events are scrolled past.
    pub log_scroll_offset: usize,
    /// How many log lines fitted at the last render.
    pub max_logs: usize,
}

/// The size of the rectangle the panel fills, in terminal cells.
#[derive(Clone, Copy, Debug, PartialEq, Eq)]
pub struct Viewport {
    pub width: u16,
    pub height: u16,
}

} // verus!
