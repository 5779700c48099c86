//! Terminal colours. The panel carries them from the events to the widget and looks
//! inside none; the two that it picks itself it asks for by name.

use ratatui::style::Color;
use vstd::prelude::*;

verus! {

/// A terminal colour of `ratatui`, opaque to the verifier.
#[verifier::external_type_specification]
#[verifier::external_body]
pub struct ExColor(Color);

/// The colours that the panel picks for its own parts.
#[derive(Clone, Copy, Debug, PartialEq, Eq)]
pub enum PanelColor {
    /// The muted colour of timestamps.
    DarkGray,
    /// The accent colour of the border.
    Cyan,
}

/// The variant of `Color` that has the given name.
pub uninterp spec fn named_color(name: PanelColor) -> Color;

/// Hands out the variant of `ratatui`'s `Color` that has the name of `name`:
/// `Color::DarkGray` or `Color::Cyan`. Assumed: the colour depends on `name` alone.
#[verifier::external_body]
pub(crate) fn color_named(name: PanelColor) -> (color: Color)
    ensures
        color == named_color(name),
{
    match name {
        PanelColor::DarkGray => Color::DarkGray,
        PanelColor::Cyan => Color::Cyan,
    }
}

} // verus!
