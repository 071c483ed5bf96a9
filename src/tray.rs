//! What the tray icon displays.
use vstd::prelude::*;

verus! {

/// Tooltip shown over the tray icon.
pub const TOOLTIP: &'static str = "Theme toggle";

/// One of the two tray glyphs.
#[derive(Clone, Copy, Debug, PartialEq, Eq, Structural)]
pub enum Glyph {
    /// The glyph that depicts light mode.
    Light,
    /// The glyph that depicts dark mode.
    Dark,
}

/// The tray shows the mode that a click would switch to: the dark glyph
/// while light mode is active, the light glyph otherwise.
pub open spec fn glyph_for_spec(is_light: bool) -> Glyph {
    if is_light {
        Glyph::Dark
    } else {
        Glyph::Light
    }
}

/// The glyph to display while the given mode is active.
pub fn glyph_for(is_light: bool) -> (g: Glyph)
    ensures
        g == glyph_for_spec(is_light),
        (g == Glyph::Dark) == is_light,
{
    if is_light {
        Glyph::Dark
    } else {
        Glyph::Light
    }
}

} // verus!
