//! The primary window.

use vstd::prelude::*;

verus! {

/// What the application asks of its primary window.
#[derive(Clone, Debug, PartialEq, Eq)]
pub struct WindowSettings {
    /// Title of the window.
    pub title: String,
    /// Selector of the canvas element that a web build draws to.
    pub canvas: Option<String>,
    /// Whether the canvas is resized with the element that holds it.
    pub fit_canvas_to_parent: bool,
    /// Whether the page's own handling of key and mouse events is switched off.
    pub prevent_default_event_handling: bool,
}

impl WindowSettings {
    /// The settings of the primary window, as plain values.
    pub open spec fn is_primary(self) -> bool {
        &&& self.title@ == "Bevy Jam 05"@
        &&& self.canvas matches Some(selector) && selector@ == "#bevy"@
        &&& self.fit_canvas_to_parent
        &&& self.prevent_default_event_handling
    }
}

/// The settings of the primary window.
pub fn primary_window() -> (window: WindowSettings)
    ensures
        window.is_primary(),
{
    WindowSettings {
        title: "Bevy Jam 05".to_string(),
        canvas: Some("#bevy".to_string()),
        fit_canvas_to_parent: true,
        prevent_default_event_handling: true,
    }
}

} // verus!
