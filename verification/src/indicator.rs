//! The status indicator's state: which mode it displays, and where its
//! small window sits on screen.  Painting the window is not done here; the
//! surrounding binary reads the displayed mode and the computed position and
//! draws with them.

use vstd::prelude::*;
use crate::mode::Mode;

verus! {

/// Width of the indicator window, in pixels.
pub const INDICATOR_WIDTH: i32 = 100;

/// Height of the indicator window, in pixels.
pub const INDICATOR_HEIGHT: i32 = 30;

/// Distance kept from the screen's right and bottom edges, in pixels.
pub const INDICATOR_MARGIN: i32 = 20;

/// State of the small always-on-top window that shows the current mode.
pub struct StatusIndicator {
    current_mode: Mode,
}

impl StatusIndicator {
    /// The mode the indicator currently displays.
    pub closed spec fn displayed(&self) -> Mode {
        self.current_mode
    }

    /// A fresh indicator displays `Mode::Desktop`.
    pub fn new() -> (r: Self)
        ensures
            r.displayed() == Mode::Desktop,
    {
        StatusIndicator { current_mode: Mode::Desktop }
    }

    /// Records the mode to display.
    pub fn update_mode(&mut self, mode: &Mode)
        ensures
            final(self).displayed() == *mode,
    {
        self.current_mode = *mode;
    }

    /// The mode currently displayed.
    pub fn displayed_mode(&self) -> (r: Mode)
        ensures
            r == self.displayed(),
    {
        self.current_mode
    }
}

/// The top-left corner that places the indicator in the screen's bottom
/// right corner, a fixed margin in from both edges.
pub fn indicator_position(screen_width: i32, screen_height: i32) -> (r: (i32, i32))
    requires
        0 <= screen_width <= 100_000,
        0 <= screen_height <= 100_000,
    ensures
        r.0 == screen_width - INDICATOR_WIDTH - INDICATOR_MARGIN,
        r.1 == screen_height - INDICATOR_HEIGHT - INDICATOR_MARGIN,
{
    (screen_width - INDICATOR_WIDTH - INDICATOR_MARGIN, screen_height - INDICATOR_HEIGHT
        - INDICATOR_MARGIN)
}

} // verus!
