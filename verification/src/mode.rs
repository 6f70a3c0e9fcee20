//! The two-valued global working mode and its manager.

use vstd::prelude::*;

verus! {

/// The program's working mode.  Escape (observed outside an active switching
/// session) toggles between the two values.
#[derive(Debug, Clone, Copy, PartialEq, Eq, Structural)]
pub enum Mode {
    /// Window-switching and other system-level key handling.
    Desktop,
    /// Ordinary typing; the switcher stays out of the way.
    Normal,
}

/// The mode the other value of which a toggle selects.
pub open spec fn toggled(m: Mode) -> Mode {
    match m {
        Mode::Desktop => Mode::Normal,
        Mode::Normal => Mode::Desktop,
    }
}

/// Holds the current working mode; toggled on Escape, read by the indicator.
pub struct ModeManager {
    current_mode: Mode,
}

impl ModeManager {
    /// The mode currently held.
    pub closed spec fn mode(&self) -> Mode {
        self.current_mode
    }

    /// A fresh manager starts in `Mode::Desktop`.
    pub fn new() -> (r: Self)
        ensures
            r.mode() == Mode::Desktop,
    {
        ModeManager { current_mode: Mode::Desktop }
    }

    /// Switches to the other mode.
    pub fn toggle_mode(&mut self)
        ensures
            final(self).mode() == toggled(old(self).mode()),
    {
        self.current_mode = match self.current_mode {
            Mode::Desktop => Mode::Normal,
            Mode::Normal => Mode::Desktop,
        };
    }

    /// The current mode.
    pub fn current_mode(&self) -> (r: &Mode)
        ensures
            *r == self.mode(),
    {
        &self.current_mode
    }
}

} // verus!
