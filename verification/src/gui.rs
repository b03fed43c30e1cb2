//! Open/closed state of the in-game HUD windows.
//!
//! The widget toolkit itself is an external collaborator: the unverified
//! UI layer reads the widgets and hands the resulting events (a button
//! click, a hotkey press) to these functions as plain booleans.

use vstd::prelude::*;

verus! {

/// Which HUD windows are currently open.
pub struct GUIWindows {
    pub economy_open: bool,
}

impl Default for GUIWindows {
    /// All windows start closed.
    fn default() -> (r: Self)
        ensures
            !r.economy_open,
    {
        GUIWindows { economy_open: false }
    }
}

impl GUIWindows {
    /// Menu-bar interaction: a click on the economy button toggles the
    /// economy window.
    pub fn menu(&mut self, economy_clicked: bool)
        ensures
            final(self).economy_open == (old(self).economy_open ^ economy_clicked),
    {
        if economy_clicked {
            self.economy_open = !self.economy_open;
        }
    }

    /// Per-frame window pass: the open-economy hotkey toggles the economy
    /// window; the result says whether the economy window is to be drawn
    /// this frame.
    pub fn render(&mut self, open_economy_pressed: bool) -> (show_economy: bool)
        ensures
            final(self).economy_open == (old(self).economy_open ^ open_economy_pressed),
            show_economy == final(self).economy_open,
    {
        if open_economy_pressed {
            self.economy_open = !self.economy_open;
        }
        self.economy_open
    }
}

} // verus!
