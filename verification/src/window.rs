//! How the main window behaves when it is closed.

use vstd::prelude::*;
use crate::text::{chars_of, same_chars};

verus! {

/// The settings of the main window.
#[derive(Clone, Debug)]
pub struct WindowConfigState {
    pub minimize_to_tray: bool,
    /// `minimize` to hide the window on a close request; anything else to
    /// let it close.
    pub close_behavior: String,
}

impl WindowConfigState {
    /// The settings of a fresh start: the window goes to the tray when
    /// minimized, and closing it quits.
    pub fn new() -> (state: WindowConfigState)
        ensures
            state.minimize_to_tray,
            state.close_behavior@ == "quit"@,
    {
        WindowConfigState { minimize_to_tray: true, close_behavior: "quit".to_owned() }
    }

    /// Replaces both settings.
    pub fn update(&mut self, minimize_to_tray: bool, close_behavior: String)
        ensures
            final(self).minimize_to_tray == minimize_to_tray,
            final(self).close_behavior@ == close_behavior@,
    {
        self.minimize_to_tray = minimize_to_tray;
        self.close_behavior = close_behavior;
    }

    /// Whether a close request hides the window and keeps it from closing:
    /// it does where the behaviour is `minimize`.
    pub fn hides_on_close(&self) -> (hides: bool)
        ensures
            hides == (self.close_behavior@ == "minimize"@),
    {
        same_chars(&chars_of(self.close_behavior.as_str()), &chars_of("minimize"))
    }
}

} // verus!
