//! The help popup, which shows the keys of one state at a time.

use crate::app::app_states::{next_app_state, previous_app_state, AppState};
use vstd::prelude::*;

verus! {

#[derive(Debug, Clone, Copy, PartialEq, Eq, Structural)]
pub struct HelpPopup {
    /// The state whose keys are shown.
    pub selection: AppState,
}

impl Default for HelpPopup {
    fn default() -> (popup: HelpPopup)
        ensures
            popup.selection == AppState::Normal,
    {
        HelpPopup { selection: AppState::Normal }
    }
}

impl HelpPopup {
    /// Shows the keys of the state that follows.
    pub fn next_page(&mut self)
        ensures
            final(self).selection == old(self).selection.next(),
    {
        self.selection = next_app_state(&self.selection);
    }

    /// Shows the keys of the state before.
    pub fn previous_page(&mut self)
        ensures
            final(self).selection == old(self).selection.previous(),
    {
        self.selection = previous_app_state(&self.selection);
    }
}

} // verus!
