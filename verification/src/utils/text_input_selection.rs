//! Which of several text inputs that stand together is selected.

use vstd::prelude::*;

verus! {

#[derive(Debug, Clone, Copy, PartialEq, Eq, Structural)]
pub struct TextInputSelection {
    pub selected: usize,
    /// The number of inputs to choose from.
    pub max_selection: usize,
    /// Whether there is anything to select.
    pub usable: bool,
}

impl Default for TextInputSelection {
    fn default() -> (selection: TextInputSelection)
        ensures
            selection == (TextInputSelection { selected: 0, max_selection: 0, usable: false }),
    {
        TextInputSelection { selected: 0, max_selection: 0, usable: false }
    }
}

} // verus!
