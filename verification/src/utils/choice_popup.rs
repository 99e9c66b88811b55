//! Popups that ask for a choice, a confirmation or a name.

use crate::utils::text_input::{TextInput, TextInputView};
use vstd::prelude::*;

verus! {

/// A popup that offers a list of things to choose from.
#[derive(Debug, Clone, Copy, PartialEq, Eq, Structural)]
pub struct ChoicePopup {
    /// The index of the choice under the cursor.
    pub selection: usize,
}

/// A popup that asks for a yes or a no.
#[derive(Debug, Clone, Copy, PartialEq, Eq, Structural)]
pub struct ValidationPopup {
    /// Whether "yes" is under the cursor.
    pub state: bool,
}

/// The popup that asks for the name of a new request and the collection to
/// put it in.
#[derive(Debug, PartialEq, Eq)]
pub struct NewRequestPopup {
    /// The index of the collection that will get the request.
    pub selected_collection: usize,
    /// The number of collections to choose from.
    pub max_selection: usize,
    pub text_input: TextInput,
}

/// What a [`NewRequestPopup`] holds.
pub struct NewRequestPopupView {
    pub selected_collection: usize,
    pub max_selection: usize,
    pub text_input: TextInputView,
}

impl View for NewRequestPopup {
    type V = NewRequestPopupView;

    open spec fn view(&self) -> NewRequestPopupView {
        NewRequestPopupView {
            selected_collection: self.selected_collection,
            max_selection: self.max_selection,
            text_input: self.text_input@,
        }
    }
}

impl Default for ChoicePopup {
    fn default() -> (popup: ChoicePopup)
        ensures
            popup.selection == 0,
    {
        ChoicePopup { selection: 0 }
    }
}

impl Default for ValidationPopup {
    fn default() -> (popup: ValidationPopup)
        ensures
            !popup.state,
    {
        ValidationPopup { state: false }
    }
}

impl Default for NewRequestPopup {
    fn default() -> (popup: NewRequestPopup)
        ensures
            popup@ == (NewRequestPopupView {
                selected_collection: 0,
                max_selection: 0,
                text_input: TextInputView::empty(),
            }),
    {
        NewRequestPopup {
            selected_collection: 0,
            max_selection: 0,
            text_input: TextInput::default(),
        }
    }
}

} // verus!
