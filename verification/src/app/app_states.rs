//! What the user is doing: the state that decides how input is read.

use crate::app::app::{App, AppView};
use crate::request::request::{Request, RequestView};
use crate::utils::choice_popup::{NewRequestPopupView, ValidationPopup};
use crate::utils::stateful_tree::TreeSelection;
use crate::utils::text_input::TextInputView;
use vstd::prelude::*;
use vstd::string::*;

verus! {

#[derive(Debug, Clone, Copy, PartialEq, Eq, Structural)]
pub enum AppState {
    Normal,
    ChoosingElementToCreate,
    CreatingNewCollection,
    CreatingNewRequest,
    DeletingCollection,
    DeletingRequest,
    RenamingCollection,
    RenamingRequest,
    DisplayingCookies,
    SelectedRequest,
    EditingRequestUrl,
    EditingRequestParam,
    EditingRequestAuthUsername,
    EditingRequestAuthPassword,
    EditingRequestAuthBearerToken,
    EditingRequestHeader,
    EditingRequestBodyTable,
    EditingRequestBodyFile,
    EditingRequestBodyString,
    EditingPreRequestScript,
    EditingPostRequestScript,
    EditingRequestSettings,
}

impl Default for AppState {
    fn default() -> (state: AppState)
        ensures
            state == AppState::Normal,
    {
        AppState::Normal
    }
}

impl AppState {
    /// The state that follows in the order of declaration; the first follows the last.
    pub open spec fn next(self) -> AppState {
        match self {
            AppState::Normal => AppState::ChoosingElementToCreate,
            AppState::ChoosingElementToCreate => AppState::CreatingNewCollection,
            AppState::CreatingNewCollection => AppState::CreatingNewRequest,
            AppState::CreatingNewRequest => AppState::DeletingCollection,
            AppState::DeletingCollection => AppState::DeletingRequest,
            AppState::DeletingRequest => AppState::RenamingCollection,
            AppState::RenamingCollection => AppState::RenamingRequest,
            AppState::RenamingRequest => AppState::DisplayingCookies,
            AppState::DisplayingCookies => AppState::SelectedRequest,
            AppState::SelectedRequest => AppState::EditingRequestUrl,
            AppState::EditingRequestUrl => AppState::EditingRequestParam,
            AppState::EditingRequestParam => AppState::EditingRequestAuthUsername,
            AppState::EditingRequestAuthUsername => AppState::EditingRequestAuthPassword,
            AppState::EditingRequestAuthPassword => AppState::EditingRequestAuthBearerToken,
            AppState::EditingRequestAuthBearerToken => AppState::EditingRequestHeader,
            AppState::EditingRequestHeader => AppState::EditingRequestBodyTable,
            AppState::EditingRequestBodyTable => AppState::EditingRequestBodyFile,
            AppState::EditingRequestBodyFile => AppState::EditingRequestBodyString,
            AppState::EditingRequestBodyString => AppState::EditingPreRequestScript,
            AppState::EditingPreRequestScript => AppState::EditingPostRequestScript,
            AppState::EditingPostRequestScript => AppState::EditingRequestSettings,
            AppState::EditingRequestSettings => AppState::Normal,
        }
    }

    /// The state that `next` leads away from to this one.
    pub open spec fn previous(self) -> AppState {
        match self {
            AppState::Normal => AppState::EditingRequestSettings,
            AppState::ChoosingElementToCreate => AppState::Normal,
            AppState::CreatingNewCollection => AppState::ChoosingElementToCreate,
            AppState::CreatingNewRequest => AppState::CreatingNewCollection,
            AppState::DeletingCollection => AppState::CreatingNewRequest,
            AppState::DeletingRequest => AppState::DeletingCollection,
            AppState::RenamingCollection => AppState::DeletingRequest,
            AppState::RenamingRequest => AppState::RenamingCollection,
            AppState::DisplayingCookies => AppState::RenamingRequest,
            AppState::SelectedRequest => AppState::DisplayingCookies,
            AppState::EditingRequestUrl => AppState::SelectedRequest,
            AppState::EditingRequestParam => AppState::EditingRequestUrl,
            AppState::EditingRequestAuthUsername => AppState::EditingRequestParam,
            AppState::EditingRequestAuthPassword => AppState::EditingRequestAuthUsername,
            AppState::EditingRequestAuthBearerToken => AppState::EditingRequestAuthPassword,
            AppState::EditingRequestHeader => AppState::EditingRequestAuthBearerToken,
            AppState::EditingRequestBodyTable => AppState::EditingRequestHeader,
            AppState::EditingRequestBodyFile => AppState::EditingRequestBodyTable,
            AppState::EditingRequestBodyString => AppState::EditingRequestBodyFile,
            AppState::EditingPreRequestScript => AppState::EditingRequestBodyString,
            AppState::EditingPostRequestScript => AppState::EditingPreRequestScript,
            AppState::EditingRequestSettings => AppState::EditingPostRequestScript,
        }
    }
}

/// The state that follows `state`.
pub fn next_app_state(state: &AppState) -> (next: AppState)
    ensures
        next == state.next(),
{
    match state {
        AppState::Normal => AppState::ChoosingElementToCreate,
        AppState::ChoosingElementToCreate => AppState::CreatingNewCollection,
        AppState::CreatingNewCollection => AppState::CreatingNewRequest,
        AppState::CreatingNewRequest => AppState::DeletingCollection,
        AppState::DeletingCollection => AppState::DeletingRequest,
        AppState::DeletingRequest => AppState::RenamingCollection,
        AppState::RenamingCollection => AppState::RenamingRequest,
        AppState::RenamingRequest => AppState::DisplayingCookies,
        AppState::DisplayingCookies => AppState::SelectedRequest,
        AppState::SelectedRequest => AppState::EditingRequestUrl,
        AppState::EditingRequestUrl => AppState::EditingRequestParam,
        AppState::EditingRequestParam => AppState::EditingRequestAuthUsername,
        AppState::EditingRequestAuthUsername => AppState::EditingRequestAuthPassword,
        AppState::EditingRequestAuthPassword => AppState::EditingRequestAuthBearerToken,
        AppState::EditingRequestAuthBearerToken => AppState::EditingRequestHeader,
        AppState::EditingRequestHeader => AppState::EditingRequestBodyTable,
        AppState::EditingRequestBodyTable => AppState::EditingRequestBodyFile,
        AppState::EditingRequestBodyFile => AppState::EditingRequestBodyString,
        AppState::EditingRequestBodyString => AppState::EditingPreRequestScript,
        AppState::EditingPreRequestScript => AppState::EditingPostRequestScript,
        AppState::EditingPostRequestScript => AppState::EditingRequestSettings,
        AppState::EditingRequestSettings => AppState::Normal,
    }
}

/// The state that comes before `state`.
pub fn previous_app_state(state: &AppState) -> (previous: AppState)
    ensures
        previous == state.previous(),
{
    match state {
        AppState::Normal => AppState::EditingRequestSettings,
        AppState::ChoosingElementToCreate => AppState::Normal,
        AppState::CreatingNewCollection => AppState::ChoosingElementToCreate,
        AppState::CreatingNewRequest => AppState::CreatingNewCollection,
        AppState::DeletingCollection => AppState::CreatingNewRequest,
        AppState::DeletingRequest => AppState::DeletingCollection,
        AppState::RenamingCollection => AppState::DeletingRequest,
        AppState::RenamingRequest => AppState::RenamingCollection,
        AppState::DisplayingCookies => AppState::RenamingRequest,
        AppState::SelectedRequest => AppState::DisplayingCookies,
        AppState::EditingRequestUrl => AppState::SelectedRequest,
        AppState::EditingRequestParam => AppState::EditingRequestUrl,
        AppState::EditingRequestAuthUsername => AppState::EditingRequestParam,
        AppState::EditingRequestAuthPassword => AppState::EditingRequestAuthUsername,
        AppState::EditingRequestAuthBearerToken => AppState::EditingRequestAuthPassword,
        AppState::EditingRequestHeader => AppState::EditingRequestAuthBearerToken,
        AppState::EditingRequestBodyTable => AppState::EditingRequestHeader,
        AppState::EditingRequestBodyFile => AppState::EditingRequestBodyTable,
        AppState::EditingRequestBodyString => AppState::EditingRequestBodyFile,
        AppState::EditingPreRequestScript => AppState::EditingRequestBodyString,
        AppState::EditingPostRequestScript => AppState::EditingPreRequestScript,
        AppState::EditingRequestSettings => AppState::EditingPostRequestScript,
    }
}

/// A step forward and a step back, in either order, lead to where they began.
pub proof fn lemma_next_and_previous_undo_each_other(state: AppState)
    ensures
        state.next().previous() == state,
        state.previous().next() == state,
{
}

impl AppView {
    /// The same state of the data, with the user doing `state`.
    pub open spec fn in_state(self, state: AppState) -> AppView {
        AppView { state: state, ..self }
    }

    /// The collection that a new request is offered to first: the one on
    /// which, or in which, the cursor stands, or the first where the cursor
    /// stands on none that exists.
    pub open spec fn collection_for_new_request(self) -> usize {
        match self.collections_tree.cursor.collection() {
            Some(collection) => if collection < self.collections.len() {
                collection
            } else {
                0
            },
            None => 0,
        }
    }

    /// The state in which the name of a new request is asked for. Without a
    /// collection to put it in, nothing changes.
    pub open spec fn creating_new_request(self) -> AppView {
        if self.collections.len() == 0 {
            self
        } else {
            AppView {
                state: AppState::CreatingNewRequest,
                new_request_popup: NewRequestPopupView {
                    selected_collection: self.collection_for_new_request(),
                    max_selection: self.collections.len() as usize,
                    ..self.new_request_popup
                },
                ..self
            }
        }
    }

    /// The state in which a new name for the collection with index
    /// `collection` is asked for, starting from the name it has.
    pub open spec fn renaming_collection(self, collection: usize) -> AppView {
        AppView {
            state: AppState::RenamingCollection,
            rename_collection_input: TextInputView::holding(
                self.collections[collection as int].name,
            ),
            ..self
        }
    }

    /// The state in which a new name for a request is asked for, starting
    /// from `name`.
    pub open spec fn renaming_request(self, name: Seq<char>) -> AppView {
        AppView {
            state: AppState::RenamingRequest,
            rename_request_input: TextInputView::holding(name),
            ..self
        }
    }
}

impl App {
    /// Back to the state in which nothing is under way.
    pub fn normal_state(&mut self)
        ensures
            final(self)@ == old(self)@.in_state(AppState::Normal),
    {
        self.state = AppState::Normal;
    }

    /// Asks for the name of a new collection.
    pub fn create_new_collection_state(&mut self)
        ensures
            final(self)@ == old(self)@.in_state(AppState::CreatingNewCollection),
    {
        self.state = AppState::CreatingNewCollection;
    }

    /// Asks for the name of a new request, unless there is no collection to
    /// put it in. The request is offered to the collection under the cursor.
    pub fn create_new_request_state(&mut self)
        ensures
            final(self)@ == old(self)@.creating_new_request(),
            old(self)@.collections.len() > 0
                ==> final(self)@.new_request_popup.selected_collection
                < final(self)@.collections.len(),
    {
        let collections_length = self.collections.len();
        // A request cannot be created without a collection
        if collections_length == 0 {
            return ;
        }
        let under_cursor = match self.collections_tree.state.selected {
            TreeSelection::Collection(collection) => collection,
            TreeSelection::Request(collection, _) => collection,
            TreeSelection::Unselected => 0,
        };
        self.new_request_popup.selected_collection = if under_cursor < collections_length {
            under_cursor
        } else {
            0
        };
        self.new_request_popup.max_selection = collections_length;
        self.state = AppState::CreatingNewRequest;
    }

    /// Asks whether the collection under the cursor is to be deleted.
    pub fn delete_collection_state(&mut self)
        ensures
            final(self)@ == (AppView {
                state: AppState::DeletingCollection,
                delete_collection_popup: ValidationPopup { state: false },
                ..old(self)@
            }),
    {
        self.delete_collection_popup.state = false;
        self.state = AppState::DeletingCollection;
    }

    /// Asks whether the request under the cursor is to be deleted.
    pub fn delete_request_state(&mut self)
        ensures
            final(self)@ == (AppView {
                state: AppState::DeletingRequest,
                delete_request_popup: ValidationPopup { state: false },
                ..old(self)@
            }),
    {
        self.delete_request_popup.state = false;
        self.state = AppState::DeletingRequest;
    }

    /// Asks for a new name for the collection on which, or in which, the
    /// cursor stands.
    pub fn rename_collection_state(&mut self)
        requires
            old(self)@.cursor_is_valid(),
            old(self)@.collections_tree.cursor.collection() is Some,
        ensures
            final(self)@ == old(self)@.renaming_collection(
                old(self)@.collections_tree.cursor.collection()->0,
            ),
    {
        let collection = match self.collections_tree.state.selected {
            TreeSelection::Collection(collection) => collection,
            TreeSelection::Request(collection, _) => collection,
            TreeSelection::Unselected => {
                return ;
            },
        };
        self.rename_collection_input.reset_input();
        self.rename_collection_input.enter_str(self.collections[collection].name.as_str());
        self.state = AppState::RenamingCollection;
    }

    /// Asks for a new name for the request under the cursor, starting from
    /// the name that it has at this moment.
    pub fn rename_request_state(&mut self)
        requires
            old(self)@.cursor_is_valid(),
            old(self)@.collections_tree.cursor is Request,
        ensures
            exists|name: Seq<char>| final(self)@ == old(self)@.renaming_request(name),
    {
        if let TreeSelection::Request(collection, request) = self.collections_tree.state.selected {
            let handle = self.get_request_as_local_from_indexes(&(collection, request));
            let selected_request = App::snapshot_of(&handle);
            self.rename_request_state_from(&selected_request);
        }
    }

    /// Asks for a new name for a request, starting from the name of
    /// `selected_request`.
    pub fn rename_request_state_from(&mut self, selected_request: &Request)
        ensures
            final(self)@ == old(self)@.renaming_request(selected_request@.name),
    {
        self.rename_request_input.reset_input();
        self.rename_request_input.enter_str(selected_request.name.as_str());
        self.state = AppState::RenamingRequest;
    }

    /// Shows the open request, with every input filled from what it holds at
    /// this moment and every cursor at the start.
    pub fn select_request_state(&mut self)
        requires
            old(self)@.request_is_open(),
        ensures
            exists|request: RequestView|
                final(self)@ == old(self)@.in_state(AppState::SelectedRequest).with_inputs_of(
                    request,
                ).with_cursors_reset(),
    {
        self.state = AppState::SelectedRequest;
        self.update_inputs();
        self.reset_cursors();
    }

    /// Shows `selected_request` as the open request, with every input filled
    /// from it and every cursor at the start.
    pub fn select_request_state_from(&mut self, selected_request: &Request)
        ensures
            final(self)@ == old(self)@.in_state(AppState::SelectedRequest).with_inputs_of(
                selected_request@,
            ).with_cursors_reset(),
    {
        self.state = AppState::SelectedRequest;
        self.update_inputs_from(selected_request);
        self.reset_cursors();
    }

    /// Edits the user name of the open request.
    pub fn edit_request_auth_username_state(&mut self)
        ensures
            final(self)@ == old(self)@.in_state(AppState::EditingRequestAuthUsername),
    {
        self.state = AppState::EditingRequestAuthUsername;
    }

    /// Edits the password of the open request.
    pub fn edit_request_auth_password_state(&mut self)
        ensures
            final(self)@ == old(self)@.in_state(AppState::EditingRequestAuthPassword),
    {
        self.state = AppState::EditingRequestAuthPassword;
    }

    /// Edits the bearer token of the open request.
    pub fn edit_request_auth_bearer_token_state(&mut self)
        ensures
            final(self)@ == old(self)@.in_state(AppState::EditingRequestAuthBearerToken),
    {
        self.state = AppState::EditingRequestAuthBearerToken;
    }
}

} // verus!
