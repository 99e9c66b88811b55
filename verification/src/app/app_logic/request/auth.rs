//! Changing how the open request authenticates.

use crate::app::app::{App, AppView};
use crate::app::app_states::AppState;
use crate::app::files::collection::FileAction;
use crate::app::ui::param_tabs::RequestParamsTabs;
use crate::request::auth::{Auth, AuthView};
use crate::request::request::{Request, RequestView};
use crate::utils::shared::{read_with, write_with};
use vstd::prelude::*;

verus! {

impl AppView {
    /// The index of the collection of the open request; 0 where none is open.
    pub open spec fn open_collection(self) -> usize {
        match self.collections_tree.selected {
            Some((collection, _)) => collection,
            None => 0,
        }
    }

    /// The state after the input that is selected among the credentials was
    /// taken under edit: the user name or the password of a basic
    /// authentication, the token of a bearer authentication. Unchanged where
    /// there is no such input.
    pub open spec fn editing_auth_input(self, auth: AuthView) -> AppView {
        match auth {
            AuthView::NoAuth => self,
            AuthView::BasicAuth(_, _) => if self.auth_text_input_selection.selected == 0 {
                self.in_state(AppState::EditingRequestAuthUsername)
            } else if self.auth_text_input_selection.selected == 1 {
                self.in_state(AppState::EditingRequestAuthPassword)
            } else {
                self
            },
            AuthView::BearerToken(_) => if self.auth_text_input_selection.selected == 0 {
                self.in_state(AppState::EditingRequestAuthBearerToken)
            } else {
                self
            },
        }
    }

    /// The state after the credentials tab was loaded: every input shows
    /// what `request` holds, and the tab of the credentials is in front.
    pub open spec fn with_auth_tab_of(self, request: RequestView) -> AppView {
        AppView { request_param_tab: RequestParamsTabs::Auth, ..self.with_inputs_of(request) }
    }

    /// The state after an edit of the open request was taken over: the
    /// request is shown again, every input filled from `request`, every
    /// cursor at the start.
    pub open spec fn showing_request(self, request: RequestView) -> AppView {
        self.in_state(AppState::SelectedRequest).with_inputs_of(request).with_cursors_reset()
    }
}

impl App {
    /// Shows the credentials tab, with every input filled from what the open
    /// request holds at this moment.
    pub fn load_request_auth_param_tab(&mut self)
        requires
            old(self)@.request_is_open(),
        ensures
            exists|request: RequestView| final(self)@ == old(self)@.with_auth_tab_of(request),
    {
        self.update_inputs();
        let ghost request = choose|request: RequestView|
            self@ == old(self)@.with_inputs_of(request);
        self.request_param_tab = RequestParamsTabs::Auth;
        assert(self@ == old(self)@.with_auth_tab_of(request));
    }

    /// Gives the open request the authentication that follows in the cycle,
    /// and shows it.
    pub fn modify_request_auth(&mut self) -> (action: FileAction)
        requires
            old(self)@.request_is_open(),
        ensures
            exists|request: RequestView| final(self)@ == old(self)@.with_auth_tab_of(request),
            old(self)@.saves(old(self)@.open_collection(), action@),
    {
        let selected_request_index = self.collections_tree.selected.unwrap();
        let local_selected_request = self.get_request_as_local_from_indexes(
            &selected_request_index,
        );

        let cycle = |selected_request: &mut Request| { selected_request.cycle_auth() };
        write_with(&local_selected_request, cycle);

        let action = self.save_collection_to_file(selected_request_index.0);
        self.load_request_auth_param_tab();
        action
    }

    /// Takes under edit the input that is selected among the credentials of
    /// the open request, as they are at this moment.
    pub fn select_request_auth_input_text(&mut self)
        requires
            old(self)@.request_is_open(),
        ensures
            exists|auth: AuthView| final(self)@ == old(self)@.editing_auth_input(auth),
    {
        let local_selected_request = self.get_selected_request_as_local();
        let auth_of = |selected_request: &Request| -> (auth: Auth)
            ensures auth@ == selected_request@.auth
        { selected_request.auth.clone() };
        let auth = read_with(&local_selected_request, auth_of);
        self.select_auth_input_text_for(&auth);
    }

    /// Takes under edit the input that is selected among the credentials of `auth`.
    pub fn select_auth_input_text_for(&mut self, auth: &Auth)
        ensures
            final(self)@ == old(self)@.editing_auth_input(auth@),
    {
        match auth {
            Auth::NoAuth => {},
            Auth::BasicAuth(_, _) => match self.auth_text_input_selection.selected {
                0 => self.edit_request_auth_username_state(),
                1 => self.edit_request_auth_password_state(),
                _ => {},
            },
            Auth::BearerToken(_) => {
                if self.auth_text_input_selection.selected == 0 {
                    self.edit_request_auth_bearer_token_state()
                }
            },
        }
    }

    /// Takes over the user name that was typed, where the open request has a
    /// basic authentication, and shows the request again.
    pub fn modify_request_auth_basic_username(&mut self) -> (action: FileAction)
        requires
            old(self)@.request_is_open(),
        ensures
            exists|request: RequestView| final(self)@ == old(self)@.showing_request(request),
            old(self)@.saves(old(self)@.open_collection(), action@),
    {
        let input_text = self.auth_basic_username_text_input.text.clone();

        let selected_request_index = self.collections_tree.selected.unwrap();
        let local_selected_request = self.get_request_as_local_from_indexes(
            &selected_request_index,
        );

        let set_username = move |selected_request: &mut Request|
            { selected_request.set_basic_auth_username(input_text) };
        write_with(&local_selected_request, set_username);

        let action = self.save_collection_to_file(selected_request_index.0);
        self.select_request_state();
        proof {
            let request = choose|request: RequestView|
                self@ == old(self)@.in_state(AppState::SelectedRequest).with_inputs_of(
                    request,
                ).with_cursors_reset();
            assert(self@ == old(self)@.showing_request(request));
        }
        action
    }

    /// Takes over the password that was typed, where the open request has a
    /// basic authentication, and shows the request again.
    pub fn modify_request_auth_basic_password(&mut self) -> (action: FileAction)
        requires
            old(self)@.request_is_open(),
        ensures
            exists|request: RequestView| final(self)@ == old(self)@.showing_request(request),
            old(self)@.saves(old(self)@.open_collection(), action@),
    {
        let input_text = self.auth_basic_password_text_input.text.clone();

        let selected_request_index = self.collections_tree.selected.unwrap();
        let local_selected_request = self.get_request_as_local_from_indexes(
            &selected_request_index,
        );

        let set_password = move |selected_request: &mut Request|
            { selected_request.set_basic_auth_password(input_text) };
        write_with(&local_selected_request, set_password);

        let action = self.save_collection_to_file(selected_request_index.0);
        self.select_request_state();
        proof {
            let request = choose|request: RequestView|
                self@ == old(self)@.in_state(AppState::SelectedRequest).with_inputs_of(
                    request,
                ).with_cursors_reset();
            assert(self@ == old(self)@.showing_request(request));
        }
        action
    }

    /// Takes over the token that was typed, where the open request has a
    /// bearer authentication, and shows the request again.
    pub fn modify_request_auth_bearer_token(&mut self) -> (action: FileAction)
        requires
            old(self)@.request_is_open(),
        ensures
            exists|request: RequestView| final(self)@ == old(self)@.showing_request(request),
            old(self)@.saves(old(self)@.open_collection(), action@),
    {
        let input_text = self.auth_bearer_token_text_input.text.clone();

        let selected_request_index = self.collections_tree.selected.unwrap();
        let local_selected_request = self.get_request_as_local_from_indexes(
            &selected_request_index,
        );

        let set_token = move |selected_request: &mut Request|
            { selected_request.set_bearer_token(input_text) };
        write_with(&local_selected_request, set_token);

        let action = self.save_collection_to_file(selected_request_index.0);
        self.select_request_state();
        proof {
            let request = choose|request: RequestView|
                self@ == old(self)@.in_state(AppState::SelectedRequest).with_inputs_of(
                    request,
                ).with_cursors_reset();
            assert(self@ == old(self)@.showing_request(request));
        }
        action
    }
}

} // verus!
