//! Keeping the inputs on screen in step with the open request.

use crate::app::app::{App, AppView};
use crate::request::auth::{Auth, AuthView};
use crate::request::body::{ContentType, ContentTypeView};
use crate::request::key_value::{clone_rows, rows_view, KeyValue, KeyValueView};
use crate::request::request::{Request, RequestView};
use crate::utils::stateful_custom_table::{
    cell_text,
    selected_cell_text,
    StatefulCustomTableView,
};
use crate::utils::text_input::TextInputView;
use crate::utils::text_input_selection::TextInputSelection;
use vstd::prelude::*;

verus! {

/// A table whose input is empty.
pub open spec fn with_empty_input(table: StatefulCustomTableView) -> StatefulCustomTableView {
    StatefulCustomTableView { selection_text_input: TextInputView::empty(), ..table }
}

/// A table whose input has the cursor at the start.
pub open spec fn with_cursor_at_start(table: StatefulCustomTableView) -> StatefulCustomTableView {
    StatefulCustomTableView {
        selection_text_input: TextInputView {
            cursor_position: 0,
            ..table.selection_text_input
        },
        ..table
    }
}

/// A table that shows `rows`, with the text of the selected cell in its input.
pub open spec fn showing(
    table: StatefulCustomTableView,
    rows: Seq<KeyValueView>,
) -> StatefulCustomTableView {
    StatefulCustomTableView {
        rows: rows,
        selection: table.selection,
        selection_text_input: TextInputView::holding(cell_text(rows, table.selection)),
    }
}

/// The text of an optional script; empty where there is none.
pub open spec fn script_text(script: Option<Seq<char>>) -> Seq<char> {
    match script {
        Some(text) => text,
        None => Seq::empty(),
    }
}

impl AppView {
    /// The state with every input of a request emptied.
    pub open spec fn with_inputs_reset(self) -> AppView {
        AppView {
            url_text_input: TextInputView::empty(),
            query_params_table: with_empty_input(self.query_params_table),
            auth_basic_username_text_input: TextInputView::empty(),
            auth_basic_password_text_input: TextInputView::empty(),
            auth_bearer_token_text_input: TextInputView::empty(),
            headers_table: with_empty_input(self.headers_table),
            body_form_table: with_empty_input(self.body_form_table),
            body_file_text_input: TextInputView::empty(),
            ..self
        }
    }

    /// The state with the cursor of every input of a request at the start.
    pub open spec fn with_cursors_reset(self) -> AppView {
        AppView {
            url_text_input: TextInputView { cursor_position: 0, ..self.url_text_input },
            query_params_table: with_cursor_at_start(self.query_params_table),
            auth_basic_username_text_input: TextInputView {
                cursor_position: 0,
                ..self.auth_basic_username_text_input
            },
            auth_basic_password_text_input: TextInputView {
                cursor_position: 0,
                ..self.auth_basic_password_text_input
            },
            auth_bearer_token_text_input: TextInputView {
                cursor_position: 0,
                ..self.auth_bearer_token_text_input
            },
            headers_table: with_cursor_at_start(self.headers_table),
            body_form_table: with_cursor_at_start(self.body_form_table),
            body_file_text_input: TextInputView { cursor_position: 0, ..self.body_file_text_input },
            ..self
        }
    }

    /// The state with every input showing what `request` holds: the URL with
    /// its parameters, the tables of parameters, headers and form fields with
    /// the text of their selected cell, the credentials, the file path, the
    /// body text and the two scripts. An input for which `request` holds
    /// nothing is empty. A file body leaves the form table and the body text
    /// as they are.
    pub open spec fn with_inputs_of(self, request: RequestView) -> AppView {
        AppView {
            url_text_input: TextInputView::holding(request.url_with_params()),
            query_params_table: showing(self.query_params_table, request.params),
            auth_text_input_selection: TextInputSelection {
                selected: self.auth_text_input_selection.selected,
                max_selection: match request.auth {
                    AuthView::NoAuth => 0,
                    AuthView::BasicAuth(_, _) => 2,
                    AuthView::BearerToken(_) => 1,
                },
                usable: !(request.auth is NoAuth),
            },
            auth_basic_username_text_input: match request.auth {
                AuthView::BasicAuth(username, _) => TextInputView::holding(username),
                _ => TextInputView::empty(),
            },
            auth_basic_password_text_input: match request.auth {
                AuthView::BasicAuth(_, password) => TextInputView::holding(password),
                _ => TextInputView::empty(),
            },
            auth_bearer_token_text_input: match request.auth {
                AuthView::BearerToken(token) => TextInputView::holding(token),
                _ => TextInputView::empty(),
            },
            headers_table: showing(self.headers_table, request.headers),
            body_form_table: match request.body {
                ContentTypeView::File(_) => with_empty_input(self.body_form_table),
                ContentTypeView::Multipart(form) | ContentTypeView::Form(form) => showing(
                    self.body_form_table,
                    form,
                ),
                _ => showing(self.body_form_table, Seq::empty()),
            },
            body_file_text_input: match request.body {
                ContentTypeView::File(path) => TextInputView::holding(path),
                _ => TextInputView::empty(),
            },
            body_text_area: match request.body {
                ContentTypeView::File(_) => self.body_text_area,
                ContentTypeView::NoBody | ContentTypeView::Multipart(_) | ContentTypeView::Form(
                    _,
                ) => Seq::empty(),
                ContentTypeView::Raw(text)
                | ContentTypeView::Json(text)
                | ContentTypeView::Xml(text)
                | ContentTypeView::Html(text)
                | ContentTypeView::Javascript(text) => text,
            },
            pre_request_script_text_area: script_text(request.scripts.pre_request_script),
            post_request_script_text_area: script_text(request.scripts.post_request_script),
            ..self
        }
    }
}

impl App {
    /// Empties every input of a request.
    pub fn reset_inputs(&mut self)
        ensures
            final(self)@ == old(self)@.with_inputs_reset(),
    {
        self.url_text_input.reset_input();
        self.query_params_table.selection_text_input.reset_input();
        self.auth_basic_username_text_input.reset_input();
        self.auth_basic_password_text_input.reset_input();
        self.auth_bearer_token_text_input.reset_input();
        self.headers_table.selection_text_input.reset_input();
        self.body_form_table.selection_text_input.reset_input();
        self.body_file_text_input.reset_input();
    }

    /// Moves the cursor of every input of a request to the start.
    pub fn reset_cursors(&mut self)
        ensures
            final(self)@ == old(self)@.with_cursors_reset(),
    {
        self.url_text_input.reset_cursor();
        self.query_params_table.selection_text_input.reset_cursor();
        self.auth_basic_username_text_input.reset_cursor();
        self.auth_basic_password_text_input.reset_cursor();
        self.auth_bearer_token_text_input.reset_cursor();
        self.headers_table.selection_text_input.reset_cursor();
        self.body_form_table.selection_text_input.reset_cursor();
        self.body_file_text_input.reset_cursor();
    }

    /// Replaces the text of the body editor.
    pub fn refresh_body_textarea(&mut self, text: &str)
        ensures
            final(self)@ == (AppView { body_text_area: text@, ..old(self)@ }),
    {
        self.body_text_area = text.to_string();
    }

    /// Replaces the text of the editor of the script that runs before the request.
    pub fn refresh_pre_request_script_textarea(&mut self, text: &str)
        ensures
            final(self)@ == (AppView { pre_request_script_text_area: text@, ..old(self)@ }),
    {
        self.pre_request_script_text_area = text.to_string();
    }

    /// Replaces the text of the editor of the script that runs after the request.
    pub fn refresh_post_request_script_textarea(&mut self, text: &str)
        ensures
            final(self)@ == (AppView { post_request_script_text_area: text@, ..old(self)@ }),
    {
        self.post_request_script_text_area = text.to_string();
    }

    /// Shows in every input what the open request holds at this moment.
    pub fn update_inputs(&mut self)
        requires
            old(self)@.request_is_open(),
        ensures
            exists|request: RequestView| final(self)@ == old(self)@.with_inputs_of(request),
    {
        let local_selected_request = self.get_selected_request_as_local();
        let selected_request = App::snapshot_of(&local_selected_request);
        self.update_inputs_from(&selected_request);
    }

    /// Shows in every input what `selected_request` holds.
    pub fn update_inputs_from(&mut self, selected_request: &Request)
        ensures
            final(self)@ == old(self)@.with_inputs_of(selected_request@),
            final(self)@.inputs_are_wf(),
    {
        self.reset_inputs();
        self.show_url_and_tables(selected_request);
        self.show_auth(&selected_request.auth);
        self.show_body(&selected_request.body);

        let pre_request_script = match &selected_request.scripts.pre_request_script {
            None => "",
            Some(pre_request_script) => pre_request_script.as_str(),
        };

        let post_request_script = match &selected_request.scripts.post_request_script {
            None => "",
            Some(post_request_script) => post_request_script.as_str(),
        };

        self.refresh_pre_request_script_textarea(pre_request_script);
        self.refresh_post_request_script_textarea(post_request_script);

        proof {
            reveal_strlit("");
            let request = selected_request@;
            assert(self@.pre_request_script_text_area =~= script_text(
                request.scripts.pre_request_script,
            ));
            assert(self@.post_request_script_text_area =~= script_text(
                request.scripts.post_request_script,
            ));
        }
    }

    /// Shows the URL with its parameters, and the tables of parameters and headers.
    fn show_url_and_tables(&mut self, selected_request: &Request)
        requires
            old(self)@.url_text_input == TextInputView::empty(),
            old(self)@.query_params_table.selection_text_input == TextInputView::empty(),
            old(self)@.headers_table.selection_text_input == TextInputView::empty(),
        ensures
            final(self)@ == (AppView {
                url_text_input: TextInputView::holding(selected_request@.url_with_params()),
                query_params_table: showing(
                    old(self)@.query_params_table,
                    selected_request@.params,
                ),
                headers_table: showing(old(self)@.headers_table, selected_request@.headers),
                ..old(self)@
            }),
            final(self)@.url_text_input.wf(),
            final(self)@.query_params_table.selection_text_input.wf(),
            final(self)@.headers_table.selection_text_input.wf(),
    {
        let url = selected_request.url_with_params_to_string();
        self.url_text_input.enter_str(url.as_str());
        self.query_params_table.rows = clone_rows(&selected_request.params);
        self.headers_table.rows = clone_rows(&selected_request.headers);

        let param_text = selected_cell_text(
            &selected_request.params,
            self.query_params_table.selection,
        );
        self.query_params_table.selection_text_input.enter_str(param_text.as_str());

        let header_text = selected_cell_text(
            &selected_request.headers,
            self.headers_table.selection,
        );
        self.headers_table.selection_text_input.enter_str(header_text.as_str());
    }

    /// Shows the credentials, and sets how many inputs there are for them.
    fn show_auth(&mut self, auth: &Auth)
        requires
            old(self)@.auth_basic_username_text_input == TextInputView::empty(),
            old(self)@.auth_basic_password_text_input == TextInputView::empty(),
            old(self)@.auth_bearer_token_text_input == TextInputView::empty(),
        ensures
            final(self)@ == (AppView {
                auth_text_input_selection: TextInputSelection {
                    selected: old(self)@.auth_text_input_selection.selected,
                    max_selection: match auth@ {
                        AuthView::NoAuth => 0,
                        AuthView::BasicAuth(_, _) => 2,
                        AuthView::BearerToken(_) => 1,
                    },
                    usable: !(auth@ is NoAuth),
                },
                auth_basic_username_text_input: match auth@ {
                    AuthView::BasicAuth(username, _) => TextInputView::holding(username),
                    _ => TextInputView::empty(),
                },
                auth_basic_password_text_input: match auth@ {
                    AuthView::BasicAuth(_, password) => TextInputView::holding(password),
                    _ => TextInputView::empty(),
                },
                auth_bearer_token_text_input: match auth@ {
                    AuthView::BearerToken(token) => TextInputView::holding(token),
                    _ => TextInputView::empty(),
                },
                ..old(self)@
            }),
            final(self)@.auth_basic_username_text_input.wf(),
            final(self)@.auth_basic_password_text_input.wf(),
            final(self)@.auth_bearer_token_text_input.wf(),
    {
        match auth {
            Auth::NoAuth => {
                self.auth_text_input_selection.max_selection = 0;
                self.auth_text_input_selection.usable = false;
            },
            Auth::BasicAuth(username, password) => {
                self.auth_text_input_selection.max_selection = 2;
                self.auth_text_input_selection.usable = true;

                self.auth_basic_username_text_input.enter_str(username.as_str());
                self.auth_basic_password_text_input.enter_str(password.as_str());
            },
            Auth::BearerToken(bearer_token) => {
                self.auth_text_input_selection.max_selection = 1;
                self.auth_text_input_selection.usable = true;

                self.auth_bearer_token_text_input.enter_str(bearer_token.as_str());
            },
        }
    }

    /// Shows the body: a form in the form table, a file path in its input, a
    /// text in the body editor.
    fn show_body(&mut self, body: &ContentType)
        requires
            old(self)@.body_form_table.selection_text_input == TextInputView::empty(),
            old(self)@.body_file_text_input == TextInputView::empty(),
        ensures
            final(self)@ == (AppView {
                body_form_table: match body@ {
                    ContentTypeView::File(_) => old(self)@.body_form_table,
                    ContentTypeView::Multipart(form) | ContentTypeView::Form(form) => showing(
                        old(self)@.body_form_table,
                        form,
                    ),
                    _ => showing(old(self)@.body_form_table, Seq::empty()),
                },
                body_file_text_input: match body@ {
                    ContentTypeView::File(path) => TextInputView::holding(path),
                    _ => TextInputView::empty(),
                },
                body_text_area: match body@ {
                    ContentTypeView::File(_) => old(self)@.body_text_area,
                    ContentTypeView::NoBody
                    | ContentTypeView::Multipart(_)
                    | ContentTypeView::Form(_) => Seq::empty(),
                    ContentTypeView::Raw(text)
                    | ContentTypeView::Json(text)
                    | ContentTypeView::Xml(text)
                    | ContentTypeView::Html(text)
                    | ContentTypeView::Javascript(text) => text,
                },
                ..old(self)@
            }),
            final(self)@.body_form_table.selection_text_input.wf(),
            final(self)@.body_file_text_input.wf(),
    {
        let no_rows: Vec<KeyValue> = Vec::new();
        assert(rows_view(no_rows@) =~= Seq::empty());
        match body {
            ContentType::NoBody => {
                self.show_form_and_text(&no_rows, "");
            },
            ContentType::Multipart(form) => {
                self.show_form_and_text(form, "");
            },
            ContentType::Form(form) => {
                self.show_form_and_text(form, "");
            },
            ContentType::File(file_path) => {
                self.body_file_text_input.enter_str(file_path.as_str());
            },
            ContentType::Raw(text) => {
                self.show_form_and_text(&no_rows, text.as_str());
            },
            ContentType::Json(text) => {
                self.show_form_and_text(&no_rows, text.as_str());
            },
            ContentType::Xml(text) => {
                self.show_form_and_text(&no_rows, text.as_str());
            },
            ContentType::Html(text) => {
                self.show_form_and_text(&no_rows, text.as_str());
            },
            ContentType::Javascript(text) => {
                self.show_form_and_text(&no_rows, text.as_str());
            },
        }
        proof {
            reveal_strlit("");
            assert(self@.body_text_area =~= match body@ {
                ContentTypeView::File(_) => old(self)@.body_text_area,
                ContentTypeView::NoBody
                | ContentTypeView::Multipart(_)
                | ContentTypeView::Form(_) => Seq::empty(),
                ContentTypeView::Raw(text)
                | ContentTypeView::Json(text)
                | ContentTypeView::Xml(text)
                | ContentTypeView::Html(text)
                | ContentTypeView::Javascript(text) => text,
            });
        }
    }

    /// Shows `form` in the form table, with the text of the selected cell in
    /// its input, and `text` in the body editor.
    fn show_form_and_text(&mut self, form: &Vec<KeyValue>, text: &str)
        requires
            old(self)@.body_form_table.selection_text_input == TextInputView::empty(),
        ensures
            final(self)@ == (AppView {
                body_form_table: showing(old(self)@.body_form_table, rows_view(form@)),
                body_text_area: text@,
                ..old(self)@
            }),
            final(self)@.body_form_table.selection_text_input.wf(),
    {
        self.body_form_table.rows = clone_rows(form);
        let form_text = selected_cell_text(form, self.body_form_table.selection);
        self.body_form_table.selection_text_input.enter_str(form_text.as_str());
        self.refresh_body_textarea(text);
    }
}

} // verus!
