//! Opening and closing requests, and folding collections.

use crate::app::app::{App, AppView};
use crate::app::app_states::AppState;
use crate::request::body::ContentTypeView;
use crate::request::key_value::{rows_view, KeyValue, KeyValueView};
use crate::request::request::{Request, RequestView};
use crate::utils::stateful_custom_table::{first_cell, StatefulCustomTableView};
use crate::utils::stateful_tree::{toggled, StatefulTreeView, TreeSelection};
use vstd::prelude::*;

verus! {

/// A table without a selected cell.
pub open spec fn without_selection(table: StatefulCustomTableView) -> StatefulCustomTableView {
    StatefulCustomTableView { selection: None, ..table }
}

/// The rows of a form body; none for any other body.
pub open spec fn form_rows(body: ContentTypeView) -> Seq<KeyValueView> {
    match body.form() {
        Some(form) => form,
        None => Seq::empty(),
    }
}

impl AppView {
    /// The state with nothing selected: the cursor of the tree stands
    /// nowhere, no request is open, and no table has a selected cell.
    pub open spec fn with_selection_cleared(self) -> AppView {
        AppView {
            collections_tree: StatefulTreeView {
                cursor: TreeSelection::Unselected,
                selected: None,
                ..self.collections_tree
            },
            query_params_table: without_selection(self.query_params_table),
            headers_table: without_selection(self.headers_table),
            body_form_table: without_selection(self.body_form_table),
            ..self
        }
    }

    /// The state with the request at the given indexes open, as it shows
    /// `request`: each table has the key of its first row selected, or nothing
    /// where it has no row; every input shows what `request` holds, with the
    /// cursor at the start.
    pub open spec fn with_request_open(
        self,
        collection: usize,
        index: usize,
        request: RequestView,
    ) -> AppView {
        (AppView {
            state: AppState::SelectedRequest,
            collections_tree: StatefulTreeView {
                selected: Some((collection, index)),
                ..self.collections_tree
            },
            query_params_table: StatefulCustomTableView {
                selection: first_cell(request.params),
                ..self.query_params_table
            },
            headers_table: StatefulCustomTableView {
                selection: first_cell(request.headers),
                ..self.headers_table
            },
            body_form_table: StatefulCustomTableView {
                selection: first_cell(form_rows(request.body)),
                ..self.body_form_table
            },
            ..self
        }).with_inputs_of(request).with_cursors_reset()
    }

    /// The state with the collection under the cursor folded if it was
    /// unfolded, and unfolded if it was folded.
    pub open spec fn with_collection_toggled(self, collection: usize) -> AppView {
        AppView {
            collections_tree: StatefulTreeView {
                opened: toggled(self.collections_tree.opened, collection),
                ..self.collections_tree
            },
            ..self
        }
    }
}

impl App {
    /// Opens the request under the cursor: selects the first cell of each of
    /// its tables and shows what it holds at this moment in every input. Does
    /// nothing where the cursor stands on no request.
    pub fn select_request(&mut self)
        requires
            old(self)@.cursor_is_valid(),
        ensures
            match old(self)@.collections_tree.cursor {
                TreeSelection::Request(collection, index) => exists|request: RequestView|
                    final(self)@ == old(self)@.with_request_open(collection, index, request),
                _ => final(self)@ == old(self)@,
            },
            old(self)@.selection_is_valid() ==> final(self)@.selection_is_valid(),
    {
        if let TreeSelection::Request(collection, index) = self.collections_tree.state.selected {
            let handle = self.get_request_as_local_from_indexes(&(collection, index));
            let selected_request = App::snapshot_of(&handle);
            self.select_request_from(&selected_request);
        }
    }

    /// Opens the request under the cursor as it shows `selected_request`.
    pub fn select_request_from(&mut self, selected_request: &Request)
        requires
            old(self)@.collections_tree.cursor is Request,
        ensures
            old(self)@.collections_tree.cursor matches TreeSelection::Request(collection, index)
                && final(self)@ == old(self)@.with_request_open(
                collection,
                index,
                selected_request@,
            ),
            final(self)@.inputs_are_wf(),
            old(self)@.cursor_is_valid() ==> final(self)@.selection_is_valid(),
    {
        self.collections_tree.set_selected();
        self.query_params_table.selection = first_cell_of(&selected_request.params);
        self.headers_table.selection = first_cell_of(&selected_request.headers);
        self.body_form_table.selection = match selected_request.body.get_form() {
            Some(form) => first_cell_of(form),
            None => None,
        };
        self.select_request_state_from(selected_request);
    }

    /// Closes the open request and takes the cursor off the tree.
    pub fn unselect_request(&mut self)
        ensures
            final(self)@ == old(self)@.with_selection_cleared().in_state(AppState::Normal),
            final(self)@.selection_is_valid(),
    {
        self.clear_selection();
        self.normal_state()
    }

    /// Takes the cursor off the tree, closes the open request and drops the
    /// selected cell of every table.
    pub fn clear_selection(&mut self)
        ensures
            final(self)@ == old(self)@.with_selection_cleared(),
            final(self)@.selection_is_valid(),
    {
        self.collections_tree.state.select(TreeSelection::Unselected);
        self.collections_tree.set_unselected();
        self.query_params_table.selection = None;
        self.headers_table.selection = None;
        self.body_form_table.selection = None;
    }

    /// On a collection, folds or unfolds it; on a request, opens it.
    pub fn select_request_or_expand_collection(&mut self)
        requires
            old(self)@.cursor_is_valid(),
        ensures
            match old(self)@.collections_tree.cursor {
                TreeSelection::Unselected => final(self)@ == old(self)@,
                TreeSelection::Collection(collection) => final(self)@
                    == old(self)@.with_collection_toggled(collection),
                TreeSelection::Request(collection, index) => exists|request: RequestView|
                    final(self)@ == old(self)@.with_request_open(collection, index, request),
            },
    {
        match self.collections_tree.state.selected {
            TreeSelection::Collection(_) => {
                self.collections_tree.state.toggle_selected();
            },
            TreeSelection::Request(_, _) => {
                self.select_request();
            },
            TreeSelection::Unselected => {},
        }
    }
}

/// The selection that a table gets when a request is opened.
fn first_cell_of(rows: &Vec<KeyValue>) -> (selection: Option<(usize, usize)>)
    ensures
        selection == first_cell(rows_view(rows@)),
{
    if rows.is_empty() {
        None
    } else {
        Some((0, 0))
    }
}

} // verus!
