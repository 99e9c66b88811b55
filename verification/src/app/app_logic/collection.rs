//! Creating, renaming, deleting and reordering collections and requests.
//! Every change says what has to be done to the files to keep them in step.

use crate::app::app::{names_are_unique, App, AppView};
use crate::app::app_states::AppState;
use crate::app::files::collection::{
    collection_file_name,
    file_name_of_collection,
    join_path,
    lemma_saves_in_any_state,
    path_in_directory,
    FileAction,
};
use crate::request::collection::{Collection, CollectionView, RequestHandle};
use crate::request::request::Request;
use crate::utils::choice_popup::ValidationPopup;
use crate::utils::shared::{share, write_with};
use crate::utils::stateful_tree::{StatefulTreeView, TreeSelection};
use crate::utils::text::{blank, is_blank};
use vstd::prelude::*;

verus! {

/// Whether a collection is called `name`.
pub open spec fn has_collection_named(collections: Seq<CollectionView>, name: Seq<char>) -> bool {
    exists|i: int| 0 <= i < collections.len() && (#[trigger] collections[i]).name == name
}

/// Whether a collection other than the one with index `except` is called `name`.
pub open spec fn has_other_collection_named(
    collections: Seq<CollectionView>,
    name: Seq<char>,
    except: int,
) -> bool {
    exists|i: int|
        0 <= i < collections.len() && i != except && (#[trigger] collections[i]).name == name
}

/// The requests with those at `first` and `second` in each other's place.
pub open spec fn swapped(requests: Seq<RequestHandle>, first: int, second: int) -> Seq<
    RequestHandle,
> {
    requests.update(first, requests[second]).update(second, requests[first])
}

/// Where an open request is after the requests at `first` and `second` of
/// `collection` changed places: an open request that is one of the two has
/// moved with it.
pub open spec fn following_swap(
    selected: Option<(usize, usize)>,
    collection: usize,
    first: usize,
    second: usize,
) -> Option<(usize, usize)> {
    if selected == Some((collection, first)) {
        Some((collection, second))
    } else if selected == Some((collection, second)) {
        Some((collection, first))
    } else {
        selected
    }
}

impl AppView {
    /// The name typed for a new collection is refused: it is blank, or a
    /// collection has exactly this name.
    pub open spec fn new_collection_is_refused(self) -> bool {
        is_blank(self.new_collection_input.text) || has_collection_named(
            self.collections,
            self.new_collection_input.text,
        )
    }

    /// The collection that `new_collection` creates: empty, called as typed,
    /// saved in the main directory in the preferred format.
    pub open spec fn created_collection(self) -> CollectionView {
        CollectionView {
            name: self.new_collection_input.text,
            requests: Seq::empty(),
            path: path_in_directory(
                self.args.directory@,
                collection_file_name(
                    self.new_collection_input.text,
                    self.config.preferred_format(),
                ),
            ),
            file_format: self.config.preferred_format(),
        }
    }

    /// The state after `new_collection`: unchanged where the name is refused,
    /// otherwise with the new collection at the end and nothing under way.
    pub open spec fn with_new_collection(self) -> AppView {
        if self.new_collection_is_refused() {
            self
        } else {
            AppView {
                collections: self.collections.push(self.created_collection()),
                state: AppState::Normal,
                ..self
            }
        }
    }

    /// The state after a new request, shared as `handle`, was put at the end
    /// of the collection that the popup names.
    pub open spec fn with_new_request(self, handle: RequestHandle) -> AppView {
        let collection = self.new_request_popup.selected_collection as int;
        AppView {
            collections: self.collections.update(
                collection,
                CollectionView {
                    requests: self.collections[collection].requests.push(handle),
                    ..self.collections[collection]
                },
            ),
            state: AppState::Normal,
            ..self
        }
    }

    /// The state after the collection with index `collection` was deleted:
    /// without it, with nothing selected and nothing under way.
    pub open spec fn without_collection(self, collection: usize) -> AppView {
        (AppView {
            collections: self.collections.remove(collection as int),
            ..self
        }).with_selection_cleared().in_state(AppState::Normal)
    }

    /// The state after the request at `index` of the collection with index
    /// `collection` was deleted: without it, with nothing selected and nothing
    /// under way.
    pub open spec fn without_request(self, collection: usize, index: usize) -> AppView {
        (AppView {
            collections: self.collections.update(
                collection as int,
                CollectionView {
                    requests: self.collections[collection as int].requests.remove(index as int),
                    ..self.collections[collection as int]
                },
            ),
            ..self
        }).with_selection_cleared().in_state(AppState::Normal)
    }

    /// The name typed for the collection with index `collection` is refused:
    /// it is blank, or another collection has exactly this name.
    pub open spec fn rename_collection_is_refused(self, collection: usize) -> bool {
        is_blank(self.rename_collection_input.text) || has_other_collection_named(
            self.collections,
            self.rename_collection_input.text,
            collection as int,
        )
    }

    /// The state after `rename_collection`: unchanged where the name is
    /// refused, otherwise with the collection called as typed, where it was,
    /// and nothing under way.
    pub open spec fn with_collection_renamed(self, collection: usize) -> AppView {
        if self.rename_collection_is_refused(collection) {
            self
        } else {
            AppView {
                collections: self.collections.update(
                    collection as int,
                    CollectionView {
                        name: self.rename_collection_input.text,
                        ..self.collections[collection as int]
                    },
                ),
                state: AppState::Normal,
                ..self
            }
        }
    }

    /// The state after the requests at `from` and `to` of the collection with
    /// index `collection` changed places: the cursor, which stood on `from`,
    /// stands on `to`, and an open request that is one of the two has moved
    /// with it.
    pub open spec fn with_requests_swapped(
        self,
        collection: usize,
        from: usize,
        to: usize,
    ) -> AppView {
        AppView {
            collections: self.collections.update(
                collection as int,
                CollectionView {
                    requests: swapped(
                        self.collections[collection as int].requests,
                        from as int,
                        to as int,
                    ),
                    ..self.collections[collection as int]
                },
            ),
            collections_tree: StatefulTreeView {
                cursor: TreeSelection::Request(collection, to),
                selected: following_swap(self.collections_tree.selected, collection, from, to),
                ..self.collections_tree
            },
            ..self
        }
    }

    /// Whether `move_request_up` moves anything: the cursor stands on a
    /// request that is not the first of its collection.
    pub open spec fn can_move_request_up(self) -> bool {
        self.collections_tree.cursor matches TreeSelection::Request(_, index) && index > 0
    }

    /// Whether `move_request_down` moves anything: the cursor stands on a
    /// request that is not the last of its collection.
    pub open spec fn can_move_request_down(self) -> bool {
        self.collections_tree.cursor matches TreeSelection::Request(collection, index) && index
            + 1 < self.collections[collection as int].requests.len()
    }

    /// The state after `move_request_up`: the request under the cursor has
    /// changed places with the one before it, and the cursor has moved with
    /// it. Unchanged where there is nothing to move.
    pub open spec fn after_move_request_up(self) -> AppView {
        match self.collections_tree.cursor {
            TreeSelection::Request(collection, index) => if index > 0 {
                self.with_requests_swapped(collection, index, (index - 1) as usize)
            } else {
                self
            },
            _ => self,
        }
    }

    /// The state after `move_request_down`: the request under the cursor has
    /// changed places with the one after it, and the cursor has moved with
    /// it. Unchanged where there is nothing to move.
    pub open spec fn after_move_request_down(self) -> AppView {
        match self.collections_tree.cursor {
            TreeSelection::Request(collection, index) => if index + 1
                < self.collections[collection as int].requests.len() {
                self.with_requests_swapped(collection, index, (index + 1) as usize)
            } else {
                self
            },
            _ => self,
        }
    }
}

/// A new collection never shares its name with an old one: unique names stay unique.
pub proof fn lemma_new_collection_keeps_names_unique(app: AppView)
    requires
        names_are_unique(app.collections),
    ensures
        names_are_unique(app.with_new_collection().collections),
{
}

/// A renamed collection never shares its new name with another one: unique
/// names stay unique.
pub proof fn lemma_rename_collection_keeps_names_unique(app: AppView, collection: usize)
    requires
        names_are_unique(app.collections),
        collection < app.collections.len(),
    ensures
        names_are_unique(app.with_collection_renamed(collection).collections),
{
}

/// Without one of them, collections with unique names have unique names.
pub proof fn lemma_delete_collection_keeps_names_unique(app: AppView, collection: usize)
    requires
        names_are_unique(app.collections),
        collection < app.collections.len(),
    ensures
        names_are_unique(app.without_collection(collection).collections),
{
}

/// Moving a request up and then down again, or down and then up again,
/// restores the order of the requests, the cursor and the open request.
pub proof fn lemma_moves_undo_each_other(app: AppView)
    requires
        app.cursor_is_valid(),
        app.fits_in_memory(),
    ensures
        app.can_move_request_up() ==> app.after_move_request_up().after_move_request_down() == app,
        app.can_move_request_down() ==> app.after_move_request_down().after_move_request_up()
            == app,
{
    if let TreeSelection::Request(collection, index) = app.collections_tree.cursor {
        let requests = app.collections[collection as int].requests;
        if index > 0 {
            let up = app.after_move_request_up();
            let back = up.after_move_request_down();
            assert(back.collections[collection as int].requests =~= requests);
            assert(back.collections =~= app.collections);
        }
        if index + 1 < requests.len() {
            let down = app.after_move_request_down();
            let back = down.after_move_request_up();
            assert(back.collections[collection as int].requests =~= requests);
            assert(back.collections =~= app.collections);
        }
    }
}

impl App {
    /// Starts the creation of what the creation popup points at: a
    /// collection for choice 0, a request for choice 1.
    pub fn new_element(&mut self)
        ensures
            final(self)@ == if old(self)@.creation_popup.selection == 0 {
                old(self)@.in_state(AppState::CreatingNewCollection)
            } else if old(self)@.creation_popup.selection == 1 {
                old(self)@.creating_new_request()
            } else {
                old(self)@
            },
    {
        match self.creation_popup.selection {
            0 => self.create_new_collection_state(),
            1 => self.create_new_request_state(),
            _ => {},
        }
    }

    /// Starts the deletion of what the cursor stands on.
    pub fn delete_element(&mut self)
        ensures
            final(self)@ == match old(self)@.collections_tree.cursor {
                TreeSelection::Collection(_) => AppView {
                    state: AppState::DeletingCollection,
                    delete_collection_popup: ValidationPopup {
                        state: false,
                    },
                    ..old(self)@
                },
                TreeSelection::Request(_, _) => AppView {
                    state: AppState::DeletingRequest,
                    delete_request_popup: ValidationPopup {
                        state: false,
                    },
                    ..old(self)@
                },
                TreeSelection::Unselected => old(self)@,
            },
    {
        match self.collections_tree.state.selected {
            TreeSelection::Collection(_) => self.delete_collection_state(),
            TreeSelection::Request(_, _) => self.delete_request_state(),
            TreeSelection::Unselected => {},
        }
    }

    /// Starts the renaming of what the cursor stands on.
    pub fn rename_element(&mut self)
        requires
            old(self)@.cursor_is_valid(),
        ensures
            match old(self)@.collections_tree.cursor {
                TreeSelection::Collection(collection) => final(self)@
                    == old(self)@.renaming_collection(collection),
                TreeSelection::Request(_, _) => exists|name: Seq<char>|
                    final(self)@ == old(self)@.renaming_request(name),
                TreeSelection::Unselected => final(self)@ == old(self)@,
            },
    {
        match self.collections_tree.state.selected {
            TreeSelection::Collection(_) => self.rename_collection_state(),
            TreeSelection::Request(_, _) => self.rename_request_state(),
            TreeSelection::Unselected => {},
        }
    }

    /// Creates the collection whose name was typed, empty, to be saved in the
    /// main directory in the preferred format. A blank name, and the name of
    /// a collection that exists, are refused: then nothing changes.
    pub fn new_collection(&mut self) -> (action: FileAction)
        ensures
            final(self)@ == old(self)@.with_new_collection(),
            if old(self)@.new_collection_is_refused() {
                action@ is Nothing
            } else {
                final(self)@.saves(old(self)@.collections.len() as usize, action@)
            },
            names_are_unique(old(self)@.collections) ==> names_are_unique(final(self)@.collections),
            old(self)@.selection_is_valid() ==> final(self)@.selection_is_valid(),
    {
        if blank(self.new_collection_input.text.as_str()) {
            return FileAction::Nothing;
        }
        // Collection names are unique, like the names of their files.
        for index in 0..self.collections.len()
            invariant
                *self == *old(self),
                forall|i: int|
                    0 <= i < index ==> (#[trigger] self@.collections[i]).name
                        != self.new_collection_input.text@,
        {
            if self.new_collection_input.text == self.collections[index].name {
                assert(self@.collections[index as int].name == self.new_collection_input.text@);
                return FileAction::Nothing;
            }
        }

        let file_format = self.config.get_preferred_collection_file_format();
        let file_name = file_name_of_collection(
            self.new_collection_input.text.as_str(),
            file_format,
        );

        let new_collection = Collection {
            name: self.new_collection_input.text.clone(),
            requests: Vec::new(),
            path: join_path(self.args.directory.as_str(), file_name.as_str()),
            file_format,
        };

        self.collections.push(new_collection);
        proof {
            assert(self@.collections =~= old(self)@.collections.push(
                old(self)@.created_collection(),
            ));
        }

        let collection_index = self.collections.len() - 1;

        let action = self.save_collection_to_file(collection_index);
        let ghost saved = self@;
        self.normal_state();
        proof {
            lemma_saves_in_any_state(saved, self@, collection_index, action@);
        }
        action
    }

    /// Creates the request whose name was typed, with the default headers,
    /// at the end of the collection that the popup names. A blank name is
    /// refused: then nothing changes.
    pub fn new_request(&mut self) -> (action: FileAction)
        requires
            !is_blank(old(self)@.new_request_popup.text_input.text)
                ==> old(self)@.new_request_popup.selected_collection < old(self)@.collections.len(),
        ensures
            is_blank(old(self)@.new_request_popup.text_input.text) ==> final(self)@ == old(self)@
                && action@ is Nothing,
            !is_blank(old(self)@.new_request_popup.text_input.text) ==> (exists|
                handle: RequestHandle,
            |
                final(self)@ == old(self)@.with_new_request(handle)) && final(self)@.saves(
                old(self)@.new_request_popup.selected_collection,
                action@,
            ),
            old(self)@.selection_is_valid() ==> final(self)@.selection_is_valid(),
    {
        if blank(self.new_request_popup.text_input.text.as_str()) {
            return FileAction::Nothing;
        }
        let new_request = Request::new(self.new_request_popup.text_input.text.clone());

        let selected_collection = self.new_request_popup.selected_collection;
        let handle = share(new_request);

        self.collections[selected_collection].requests.push(handle);
        proof {
            assert(self@.collections =~= old(self)@.with_new_request(handle).collections);
        }

        let action = self.save_collection_to_file(selected_collection);
        let ghost saved = self@;
        self.normal_state();
        proof {
            lemma_saves_in_any_state(saved, self@, selected_collection, action@);
        }
        action
    }

    /// Deletes the collection on which, or in which, the cursor stands, and
    /// clears the selection. The requests of the collection stay alive for
    /// whoever else still holds them.
    pub fn delete_collection(&mut self) -> (action: FileAction)
        requires
            old(self)@.cursor_is_valid(),
            old(self)@.collections_tree.cursor.collection() is Some,
        ensures
            final(self)@ == old(self)@.without_collection(
                old(self)@.collections_tree.cursor.collection()->0,
            ),
            action@ == old(self)@.delete_action(
                old(self)@.collections[old(self)@.collections_tree.cursor.collection()->0
                    as int].path,
            ),
            names_are_unique(old(self)@.collections) ==> names_are_unique(final(self)@.collections),
            final(self)@.selection_is_valid(),
    {
        let collection_index = match self.collections_tree.state.selected {
            TreeSelection::Collection(collection) => collection,
            TreeSelection::Request(collection, _) => collection,
            TreeSelection::Unselected => {
                return FileAction::Nothing;
            },
        };

        let collection = self.collections.remove(collection_index);
        proof {
            assert(self@.collections =~= old(self)@.collections.remove(collection_index as int));
        }

        self.clear_selection();

        let action = self.delete_collection_file(collection);
        self.normal_state();
        action
    }

    /// Deletes the request under the cursor from its collection, and clears
    /// the selection. The request stays alive for whoever else still holds it.
    pub fn delete_request(&mut self) -> (action: FileAction)
        requires
            old(self)@.cursor_is_valid(),
            old(self)@.collections_tree.cursor is Request,
        ensures
            old(self)@.collections_tree.cursor matches TreeSelection::Request(collection, index)
                && final(self)@ == old(self)@.without_request(collection, index)
                && final(self)@.saves(collection, action@),
            final(self)@.selection_is_valid(),
    {
        if let TreeSelection::Request(collection_index, request_index) =
            self.collections_tree.state.selected {
            self.collections[collection_index].requests.remove(request_index);
            proof {
                assert(self@.collections =~= old(self)@.without_request(
                    collection_index,
                    request_index,
                ).collections);
            }

            self.clear_selection();

            let action = self.save_collection_to_file(collection_index);
            let ghost saved = self@;
            self.normal_state();
            proof {
                lemma_saves_in_any_state(saved, self@, collection_index, action@);
            }
            action
        } else {
            FileAction::Nothing
        }
    }

    /// Gives the collection on which, or in which, the cursor stands the
    /// name that was typed. A blank name, and the name of another collection,
    /// are refused: then nothing changes. The file of the collection stays
    /// where it is.
    pub fn rename_collection(&mut self) -> (action: FileAction)
        requires
            old(self)@.cursor_is_valid(),
            old(self)@.collections_tree.cursor.collection() is Some,
        ensures
            final(self)@ == old(self)@.with_collection_renamed(
                old(self)@.collections_tree.cursor.collection()->0,
            ),
            if old(self)@.rename_collection_is_refused(
                old(self)@.collections_tree.cursor.collection()->0,
            ) {
                action@ is Nothing
            } else {
                final(self)@.saves(old(self)@.collections_tree.cursor.collection()->0, action@)
            },
            names_are_unique(old(self)@.collections) ==> names_are_unique(final(self)@.collections),
            old(self)@.selection_is_valid() ==> final(self)@.selection_is_valid(),
    {
        let collection_index = match self.collections_tree.state.selected {
            TreeSelection::Collection(collection) => collection,
            TreeSelection::Request(collection, _) => collection,
            TreeSelection::Unselected => {
                return FileAction::Nothing;
            },
        };
        if blank(self.rename_collection_input.text.as_str()) {
            return FileAction::Nothing;
        }
        for index in 0..self.collections.len()
            invariant
                *self == *old(self),
                collection_index < self.collections@.len(),
                old(self)@.collections_tree.cursor.collection() == Some(collection_index),
                forall|i: int|
                    0 <= i < index && i != collection_index ==> (
                    #[trigger] self@.collections[i]).name != self.rename_collection_input.text@,
        {
            if index != collection_index && self.rename_collection_input.text
                == self.collections[index].name {
                assert(self@.collections[index as int].name == self.rename_collection_input.text@);
                return FileAction::Nothing;
            }
        }

        self.collections[collection_index].name = self.rename_collection_input.text.clone();
        proof {
            assert(self@.collections =~= old(self)@.with_collection_renamed(
                collection_index,
            ).collections);
        }

        let action = self.save_collection_to_file(collection_index);
        let ghost saved = self@;
        self.normal_state();
        proof {
            lemma_saves_in_any_state(saved, self@, collection_index, action@);
        }
        action
    }

    /// Gives the request under the cursor the name that was typed. A blank
    /// name is refused: then nothing changes.
    pub fn rename_request(&mut self) -> (action: FileAction)
        requires
            old(self)@.cursor_is_valid(),
            old(self)@.collections_tree.cursor is Request,
        ensures
            final(self)@ == if is_blank(old(self)@.rename_request_input.text) {
                old(self)@
            } else {
                old(self)@.in_state(AppState::Normal)
            },
            if is_blank(old(self)@.rename_request_input.text) {
                action@ is Nothing
            } else {
                old(self)@.saves(old(self)@.collections_tree.cursor.collection()->0, action@)
            },
    {
        if blank(self.rename_request_input.text.as_str()) {
            return FileAction::Nothing;
        }
        if let TreeSelection::Request(collection_index, request_index) =
            self.collections_tree.state.selected {
            let local_selected_request = self.get_request_as_local_from_indexes(
                &(collection_index, request_index),
            );
            let new_request_name = self.rename_request_input.text.clone();
            let rename = move |selected_request: &mut Request|
                { selected_request.rename(new_request_name) };
            write_with(&local_selected_request, rename);

            let action = self.save_collection_to_file(collection_index);
            self.normal_state();
            action
        } else {
            FileAction::Nothing
        }
    }

    /// Moves the request under the cursor one place up in its collection,
    /// and the cursor with it. Does nothing on the first request, and where
    /// the cursor stands on no request.
    pub fn move_request_up(&mut self) -> (action: FileAction)
        requires
            old(self)@.cursor_is_valid(),
        ensures
            final(self)@ == old(self)@.after_move_request_up(),
            if old(self)@.can_move_request_up() {
                final(self)@.saves(old(self)@.collections_tree.cursor.collection()->0, action@)
            } else {
                action@ is Nothing
            },
            old(self)@.selection_is_valid() ==> final(self)@.selection_is_valid(),
    {
        if let TreeSelection::Request(collection, index) = self.collections_tree.state.selected {
            // Cannot move further up
            if index == 0 {
                return FileAction::Nothing;
            }
            self.swap_requests(collection, index, index - 1);
            self.save_collection_to_file(collection)
        } else {
            FileAction::Nothing
        }
    }

    /// Moves the request under the cursor one place down in its collection,
    /// and the cursor with it. Does nothing on the last request, and where
    /// the cursor stands on no request.
    pub fn move_request_down(&mut self) -> (action: FileAction)
        requires
            old(self)@.cursor_is_valid(),
        ensures
            final(self)@ == old(self)@.after_move_request_down(),
            if old(self)@.can_move_request_down() {
                final(self)@.saves(old(self)@.collections_tree.cursor.collection()->0, action@)
            } else {
                action@ is Nothing
            },
            old(self)@.selection_is_valid() ==> final(self)@.selection_is_valid(),
    {
        if let TreeSelection::Request(collection, index) = self.collections_tree.state.selected {
            // Cannot move further down
            if index == self.collections[collection].requests.len() - 1 {
                return FileAction::Nothing;
            }
            self.swap_requests(collection, index, index + 1);
            self.save_collection_to_file(collection)
        } else {
            FileAction::Nothing
        }
    }

    /// Takes the request at `from` out of the collection and puts it back in
    /// at `to`, its neighbour; cursor and open request move with it.
    fn swap_requests(&mut self, collection: usize, from: usize, to: usize)
        requires
            collection < old(self)@.collections.len(),
            from < old(self)@.collections[collection as int].requests.len(),
            to < old(self)@.collections[collection as int].requests.len(),
            to + 1 == from || from + 1 == to,
        ensures
            final(self)@ == old(self)@.with_requests_swapped(collection, from, to),
    {
        let request = self.collections[collection].requests.remove(from);
        self.collections[collection].requests.insert(to, request);
        self.collections_tree.state.select(TreeSelection::Request(collection, to));
        self.collections_tree.selected = if self.collections_tree.selected == Some(
            (collection, from),
        ) {
            Some((collection, to))
        } else if self.collections_tree.selected == Some((collection, to)) {
            Some((collection, from))
        } else {
            self.collections_tree.selected
        };
        proof {
            let before = old(self)@.collections[collection as int].requests;
            assert(self@.collections[collection as int].requests =~= swapped(
                before,
                from as int,
                to as int,
            ));
            assert(self@.collections =~= old(self)@.with_requests_swapped(
                collection,
                from,
                to,
            ).collections);
        }
    }
}

} // verus!
