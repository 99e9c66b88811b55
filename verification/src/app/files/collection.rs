//! Where collections are saved, and what has to be done to the files after a
//! change. Nothing here touches a file: each operation names the step that
//! the caller has to carry out.

use crate::app::app::{App, AppView};
use crate::app::files::document::{Document, DocumentView};
use crate::app::files::format::collection::{collection_document, collection_of};
use crate::app::files::format::FormatError;
use crate::request::collection::{
    Collection,
    CollectionFileFormat,
    CollectionView,
    RequestHandle,
};
use crate::request::request::RequestView;
use crate::utils::text::chars_of;
use vstd::prelude::*;
use vstd::string::*;

verus! {

/// A step on the files that the caller has to carry out.
#[derive(Debug, PartialEq, Eq)]
pub enum FileAction {
    /// Nothing is to be done.
    Nothing,
    /// The collection with this index is to be saved: `document` is to be
    /// written to `temp_path` in the syntax of `file_format`; the file is then
    /// to be flushed, closed and renamed to `path`, so that `path` never holds
    /// a half-written collection.
    SaveCollection {
        collection_index: usize,
        temp_path: String,
        path: String,
        file_format: CollectionFileFormat,
        document: Document,
    },
    /// The file at `path` is to be removed.
    DeleteFile { path: String },
}

/// What a [`FileAction`] holds, as plain text.
pub enum FileActionView {
    Nothing,
    SaveCollection {
        collection_index: usize,
        temp_path: Seq<char>,
        path: Seq<char>,
        file_format: CollectionFileFormat,
        document: DocumentView,
    },
    DeleteFile { path: Seq<char> },
}

impl View for FileAction {
    type V = FileActionView;

    open spec fn view(&self) -> FileActionView {
        match self {
            FileAction::Nothing => FileActionView::Nothing,
            FileAction::SaveCollection {
                collection_index,
                temp_path,
                path,
                file_format,
                document,
            } => {
                FileActionView::SaveCollection {
                    collection_index: *collection_index,
                    temp_path: temp_path@,
                    path: path@,
                    file_format: *file_format,
                    document: document@,
                }
            },
            FileAction::DeleteFile { path } => FileActionView::DeleteFile { path: path@ },
        }
    }
}

/// The name of the file of a collection: its name, a dot, and the extension
/// of its format.
pub open spec fn collection_file_name(name: Seq<char>, file_format: CollectionFileFormat) -> Seq<
    char,
> {
    name + "."@ + file_format.extension()
}

/// The path of `file_name` in `directory`: the two with one `/` between them.
/// No `/` is added behind a directory that ends in one, nor before a file
/// name that stands alone.
pub open spec fn path_in_directory(directory: Seq<char>, file_name: Seq<char>) -> Seq<char> {
    if directory.len() == 0 {
        file_name
    } else if directory.last() == '/' {
        directory + file_name
    } else {
        directory + "/"@ + file_name
    }
}

/// The path of the temporary file through which `path` is written: the same
/// path with `_` behind the file name.
pub open spec fn temp_path(path: Seq<char>) -> Seq<char> {
    path + "_"@
}

/// The format of the collection in the file called `file_name`: the format
/// whose extension stands behind a dot at the end of the name, with at least
/// one character before the dot.
pub open spec fn format_of_file_name(file_name: Seq<char>) -> Option<CollectionFileFormat> {
    if has_extension(file_name, CollectionFileFormat::Json.extension()) {
        Some(CollectionFileFormat::Json)
    } else if has_extension(file_name, CollectionFileFormat::Yaml.extension()) {
        Some(CollectionFileFormat::Yaml)
    } else {
        None
    }
}

/// Whether `file_name` is a name, a dot and `extension`.
pub open spec fn has_extension(file_name: Seq<char>, extension: Seq<char>) -> bool {
    let stem = file_name.len() - extension.len() - 1;
    &&& stem > 0
    &&& file_name[stem] == '.'
    &&& file_name.subrange(stem + 1, file_name.len() as int) == extension
}

/// Whether the characters of `file_name` are a name, a dot and `extension`.
fn ends_with_extension(file_name: &Vec<char>, extension: &Vec<char>) -> (found: bool)
    ensures
        found == has_extension(file_name@, extension@),
{
    if file_name.len() < 2 || file_name.len() - 2 < extension.len() {
        return false;
    }
    let stem = file_name.len() - extension.len() - 1;
    if file_name[stem] != '.' {
        return false;
    }
    for index in 0..extension.len()
        invariant
            stem + 1 + extension@.len() == file_name@.len() <= usize::MAX,
            forall|i: int| 0 <= i < index ==> file_name@[stem + 1 + i] == extension@[i],
    {
        if file_name[stem + 1 + index] != extension[index] {
            return false;
        }
    }
    proof {
        assert(file_name@.subrange(stem + 1, file_name@.len() as int) =~= extension@);
    }
    true
}

/// The format of the collection in the file called `file_name`, if its
/// extension is that of a format.
pub fn format_of_file(file_name: &str) -> (file_format: Option<CollectionFileFormat>)
    ensures
        file_format == format_of_file_name(file_name@),
{
    let name = chars_of(file_name);
    if ends_with_extension(&name, &chars_of(CollectionFileFormat::Json.to_string().as_str())) {
        Some(CollectionFileFormat::Json)
    } else if ends_with_extension(
        &name,
        &chars_of(CollectionFileFormat::Yaml.to_string().as_str()),
    ) {
        Some(CollectionFileFormat::Yaml)
    } else {
        None
    }
}

/// The name of the file of a collection.
pub fn file_name_of_collection(name: &str, file_format: CollectionFileFormat) -> (file_name: String)
    ensures
        file_name@ == collection_file_name(name@, file_format),
{
    let mut file_name = name.to_string();
    file_name.append(".");
    file_name.append(file_format.to_string().as_str());
    file_name
}

/// The path of `file_name` in `directory`.
pub fn join_path(directory: &str, file_name: &str) -> (path: String)
    ensures
        path@ == path_in_directory(directory@, file_name@),
{
    let length = directory.unicode_len();
    let mut path = directory.to_string();
    if length > 0 && directory.get_char(length - 1) != '/' {
        path.append("/");
    }
    path.append(file_name);
    path
}

impl AppView {
    /// What has to be done to save the collection with index
    /// `collection_index`, whose requests hold `requests`: nothing where
    /// changes are not saved.
    pub open spec fn save_action(
        self,
        collection_index: usize,
        requests: Seq<RequestView>,
    ) -> FileActionView {
        if self.args.should_save {
            let collection = self.collections[collection_index as int];
            FileActionView::SaveCollection {
                collection_index: collection_index,
                temp_path: temp_path(collection.path),
                path: collection.path,
                file_format: collection.file_format,
                document: collection_document(collection.name, requests, collection.file_format),
            }
        } else {
            FileActionView::Nothing
        }
    }

    /// Whether `action` is what has to be done to save the collection with
    /// index `collection_index`, for some values that its requests hold, one
    /// for each of them.
    pub open spec fn saves(self, collection_index: usize, action: FileActionView) -> bool {
        exists|requests: Seq<RequestView>|
            requests.len() == self.collections[collection_index as int].requests.len()
                && action == #[trigger] self.save_action(collection_index, requests)
    }

    /// What has to be done to delete the file of a collection saved at
    /// `path`: nothing where changes are not saved.
    pub open spec fn delete_action(self, path: Seq<char>) -> FileActionView {
        if self.args.should_save {
            FileActionView::DeleteFile { path: path }
        } else {
            FileActionView::Nothing
        }
    }

    /// The state after a collection called `name`, with `requests`, was
    /// loaded from the file at `path` in `file_format`.
    pub open spec fn with_loaded_collection(
        self,
        name: Seq<char>,
        requests: Seq<RequestHandle>,
        path: Seq<char>,
        file_format: CollectionFileFormat,
    ) -> AppView {
        AppView {
            collections: self.collections.push(
                CollectionView {
                    name: name,
                    requests: requests,
                    path: path,
                    file_format: file_format,
                },
            ),
            ..self
        }
    }
}

/// What has to be done to save a collection depends on the collections and
/// on whether changes are saved, and on nothing else of the state.
pub proof fn lemma_saves_in_any_state(
    before: AppView,
    after: AppView,
    collection_index: usize,
    action: FileActionView,
)
    requires
        before.saves(collection_index, action),
        before.args == after.args,
        before.collections == after.collections,
    ensures
        after.saves(collection_index, action),
{
    let requests = choose|requests: Seq<RequestView>|
        requests.len() == before.collections[collection_index as int].requests.len() && action
            == #[trigger] before.save_action(collection_index, requests);
    assert(action == after.save_action(collection_index, requests));
}

impl App {
    /// Adds the collection that `document` stands for. `document` is what the
    /// file at `path_buf` holds, read in the syntax of `file_format`: place
    /// and format of the file are those of the collection from now on.
    /// Changes nothing where `document` stands for no collection.
    pub fn set_collections_from_file(
        &mut self,
        path_buf: String,
        file_format: CollectionFileFormat,
        document: &Document,
    ) -> (loaded: Result<(), FormatError>)
        ensures
            match collection_of(document@) {
                Ok((name, requests)) => loaded is Ok && exists|handles: Seq<RequestHandle>|
                    handles.len() == requests.len() && final(self)@
                        == #[trigger] old(self)@.with_loaded_collection(
                        name,
                        handles,
                        path_buf@,
                        file_format,
                    ),
                Err(error) => loaded matches Err(found) && found@ == error && final(self)@ == old(
                    self,
                )@,
            },
            old(self)@.selection_is_valid() ==> final(self)@.selection_is_valid(),
    {
        let mut collection = Collection::from_document(document)?;
        collection.path = path_buf;
        collection.file_format = file_format;
        let ghost loaded = collection@;
        self.collections.push(collection);
        proof {
            assert(self@.collections =~= old(self)@.collections.push(loaded));
            assert(self@ == old(self)@.with_loaded_collection(
                loaded.name,
                loaded.requests,
                path_buf@,
                file_format,
            ));
        }
        Ok(())
    }

    /// What has to be done to save the collection with index
    /// `collection_index`, with its requests as they are at this moment: it
    /// is written to a temporary file beside its own, which then takes the
    /// place of its own. Nothing where changes are not saved.
    pub fn save_collection_to_file(&self, collection_index: usize) -> (action: FileAction)
        requires
            collection_index < self@.collections.len(),
        ensures
            self@.saves(collection_index, action@),
    {
        let collection = &self.collections[collection_index];
        if !self.args.should_save {
            proof {
                let requests = Seq::new(
                    collection@.requests.len(),
                    |i: int| RequestView::empty(),
                );
                assert(self@.save_action(collection_index, requests) is Nothing);
            }
            return FileAction::Nothing;
        }
        let mut temp_path = collection.path.clone();
        temp_path.append("_");
        let document = collection.to_document();
        let action = FileAction::SaveCollection {
            collection_index,
            temp_path,
            path: collection.path.clone(),
            file_format: collection.file_format,
            document,
        };
        proof {
            let requests = choose|requests: Seq<RequestView>|
                requests.len() == collection@.requests.len() && document@ == collection_document(
                    collection@.name,
                    requests,
                    collection@.file_format,
                );
            assert(action@ == self@.save_action(collection_index, requests));
        }
        action
    }

    /// What has to be done to delete the file of `collection`. Nothing where
    /// changes are not saved.
    pub fn delete_collection_file(&self, collection: Collection) -> (action: FileAction)
        ensures
            action@ == self@.delete_action(collection@.path),
    {
        if !self.args.should_save {
            return FileAction::Nothing;
        }
        FileAction::DeleteFile { path: collection.path }
    }
}

} // verus!
