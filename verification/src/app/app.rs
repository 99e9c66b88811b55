//! The state of the application: what is loaded, what is selected, and what
//! the inputs on screen hold.

use crate::app::app_states::AppState;
use crate::app::files::config::{Config, ConfigView};
use crate::app::startup::args::ParsedArgs;
use crate::app::ui::param_tabs::RequestParamsTabs;
use crate::app::ui::result_tabs::RequestResultTabs;
use crate::request::collection::{
    collections_view,
    Collection,
    CollectionView,
    RequestHandle,
};
use crate::request::environment::Environment;
use crate::utils::choice_popup::{
    ChoicePopup,
    NewRequestPopup,
    NewRequestPopupView,
    ValidationPopup,
};
use crate::utils::help_popup::HelpPopup;
use crate::utils::script_console::ScriptConsole;
use crate::utils::stateful_custom_table::{StatefulCustomTable, StatefulCustomTableView};
use crate::utils::stateful_tree::{StatefulTree, StatefulTreeView, TreeSelection};
use crate::utils::text_input::{TextInput, TextInputView};
use crate::utils::text_input_selection::TextInputSelection;
use parking_lot::RwLock;
use std::sync::Arc;
use vstd::prelude::*;

verus! {

#[derive(Debug)]
pub struct App {
    pub state: AppState,
    /// What the application was started with: the main directory, and
    /// whether changes are written to the files.
    pub args: ParsedArgs,
    pub config: Config,
    pub collections: Vec<Collection>,
    pub collections_tree: StatefulTree,
    pub environments: Vec<Arc<RwLock<Environment>>>,
    /// The index of the environment in use.
    pub selected_environment: usize,
    pub creation_popup: ChoicePopup,
    pub new_collection_input: TextInput,
    pub rename_collection_input: TextInput,
    pub new_request_popup: NewRequestPopup,
    pub rename_request_input: TextInput,
    pub delete_collection_popup: ValidationPopup,
    pub delete_request_popup: ValidationPopup,
    pub help_popup: HelpPopup,
    pub request_param_tab: RequestParamsTabs,
    pub request_result_tab: RequestResultTabs,
    pub url_text_input: TextInput,
    pub query_params_table: StatefulCustomTable,
    pub auth_text_input_selection: TextInputSelection,
    pub auth_basic_username_text_input: TextInput,
    pub auth_basic_password_text_input: TextInput,
    pub auth_bearer_token_text_input: TextInput,
    pub headers_table: StatefulCustomTable,
    pub body_form_table: StatefulCustomTable,
    pub body_file_text_input: TextInput,
    pub body_text_area: String,
    pub pre_request_script_text_area: String,
    pub post_request_script_text_area: String,
    pub script_console: ScriptConsole,
}

/// What an [`App`] holds: texts as plain text, requests and environments as
/// the shared values that they are.
pub struct AppView {
    pub state: AppState,
    pub args: ParsedArgs,
    pub config: ConfigView,
    pub collections: Seq<CollectionView>,
    pub collections_tree: StatefulTreeView,
    pub environments: Seq<Arc<RwLock<Environment>>>,
    pub selected_environment: usize,
    pub creation_popup: ChoicePopup,
    pub new_collection_input: TextInputView,
    pub rename_collection_input: TextInputView,
    pub new_request_popup: NewRequestPopupView,
    pub rename_request_input: TextInputView,
    pub delete_collection_popup: ValidationPopup,
    pub delete_request_popup: ValidationPopup,
    pub help_popup: HelpPopup,
    pub request_param_tab: RequestParamsTabs,
    pub request_result_tab: RequestResultTabs,
    pub url_text_input: TextInputView,
    pub query_params_table: StatefulCustomTableView,
    pub auth_text_input_selection: TextInputSelection,
    pub auth_basic_username_text_input: TextInputView,
    pub auth_basic_password_text_input: TextInputView,
    pub auth_bearer_token_text_input: TextInputView,
    pub headers_table: StatefulCustomTableView,
    pub body_form_table: StatefulCustomTableView,
    pub body_file_text_input: TextInputView,
    pub body_text_area: Seq<char>,
    pub pre_request_script_text_area: Seq<char>,
    pub post_request_script_text_area: Seq<char>,
    pub script_console: ScriptConsole,
}

impl View for App {
    type V = AppView;

    open spec fn view(&self) -> AppView {
        AppView {
            state: self.state,
            args: self.args,
            config: self.config@,
            collections: collections_view(self.collections@),
            collections_tree: self.collections_tree@,
            environments: self.environments@,
            selected_environment: self.selected_environment,
            creation_popup: self.creation_popup,
            new_collection_input: self.new_collection_input@,
            rename_collection_input: self.rename_collection_input@,
            new_request_popup: self.new_request_popup@,
            rename_request_input: self.rename_request_input@,
            delete_collection_popup: self.delete_collection_popup,
            delete_request_popup: self.delete_request_popup,
            help_popup: self.help_popup,
            request_param_tab: self.request_param_tab,
            request_result_tab: self.request_result_tab,
            url_text_input: self.url_text_input@,
            query_params_table: self.query_params_table@,
            auth_text_input_selection: self.auth_text_input_selection,
            auth_basic_username_text_input: self.auth_basic_username_text_input@,
            auth_basic_password_text_input: self.auth_basic_password_text_input@,
            auth_bearer_token_text_input: self.auth_bearer_token_text_input@,
            headers_table: self.headers_table@,
            body_form_table: self.body_form_table@,
            body_file_text_input: self.body_file_text_input@,
            body_text_area: self.body_text_area@,
            pre_request_script_text_area: self.pre_request_script_text_area@,
            post_request_script_text_area: self.post_request_script_text_area@,
            script_console: self.script_console,
        }
    }
}

/// Whether `selection` stands on a collection or a request that exists.
pub open spec fn cursor_in_range(
    collections: Seq<CollectionView>,
    selection: TreeSelection,
) -> bool {
    match selection {
        TreeSelection::Unselected => true,
        TreeSelection::Collection(collection) => collection < collections.len(),
        TreeSelection::Request(collection, request) => collection < collections.len() && request
            < collections[collection as int].requests.len(),
    }
}

/// Whether no two collections have the same name.
pub open spec fn names_are_unique(collections: Seq<CollectionView>) -> bool {
    forall|i: int, j: int|
        0 <= i < j < collections.len() ==> (#[trigger] collections[i]).name != (
        #[trigger] collections[j]).name
}

impl AppView {
    /// The cursor of the tree stands on a collection or a request that exists.
    pub open spec fn cursor_is_valid(self) -> bool {
        cursor_in_range(self.collections, self.collections_tree.cursor)
    }

    /// The collections, and the requests of each, are no more than memory
    /// can hold. This is so of the view of every `App`.
    pub open spec fn fits_in_memory(self) -> bool {
        &&& self.collections.len() <= usize::MAX
        &&& forall|i: int|
            0 <= i < self.collections.len() ==> (#[trigger] self.collections[i]).requests.len()
                <= usize::MAX
    }

    /// Whether the collection with index `collection` exists and has a
    /// request at `index`.
    pub open spec fn has_request(self, collection: usize, index: usize) -> bool {
        collection < self.collections.len() && index
            < self.collections[collection as int].requests.len()
    }

    /// The request at `index` of the collection with index `collection`, as
    /// the shared value that it is.
    pub open spec fn request_at(self, collection: usize, index: usize) -> RequestHandle {
        self.collections[collection as int].requests[index as int]
    }

    /// A request is open, and it exists.
    pub open spec fn request_is_open(self) -> bool {
        match self.collections_tree.selected {
            Some((collection, request)) => self.has_request(collection, request),
            None => false,
        }
    }

    /// The selection points at what exists: the cursor of the tree stands on a
    /// collection or a request that exists, or nowhere, and so does the
    /// request that is open, if one is.
    pub open spec fn selection_is_valid(self) -> bool {
        self.cursor_is_valid() && (self.collections_tree.selected is Some
            ==> self.request_is_open())
    }

    /// The cursor of every input of a request stands inside its text.
    pub open spec fn inputs_are_wf(self) -> bool {
        &&& self.url_text_input.wf()
        &&& self.query_params_table.selection_text_input.wf()
        &&& self.auth_basic_username_text_input.wf()
        &&& self.auth_basic_password_text_input.wf()
        &&& self.auth_bearer_token_text_input.wf()
        &&& self.headers_table.selection_text_input.wf()
        &&& self.body_form_table.selection_text_input.wf()
        &&& self.body_file_text_input.wf()
    }

    /// The state after start-up, before anything is loaded.
    pub open spec fn initial(
        args: ParsedArgs,
        config: ConfigView,
        script_console: ScriptConsole,
    ) -> AppView {
        AppView {
            state: AppState::Normal,
            args: args,
            config: config,
            collections: Seq::empty(),
            collections_tree: StatefulTreeView {
                cursor: TreeSelection::Unselected,
                opened: Seq::empty(),
                selected: None,
            },
            environments: Seq::empty(),
            selected_environment: 0,
            creation_popup: ChoicePopup { selection: 0 },
            new_collection_input: TextInputView::empty(),
            rename_collection_input: TextInputView::empty(),
            new_request_popup: NewRequestPopupView {
                selected_collection: 0,
                max_selection: 0,
                text_input: TextInputView::empty(),
            },
            rename_request_input: TextInputView::empty(),
            delete_collection_popup: ValidationPopup { state: false },
            delete_request_popup: ValidationPopup { state: false },
            help_popup: HelpPopup { selection: AppState::Normal },
            request_param_tab: RequestParamsTabs::QueryParams,
            request_result_tab: RequestResultTabs::Body,
            url_text_input: TextInputView::empty(),
            query_params_table: StatefulCustomTableView {
                rows: Seq::empty(),
                selection: None,
                selection_text_input: TextInputView::empty(),
            },
            auth_text_input_selection: TextInputSelection {
                selected: 0,
                max_selection: 0,
                usable: false,
            },
            auth_basic_username_text_input: TextInputView::empty(),
            auth_basic_password_text_input: TextInputView::empty(),
            auth_bearer_token_text_input: TextInputView::empty(),
            headers_table: StatefulCustomTableView {
                rows: Seq::empty(),
                selection: None,
                selection_text_input: TextInputView::empty(),
            },
            body_form_table: StatefulCustomTableView {
                rows: Seq::empty(),
                selection: None,
                selection_text_input: TextInputView::empty(),
            },
            body_file_text_input: TextInputView::empty(),
            body_text_area: Seq::empty(),
            pre_request_script_text_area: Seq::empty(),
            post_request_script_text_area: Seq::empty(),
            script_console: script_console,
        }
    }
}

impl App {
    /// Whether the cursor of the tree stands on a collection or a request
    /// that exists, or nowhere.
    pub fn cursor_is_valid(&self) -> (valid: bool)
        ensures
            valid == self@.cursor_is_valid(),
    {
        match self.collections_tree.state.selected {
            TreeSelection::Unselected => true,
            TreeSelection::Collection(collection) => collection < self.collections.len(),
            TreeSelection::Request(collection, request) => collection < self.collections.len()
                && request < self.collections[collection].requests.len(),
        }
    }

    /// Whether a request is open, and it exists.
    pub fn request_is_open(&self) -> (open: bool)
        ensures
            open == self@.request_is_open(),
    {
        match self.collections_tree.selected {
            Some((collection, request)) => collection < self.collections.len() && request
                < self.collections[collection].requests.len(),
            None => false,
        }
    }

    /// The application after start-up: nothing loaded, nothing selected,
    /// every input empty.
    pub fn new(args: ParsedArgs, config: Config) -> (app: App)
        ensures
            app@ == AppView::initial(args, config@, app.script_console),
    {
        let app = App {
            state: AppState::Normal,
            args,
            config,
            collections: Vec::new(),
            collections_tree: StatefulTree::default(),
            environments: Vec::new(),
            selected_environment: 0,
            creation_popup: ChoicePopup::default(),
            new_collection_input: TextInput::default(),
            rename_collection_input: TextInput::default(),
            new_request_popup: NewRequestPopup::default(),
            rename_request_input: TextInput::default(),
            delete_collection_popup: ValidationPopup::default(),
            delete_request_popup: ValidationPopup::default(),
            help_popup: HelpPopup::default(),
            request_param_tab: RequestParamsTabs::default(),
            request_result_tab: RequestResultTabs::default(),
            url_text_input: TextInput::default(),
            query_params_table: StatefulCustomTable::default(),
            auth_text_input_selection: TextInputSelection::default(),
            auth_basic_username_text_input: TextInput::default(),
            auth_basic_password_text_input: TextInput::default(),
            auth_bearer_token_text_input: TextInput::default(),
            headers_table: StatefulCustomTable::default(),
            body_form_table: StatefulCustomTable::default(),
            body_file_text_input: TextInput::default(),
            body_text_area: String::new(),
            pre_request_script_text_area: String::new(),
            post_request_script_text_area: String::new(),
            script_console: ScriptConsole::default(),
        };
        assert(app@.collections =~= Seq::empty());
        app
    }
}

} // verus!
