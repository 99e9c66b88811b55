use atac::app::app::App;
use atac::app::app_states::AppState;
use atac::app::files::collection::{
    file_name_of_collection, format_of_file, join_path, FileAction,
};
use atac::app::files::config::Config;
use atac::app::files::document::Document;
use atac::app::files::format::collection::collection_from_document;
use atac::app::files::format::FormatError;
use atac::app::startup::args::ParsedArgs;
use atac::app::ui::param_tabs::RequestParamsTabs;
use atac::request::auth::Auth;
use atac::request::body::ContentType;
use atac::request::collection::CollectionFileFormat;
use atac::request::key_value::KeyValue;
use atac::request::request::{default_headers, Request};
use atac::utils::stateful_tree::TreeSelection;
use std::sync::Arc;

fn app_in(directory: &str, should_save: bool) -> App {
    let args = ParsedArgs {
        directory: directory.to_string(),
        is_directory_from_env: false,
        command: None,
        should_save,
    };
    App::new(args, Config::default())
}

fn app() -> App {
    app_in("/data", true)
}

fn add_collection(app: &mut App, name: &str) -> FileAction {
    app.new_collection_input.text = name.to_string();
    app.new_collection()
}

fn add_request(app: &mut App, collection: usize, name: &str) -> FileAction {
    app.new_request_popup.selected_collection = collection;
    app.new_request_popup.text_input.text = name.to_string();
    app.new_request()
}

fn names(app: &App) -> Vec<String> {
    app.collections.iter().map(|collection| collection.name.clone()).collect()
}

fn request_names(app: &App, collection: usize) -> Vec<String> {
    app.collections[collection].requests.iter().map(|request| request.read().name.clone()).collect()
}

fn app_with_requests(requests: &[&str]) -> App {
    let mut app = app();
    add_collection(&mut app, "Demo");
    for name in requests {
        add_request(&mut app, 0, name);
    }
    app
}

fn row(key: &str, value: &str, enabled: bool) -> KeyValue {
    KeyValue { data: (key.to_string(), value.to_string()), enabled }
}

fn text(value: &str) -> Document {
    Document::Text(value.to_string())
}

fn record(fields: Vec<(&str, Document)>) -> Document {
    Document::Record(fields.into_iter().map(|(name, value)| (name.to_string(), value)).collect())
}

/// Checks that `action` saves the collection with index `index` at `path`
/// through the temporary file beside it, and gives the document to write.
fn saved(action: FileAction, index: usize, path: &str, format: CollectionFileFormat) -> Document {
    match action {
        FileAction::SaveCollection { collection_index, temp_path, path: to, file_format, document } => {
            assert_eq!(collection_index, index);
            assert_eq!(to, path);
            assert_eq!(temp_path, format!("{path}_"));
            assert_eq!(file_format, format);
            document
        }
        other => panic!("{other:?}"),
    }
}

/// The names of the requests that `document`, a collection, holds.
fn saved_names(document: &Document) -> Vec<String> {
    let (_, requests) = collection_from_document(document).unwrap();
    requests.into_iter().map(|request| request.name).collect()
}

#[test]
fn a_new_app_is_empty() {
    let app = app();
    assert_eq!(app.state, AppState::Normal);
    assert!(app.collections.is_empty());
    assert!(app.environments.is_empty());
    assert_eq!(app.collections_tree.state.selected, TreeSelection::Unselected);
    assert_eq!(app.collections_tree.selected, None);
    assert_eq!(app.url_text_input.text, "");
    assert_eq!(app.query_params_table.selection, None);
    assert!(app.script_console.console_output.read().is_none());
}

#[test]
fn new_collection_creates_an_empty_collection_in_the_main_directory() {
    let mut app = app();
    app.state = AppState::CreatingNewCollection;
    let action = add_collection(&mut app, "Demo");
    assert_eq!(app.collections.len(), 1);
    assert_eq!(app.collections[0].name, "Demo");
    assert!(app.collections[0].requests.is_empty());
    assert_eq!(app.collections[0].path, "/data/Demo.json");
    assert_eq!(app.collections[0].file_format, CollectionFileFormat::Json);
    assert_eq!(app.state, AppState::Normal);
    let document = saved(action, 0, "/data/Demo.json", CollectionFileFormat::Json);
    assert_eq!(
        document,
        record(vec![("name", text("Demo")), ("requests", Document::List(vec![]))])
    );
}

#[test]
fn new_collection_uses_the_preferred_format() {
    let mut app = app();
    app.config.preferred_collection_file_format = Some(CollectionFileFormat::Yaml);
    let action = add_collection(&mut app, "Demo");
    assert_eq!(app.collections[0].path, "/data/Demo.yaml");
    assert_eq!(app.collections[0].file_format, CollectionFileFormat::Yaml);
    saved(action, 0, "/data/Demo.yaml", CollectionFileFormat::Yaml);
}

#[test]
fn new_collection_refuses_blank_names() {
    for name in ["", " ", "\t\n ", "\u{a0}\u{2003}"] {
        let mut app = app();
        app.state = AppState::CreatingNewCollection;
        let action = add_collection(&mut app, name);
        assert_eq!(action, FileAction::Nothing);
        assert!(app.collections.is_empty());
        assert_eq!(app.state, AppState::CreatingNewCollection);
        assert_eq!(app.new_collection_input.text, name);
    }
}

#[test]
fn new_collection_refuses_the_name_of_a_collection_that_exists() {
    let mut app = app();
    add_collection(&mut app, "Demo");
    add_collection(&mut app, "Other");
    add_request(&mut app, 0, "Ping");
    app.state = AppState::CreatingNewCollection;
    let action = add_collection(&mut app, "Demo");
    assert_eq!(action, FileAction::Nothing);
    assert_eq!(names(&app), vec!["Demo", "Other"]);
    assert_eq!(request_names(&app, 0), vec!["Ping"]);
    assert_eq!(app.state, AppState::CreatingNewCollection);
}

#[test]
fn new_collection_compares_names_exactly() {
    let mut app = app();
    add_collection(&mut app, "Demo");
    assert_ne!(add_collection(&mut app, "demo"), FileAction::Nothing);
    assert_ne!(add_collection(&mut app, "Demo "), FileAction::Nothing);
    assert_eq!(names(&app), vec!["Demo", "demo", "Demo "]);
}

#[test]
fn new_collection_without_saving_changes_memory_only() {
    let mut app = app_in("/data", false);
    let action = add_collection(&mut app, "Demo");
    assert_eq!(action, FileAction::Nothing);
    assert_eq!(names(&app), vec!["Demo"]);
    assert_eq!(app.state, AppState::Normal);
}

#[test]
fn paths_in_the_main_directory() {
    assert_eq!(join_path("/data", "Demo.json"), "/data/Demo.json");
    assert_eq!(join_path("/data/", "Demo.json"), "/data/Demo.json");
    assert_eq!(join_path("/", "Demo.json"), "/Demo.json");
    assert_eq!(join_path("", "Demo.json"), "Demo.json");
    assert_eq!(join_path("rel/dir", "a b.yaml"), "rel/dir/a b.yaml");
    assert_eq!(file_name_of_collection("Demo", CollectionFileFormat::Json), "Demo.json");
    assert_eq!(file_name_of_collection("Demo", CollectionFileFormat::Yaml), "Demo.yaml");
    assert_eq!(file_name_of_collection("", CollectionFileFormat::Json), ".json");
}

#[test]
fn the_format_of_a_file_is_told_by_its_extension() {
    assert_eq!(format_of_file("Demo.json"), Some(CollectionFileFormat::Json));
    assert_eq!(format_of_file("Demo.yaml"), Some(CollectionFileFormat::Yaml));
    assert_eq!(format_of_file("a.b.json"), Some(CollectionFileFormat::Json));
    assert_eq!(format_of_file("é.yaml"), Some(CollectionFileFormat::Yaml));
    for name in
        ["", "json", ".json", ".yaml", "Demo.json_", "Demo.JSON", "Demo.yml", "Demo.", "atac.toml", "Demojson"]
    {
        assert_eq!(format_of_file(name), None, "{name}");
    }
    for format in [CollectionFileFormat::Json, CollectionFileFormat::Yaml] {
        assert_eq!(format_of_file(&file_name_of_collection("Demo", format)), Some(format));
    }
}

#[test]
fn collection_file_format_names() {
    assert_eq!(CollectionFileFormat::Json.to_string(), "json");
    assert_eq!(CollectionFileFormat::Yaml.to_string(), "yaml");
    assert_eq!(CollectionFileFormat::default(), CollectionFileFormat::Json);
}

#[test]
fn new_request_goes_to_the_end_of_the_chosen_collection() {
    let mut app = app();
    add_collection(&mut app, "Demo");
    add_collection(&mut app, "Other");
    app.state = AppState::CreatingNewRequest;
    let action = add_request(&mut app, 1, "Ping");
    saved(action, 1, "/data/Other.json", CollectionFileFormat::Json);
    assert_eq!(app.state, AppState::Normal);
    assert!(app.collections[0].requests.is_empty());
    assert_eq!(app.collections[1].requests.len(), 1);
    let request = app.collections[1].requests[0].read();
    assert_eq!(*request, Request::new("Ping".to_string()));
    assert_eq!(request.headers, default_headers());
    assert!(request.headers.iter().all(|header| header.enabled));
    drop(request);
    add_request(&mut app, 1, "Pong");
    assert_eq!(request_names(&app, 1), vec!["Ping", "Pong"]);
}

#[test]
fn new_request_refuses_blank_names() {
    for name in ["", "   ", "\n"] {
        let mut app = app();
        add_collection(&mut app, "Demo");
        app.state = AppState::CreatingNewRequest;
        let action = add_request(&mut app, 0, name);
        assert_eq!(action, FileAction::Nothing);
        assert!(app.collections[0].requests.is_empty());
        assert_eq!(app.state, AppState::CreatingNewRequest);
    }
}

#[test]
fn new_request_with_a_blank_name_needs_no_collection() {
    let mut app = app();
    assert_eq!(add_request(&mut app, 7, " "), FileAction::Nothing);
    assert!(app.collections.is_empty());
}

#[test]
fn new_requests_may_share_a_name() {
    let app = app_with_requests(&["Ping", "Ping"]);
    assert_eq!(request_names(&app, 0), vec!["Ping", "Ping"]);
    assert!(!Arc::ptr_eq(&app.collections[0].requests[0], &app.collections[0].requests[1]));
}

#[test]
fn new_element_starts_the_chosen_creation() {
    let mut app = app();
    app.creation_popup.selection = 0;
    app.new_element();
    assert_eq!(app.state, AppState::CreatingNewCollection);

    let mut app = app_with_requests(&[]);
    add_collection(&mut app, "Other");
    app.creation_popup.selection = 1;
    app.new_request_popup.selected_collection = 7;
    app.new_element();
    assert_eq!(app.state, AppState::CreatingNewRequest);
    assert_eq!(app.new_request_popup.max_selection, 2);
    assert_eq!(app.new_request_popup.selected_collection, 0);

    app.collections_tree.state.selected = TreeSelection::Request(1, 0);
    app.new_element();
    assert_eq!(app.new_request_popup.selected_collection, 1);
    app.collections_tree.state.selected = TreeSelection::Collection(2);
    app.new_element();
    assert_eq!(app.new_request_popup.selected_collection, 0);

    let mut app = app_with_requests(&[]);
    app.creation_popup.selection = 2;
    app.new_element();
    assert_eq!(app.state, AppState::Normal);
}

#[test]
fn a_request_cannot_be_created_without_a_collection() {
    let mut app = app();
    app.creation_popup.selection = 1;
    app.new_element();
    assert_eq!(app.state, AppState::Normal);
    assert_eq!(app.new_request_popup.max_selection, 0);
}

#[test]
fn move_request_up_swaps_with_the_request_before() {
    let mut app = app_with_requests(&["a", "b", "c"]);
    let handles = app.collections[0].requests.clone();
    app.collections_tree.state.selected = TreeSelection::Request(0, 2);
    let action = app.move_request_up();
    assert_eq!(request_names(&app, 0), vec!["a", "c", "b"]);
    assert_eq!(app.collections_tree.state.selected, TreeSelection::Request(0, 1));
    let document = saved(action, 0, "/data/Demo.json", CollectionFileFormat::Json);
    assert_eq!(saved_names(&document), vec!["a", "c", "b"]);
    assert!(Arc::ptr_eq(&app.collections[0].requests[1], &handles[2]));
    assert!(Arc::ptr_eq(&app.collections[0].requests[2], &handles[1]));
    assert!(Arc::ptr_eq(&app.collections[0].requests[0], &handles[0]));
}

#[test]
fn move_request_down_swaps_with_the_request_after() {
    let mut app = app_with_requests(&["a", "b", "c"]);
    app.collections_tree.state.selected = TreeSelection::Request(0, 0);
    let action = app.move_request_down();
    assert_eq!(request_names(&app, 0), vec!["b", "a", "c"]);
    assert_eq!(app.collections_tree.state.selected, TreeSelection::Request(0, 1));
    saved(action, 0, "/data/Demo.json", CollectionFileFormat::Json);
}

#[test]
fn moving_the_first_request_up_changes_nothing() {
    let mut app = app_with_requests(&["a", "b"]);
    app.collections_tree.state.selected = TreeSelection::Request(0, 0);
    let action = app.move_request_up();
    assert_eq!(action, FileAction::Nothing);
    assert_eq!(request_names(&app, 0), vec!["a", "b"]);
    assert_eq!(app.collections_tree.state.selected, TreeSelection::Request(0, 0));
}

#[test]
fn moving_the_last_request_down_changes_nothing() {
    let mut app = app_with_requests(&["a", "b"]);
    app.collections_tree.state.selected = TreeSelection::Request(0, 1);
    let action = app.move_request_down();
    assert_eq!(action, FileAction::Nothing);
    assert_eq!(request_names(&app, 0), vec!["a", "b"]);
    assert_eq!(app.collections_tree.state.selected, TreeSelection::Request(0, 1));
}

#[test]
fn moving_the_only_request_changes_nothing() {
    let mut app = app_with_requests(&["a"]);
    app.collections_tree.state.selected = TreeSelection::Request(0, 0);
    assert_eq!(app.move_request_up(), FileAction::Nothing);
    assert_eq!(app.move_request_down(), FileAction::Nothing);
    assert_eq!(request_names(&app, 0), vec!["a"]);
    assert_eq!(app.collections_tree.state.selected, TreeSelection::Request(0, 0));
}

#[test]
fn moving_needs_the_cursor_on_a_request() {
    let mut app = app_with_requests(&["a", "b"]);
    app.collections_tree.state.selected = TreeSelection::Collection(0);
    assert_eq!(app.move_request_up(), FileAction::Nothing);
    assert_eq!(app.move_request_down(), FileAction::Nothing);
    app.collections_tree.state.selected = TreeSelection::Unselected;
    assert_eq!(app.move_request_up(), FileAction::Nothing);
    assert_eq!(app.move_request_down(), FileAction::Nothing);
    assert_eq!(request_names(&app, 0), vec!["a", "b"]);
}

#[test]
fn moving_up_and_down_again_restores_the_order() {
    let mut app = app_with_requests(&["a", "b", "c", "d"]);
    app.collections_tree.state.selected = TreeSelection::Request(0, 2);
    app.collections_tree.selected = Some((0, 2));
    app.move_request_up();
    assert_eq!(app.collections_tree.selected, Some((0, 1)));
    app.move_request_down();
    assert_eq!(request_names(&app, 0), vec!["a", "b", "c", "d"]);
    assert_eq!(app.collections_tree.state.selected, TreeSelection::Request(0, 2));
    assert_eq!(app.collections_tree.selected, Some((0, 2)));
    app.move_request_down();
    app.move_request_up();
    assert_eq!(request_names(&app, 0), vec!["a", "b", "c", "d"]);
    assert_eq!(app.collections_tree.state.selected, TreeSelection::Request(0, 2));
    assert_eq!(app.collections_tree.selected, Some((0, 2)));
}

#[test]
fn moving_a_request_takes_the_open_neighbour_the_other_way() {
    let mut app = app_with_requests(&["a", "b", "c"]);
    app.collections_tree.state.selected = TreeSelection::Request(0, 1);
    app.collections_tree.selected = Some((0, 0));
    app.move_request_up();
    assert_eq!(request_names(&app, 0), vec!["b", "a", "c"]);
    assert_eq!(app.collections_tree.selected, Some((0, 1)));
    app.collections_tree.selected = Some((0, 2));
    app.collections_tree.state.selected = TreeSelection::Request(0, 0);
    app.move_request_down();
    assert_eq!(app.collections_tree.selected, Some((0, 2)));
}

#[test]
fn moving_touches_one_collection_only() {
    let mut app = app_with_requests(&["a", "b"]);
    add_collection(&mut app, "Other");
    add_request(&mut app, 1, "x");
    add_request(&mut app, 1, "y");
    app.collections_tree.state.selected = TreeSelection::Request(1, 1);
    app.collections_tree.selected = Some((0, 1));
    let action = app.move_request_up();
    saved(action, 1, "/data/Other.json", CollectionFileFormat::Json);
    assert_eq!(request_names(&app, 0), vec!["a", "b"]);
    assert_eq!(request_names(&app, 1), vec!["y", "x"]);
    assert_eq!(app.collections_tree.selected, Some((0, 1)));
}

#[test]
fn delete_request_removes_it_and_clears_the_selection() {
    let mut app = app_with_requests(&["a", "b", "c"]);
    app.collections_tree.state.selected = TreeSelection::Request(0, 1);
    app.select_request();
    assert_eq!(app.collections_tree.selected, Some((0, 1)));
    app.state = AppState::DeletingRequest;
    let action = app.delete_request();
    assert_eq!(request_names(&app, 0), vec!["a", "c"]);
    assert_eq!(app.collections_tree.state.selected, TreeSelection::Unselected);
    assert_eq!(app.collections_tree.selected, None);
    assert_eq!(app.query_params_table.selection, None);
    assert_eq!(app.headers_table.selection, None);
    assert_eq!(app.body_form_table.selection, None);
    assert_eq!(app.state, AppState::Normal);
    saved(action, 0, "/data/Demo.json", CollectionFileFormat::Json);
}

#[test]
fn a_deleted_request_stays_alive_for_its_other_holders() {
    let mut app = app_with_requests(&["a", "b"]);
    let held = app.collections[0].requests[0].clone();
    app.collections_tree.state.selected = TreeSelection::Request(0, 0);
    app.delete_request();
    assert_eq!(request_names(&app, 0), vec!["b"]);
    held.write().is_pending = true;
    assert_eq!(held.read().name, "a");
    assert!(held.read().is_pending);
    assert_eq!(Arc::strong_count(&held), 1);
}

#[test]
fn delete_collection_removes_it_and_names_its_file() {
    let mut app = app_with_requests(&["a"]);
    add_collection(&mut app, "Other");
    app.collections_tree.state.selected = TreeSelection::Collection(0);
    app.collections_tree.selected = Some((0, 0));
    app.state = AppState::DeletingCollection;
    let action = app.delete_collection();
    assert_eq!(action, FileAction::DeleteFile { path: "/data/Demo.json".to_string() });
    assert_eq!(names(&app), vec!["Other"]);
    assert_eq!(app.collections_tree.state.selected, TreeSelection::Unselected);
    assert_eq!(app.collections_tree.selected, None);
    assert_eq!(app.state, AppState::Normal);
}

#[test]
fn delete_collection_from_one_of_its_requests() {
    let mut app = app_with_requests(&["a"]);
    add_collection(&mut app, "Other");
    add_request(&mut app, 1, "x");
    app.collections_tree.state.selected = TreeSelection::Request(1, 0);
    let action = app.delete_collection();
    assert_eq!(action, FileAction::DeleteFile { path: "/data/Other.json".to_string() });
    assert_eq!(names(&app), vec!["Demo"]);
}

#[test]
fn delete_collection_without_saving_leaves_the_file() {
    let mut app = app_in("/data", false);
    add_collection(&mut app, "Demo");
    app.collections_tree.state.selected = TreeSelection::Collection(0);
    assert_eq!(app.delete_collection(), FileAction::Nothing);
    assert!(app.collections.is_empty());
    assert_eq!(app.collections_tree.state.selected, TreeSelection::Unselected);
}

#[test]
fn delete_element_asks_first() {
    let mut app = app_with_requests(&["a"]);
    app.delete_collection_popup.state = true;
    app.collections_tree.state.selected = TreeSelection::Collection(0);
    app.delete_element();
    assert_eq!(app.state, AppState::DeletingCollection);
    assert!(!app.delete_collection_popup.state);
    assert_eq!(names(&app), vec!["Demo"]);

    app.delete_request_popup.state = true;
    app.collections_tree.state.selected = TreeSelection::Request(0, 0);
    app.delete_element();
    assert_eq!(app.state, AppState::DeletingRequest);
    assert!(!app.delete_request_popup.state);
    assert_eq!(request_names(&app, 0), vec!["a"]);

    app.state = AppState::Normal;
    app.collections_tree.state.selected = TreeSelection::Unselected;
    app.delete_element();
    assert_eq!(app.state, AppState::Normal);
}

#[test]
fn rename_collection_renames_in_place_and_keeps_the_file() {
    let mut app = app_with_requests(&["a"]);
    add_collection(&mut app, "Other");
    app.collections_tree.state.selected = TreeSelection::Collection(0);
    app.rename_element();
    assert_eq!(app.state, AppState::RenamingCollection);
    assert_eq!(app.rename_collection_input.text, "Demo");
    assert_eq!(app.rename_collection_input.cursor_position, 4);
    app.rename_collection_input.text = "Renamed".to_string();
    let action = app.rename_collection();
    assert_eq!(names(&app), vec!["Renamed", "Other"]);
    assert_eq!(app.collections[0].path, "/data/Demo.json");
    assert_eq!(request_names(&app, 0), vec!["a"]);
    assert_eq!(app.state, AppState::Normal);
    saved(action, 0, "/data/Demo.json", CollectionFileFormat::Json);
}

#[test]
fn rename_collection_refuses_blank_names_and_names_of_others() {
    let mut app = app_with_requests(&[]);
    add_collection(&mut app, "Other");
    app.collections_tree.state.selected = TreeSelection::Collection(0);
    for name in ["", "  ", "Other"] {
        app.state = AppState::RenamingCollection;
        app.rename_collection_input.text = name.to_string();
        assert_eq!(app.rename_collection(), FileAction::Nothing);
        assert_eq!(names(&app), vec!["Demo", "Other"]);
        assert_eq!(app.state, AppState::RenamingCollection);
    }
}

#[test]
fn rename_collection_accepts_the_name_it_has() {
    let mut app = app_with_requests(&[]);
    add_collection(&mut app, "Other");
    app.collections_tree.state.selected = TreeSelection::Collection(1);
    app.rename_collection_input.text = "Other".to_string();
    let action = app.rename_collection();
    saved(action, 1, "/data/Other.json", CollectionFileFormat::Json);
    assert_eq!(names(&app), vec!["Demo", "Other"]);
    assert_eq!(app.state, AppState::Normal);
}

#[test]
fn rename_request_renames_the_request_under_the_cursor() {
    let mut app = app_with_requests(&["a", "b"]);
    let held = app.collections[0].requests[1].clone();
    app.collections_tree.state.selected = TreeSelection::Request(0, 1);
    app.rename_element();
    assert_eq!(app.state, AppState::RenamingRequest);
    assert_eq!(app.rename_request_input.text, "b");
    assert_eq!(app.rename_request_input.cursor_position, 1);
    app.rename_request_input.text = "renamed".to_string();
    let action = app.rename_request();
    assert_eq!(request_names(&app, 0), vec!["a", "renamed"]);
    assert_eq!(held.read().name, "renamed");
    assert_eq!(held.read().headers, default_headers());
    assert_eq!(app.state, AppState::Normal);
    let document = saved(action, 0, "/data/Demo.json", CollectionFileFormat::Json);
    assert_eq!(saved_names(&document), vec!["a", "renamed"]);
}

#[test]
fn rename_request_refuses_blank_names() {
    let mut app = app_with_requests(&["a"]);
    app.collections_tree.state.selected = TreeSelection::Request(0, 0);
    app.state = AppState::RenamingRequest;
    app.rename_request_input.text = " \t".to_string();
    assert_eq!(app.rename_request(), FileAction::Nothing);
    assert_eq!(request_names(&app, 0), vec!["a"]);
    assert_eq!(app.state, AppState::RenamingRequest);
}

#[test]
fn rename_element_without_a_cursor_does_nothing() {
    let mut app = app_with_requests(&["a"]);
    app.rename_element();
    assert_eq!(app.state, AppState::Normal);
}

#[test]
fn select_request_opens_the_request_under_the_cursor() {
    let mut app = app_with_requests(&["a", "b"]);
    {
        let mut request = app.collections[0].requests[1].write();
        request.url = "https://example.com".to_string();
        request.params = vec![row("q", "1", true), row("off", "2", false)];
        request.auth = Auth::BasicAuth("user".to_string(), "secret".to_string());
        request.body = ContentType::Json("{}".to_string());
        request.scripts.pre_request_script = Some("pre()".to_string());
    }
    app.collections_tree.state.selected = TreeSelection::Request(0, 1);
    app.select_request();
    assert_eq!(app.collections_tree.selected, Some((0, 1)));
    assert_eq!(app.state, AppState::SelectedRequest);
    assert_eq!(app.url_text_input.text, "https://example.com?q=1");
    assert_eq!(app.url_text_input.cursor_position, 0);
    assert_eq!(app.query_params_table.rows, vec![row("q", "1", true), row("off", "2", false)]);
    assert_eq!(app.query_params_table.selection, Some((0, 0)));
    assert_eq!(app.query_params_table.selection_text_input.text, "q");
    assert_eq!(app.headers_table.rows, default_headers());
    assert_eq!(app.headers_table.selection, Some((0, 0)));
    assert_eq!(app.headers_table.selection_text_input.text, "cache-control");
    assert_eq!(app.body_form_table.selection, None);
    assert!(app.body_form_table.rows.is_empty());
    assert_eq!(app.body_text_area, "{}");
    assert_eq!(app.auth_text_input_selection.max_selection, 2);
    assert!(app.auth_text_input_selection.usable);
    assert_eq!(app.auth_basic_username_text_input.text, "user");
    assert_eq!(app.auth_basic_password_text_input.text, "secret");
    assert_eq!(app.auth_bearer_token_text_input.text, "");
    assert_eq!(app.pre_request_script_text_area, "pre()");
    assert_eq!(app.post_request_script_text_area, "");
}

#[test]
fn select_request_needs_the_cursor_on_a_request() {
    let mut app = app_with_requests(&["a"]);
    app.collections_tree.state.selected = TreeSelection::Collection(0);
    app.select_request();
    assert_eq!(app.collections_tree.selected, None);
    assert_eq!(app.state, AppState::Normal);
    app.collections_tree.state.selected = TreeSelection::Unselected;
    app.select_request();
    assert_eq!(app.collections_tree.selected, None);
    assert_eq!(app.state, AppState::Normal);
}

#[test]
fn select_request_of_a_request_without_rows_selects_no_cell() {
    let mut app = app_with_requests(&["a"]);
    app.collections[0].requests[0].write().headers = vec![];
    app.query_params_table.selection = Some((3, 1));
    app.headers_table.selection = Some((3, 1));
    app.body_form_table.selection = Some((3, 1));
    app.collections_tree.state.selected = TreeSelection::Request(0, 0);
    app.select_request();
    assert_eq!(app.query_params_table.selection, None);
    assert_eq!(app.headers_table.selection, None);
    assert_eq!(app.body_form_table.selection, None);
    assert_eq!(app.query_params_table.selection_text_input.text, "");
    assert_eq!(app.headers_table.selection_text_input.text, "");
}

#[test]
fn select_request_with_a_form_body_selects_its_first_cell() {
    let mut app = app_with_requests(&["a"]);
    app.collections[0].requests[0].write().body =
        ContentType::Form(vec![row("k", "v", true), row("k2", "v2", true)]);
    app.body_text_area = "old".to_string();
    app.collections_tree.state.selected = TreeSelection::Request(0, 0);
    app.select_request();
    assert_eq!(app.body_form_table.selection, Some((0, 0)));
    assert_eq!(app.body_form_table.rows, vec![row("k", "v", true), row("k2", "v2", true)]);
    assert_eq!(app.body_form_table.selection_text_input.text, "k");
    assert_eq!(app.body_text_area, "");
}

#[test]
fn unselect_request_clears_the_selection() {
    let mut app = app_with_requests(&["a"]);
    app.collections_tree.state.selected = TreeSelection::Request(0, 0);
    app.select_request();
    app.unselect_request();
    assert_eq!(app.collections_tree.state.selected, TreeSelection::Unselected);
    assert_eq!(app.collections_tree.selected, None);
    assert_eq!(app.headers_table.selection, None);
    assert_eq!(app.state, AppState::Normal);
    assert_eq!(request_names(&app, 0), vec!["a"]);
}

#[test]
fn expanding_a_collection_toggles_it() {
    let mut app = app_with_requests(&["a"]);
    add_collection(&mut app, "Other");
    app.collections_tree.state.selected = TreeSelection::Collection(1);
    app.select_request_or_expand_collection();
    assert_eq!(app.collections_tree.state.opened, vec![1]);
    app.collections_tree.state.selected = TreeSelection::Collection(0);
    app.select_request_or_expand_collection();
    assert_eq!(app.collections_tree.state.opened, vec![1, 0]);
    app.collections_tree.state.selected = TreeSelection::Collection(1);
    app.select_request_or_expand_collection();
    assert_eq!(app.collections_tree.state.opened, vec![0]);
    assert_eq!(app.state, AppState::Normal);
    assert_eq!(app.collections_tree.selected, None);
}

#[test]
fn select_or_expand_on_a_request_opens_it() {
    let mut app = app_with_requests(&["a"]);
    app.collections_tree.state.selected = TreeSelection::Request(0, 0);
    app.select_request_or_expand_collection();
    assert_eq!(app.collections_tree.selected, Some((0, 0)));
    assert_eq!(app.state, AppState::SelectedRequest);
    assert!(app.collections_tree.state.opened.is_empty());
}

#[test]
fn select_or_expand_without_a_cursor_does_nothing() {
    let mut app = app_with_requests(&["a"]);
    app.select_request_or_expand_collection();
    assert!(app.collections_tree.state.opened.is_empty());
    assert_eq!(app.collections_tree.selected, None);
}

#[test]
fn update_inputs_shows_the_cell_that_is_selected() {
    let mut app = app_with_requests(&["a"]);
    app.collections_tree.selected = Some((0, 0));
    app.headers_table.selection = Some((2, 1));
    app.update_inputs();
    assert_eq!(app.headers_table.selection_text_input.text, "*/*");
    assert_eq!(app.headers_table.selection_text_input.cursor_position, 3);
    app.headers_table.selection = Some((4, 0));
    app.update_inputs();
    assert_eq!(app.headers_table.selection_text_input.text, "connection");
    assert_eq!(app.headers_table.selection_text_input.cursor_position, 10);
}

#[test]
fn update_inputs_leaves_the_input_empty_where_no_cell_is_selected() {
    let mut app = app_with_requests(&["a"]);
    app.collections_tree.selected = Some((0, 0));
    for selection in [None, Some((5, 0)), Some((0, 2))] {
        app.headers_table.selection = selection;
        app.headers_table.selection_text_input.text = "old".to_string();
        app.update_inputs();
        assert_eq!(app.headers_table.selection_text_input.text, "");
        assert_eq!(app.headers_table.selection, selection);
    }
}

#[test]
fn update_inputs_from_a_file_body() {
    let mut app = app();
    app.body_text_area = "kept".to_string();
    app.body_form_table.rows = vec![row("kept", "too", true)];
    let mut request = Request::default();
    request.body = ContentType::File("/tmp/upload.bin".to_string());
    request.auth = Auth::BearerToken("tok".to_string());
    request.scripts.post_request_script = Some("post()".to_string());
    app.update_inputs_from(&request);
    assert_eq!(app.body_file_text_input.text, "/tmp/upload.bin");
    assert_eq!(app.body_file_text_input.cursor_position, 15);
    assert_eq!(app.body_text_area, "kept");
    assert_eq!(app.body_form_table.rows, vec![row("kept", "too", true)]);
    assert_eq!(app.auth_text_input_selection.max_selection, 1);
    assert!(app.auth_text_input_selection.usable);
    assert_eq!(app.auth_bearer_token_text_input.text, "tok");
    assert_eq!(app.auth_basic_username_text_input.text, "");
    assert_eq!(app.post_request_script_text_area, "post()");
    assert_eq!(app.pre_request_script_text_area, "");
}

#[test]
fn update_inputs_from_a_request_without_auth_or_body() {
    let mut app = app();
    app.body_text_area = "old".to_string();
    app.body_form_table.rows = vec![row("old", "row", true)];
    app.body_file_text_input.text = "old".to_string();
    app.auth_basic_username_text_input.text = "old".to_string();
    app.auth_text_input_selection.usable = true;
    app.auth_text_input_selection.max_selection = 2;
    app.auth_text_input_selection.selected = 1;
    app.update_inputs_from(&Request::default());
    assert_eq!(app.body_text_area, "");
    assert!(app.body_form_table.rows.is_empty());
    assert_eq!(app.body_file_text_input.text, "");
    assert_eq!(app.auth_basic_username_text_input.text, "");
    assert!(!app.auth_text_input_selection.usable);
    assert_eq!(app.auth_text_input_selection.max_selection, 0);
    assert_eq!(app.auth_text_input_selection.selected, 1);
    assert_eq!(app.url_text_input.text, "");
}

#[test]
fn reset_inputs_empties_and_reset_cursors_rewinds() {
    let mut app = app_with_requests(&["a"]);
    app.collections_tree.selected = Some((0, 0));
    app.headers_table.selection = Some((0, 0));
    app.update_inputs();
    assert_eq!(app.headers_table.selection_text_input.cursor_position, 13);
    app.reset_cursors();
    assert_eq!(app.headers_table.selection_text_input.cursor_position, 0);
    assert_eq!(app.headers_table.selection_text_input.text, "cache-control");
    app.reset_inputs();
    assert_eq!(app.headers_table.selection_text_input.text, "");
    assert_eq!(app.url_text_input.text, "");
    assert_eq!(app.headers_table.rows, default_headers());
}

#[test]
fn cycling_the_auth_of_the_open_request() {
    let mut app = app_with_requests(&["Ping"]);
    app.collections_tree.state.selected = TreeSelection::Request(0, 0);
    app.select_request();
    let action = app.modify_request_auth();
    saved(action, 0, "/data/Demo.json", CollectionFileFormat::Json);
    assert_eq!(
        app.collections[0].requests[0].read().auth,
        Auth::BasicAuth(String::new(), String::new())
    );
    assert_eq!(app.request_param_tab, RequestParamsTabs::Auth);
    assert_eq!(app.auth_text_input_selection.max_selection, 2);
    app.modify_request_auth();
    assert_eq!(app.collections[0].requests[0].read().auth, Auth::BearerToken(String::new()));
    assert_eq!(app.auth_text_input_selection.max_selection, 1);
    app.modify_request_auth();
    assert_eq!(app.collections[0].requests[0].read().auth, Auth::NoAuth);
    assert!(!app.auth_text_input_selection.usable);
}

#[test]
fn editing_the_credentials_of_a_basic_auth() {
    let mut app = app_with_requests(&["Ping"]);
    app.collections[0].requests[0].write().auth =
        Auth::BasicAuth("old".to_string(), "pass".to_string());
    app.collections_tree.selected = Some((0, 0));

    app.auth_text_input_selection.selected = 0;
    app.select_request_auth_input_text();
    assert_eq!(app.state, AppState::EditingRequestAuthUsername);
    app.auth_basic_username_text_input.text = "new".to_string();
    let action = app.modify_request_auth_basic_username();
    saved(action, 0, "/data/Demo.json", CollectionFileFormat::Json);
    assert_eq!(
        app.collections[0].requests[0].read().auth,
        Auth::BasicAuth("new".to_string(), "pass".to_string())
    );
    assert_eq!(app.state, AppState::SelectedRequest);
    assert_eq!(app.auth_basic_username_text_input.text, "new");
    assert_eq!(app.auth_basic_username_text_input.cursor_position, 0);

    app.auth_text_input_selection.selected = 1;
    app.select_request_auth_input_text();
    assert_eq!(app.state, AppState::EditingRequestAuthPassword);
    app.auth_basic_password_text_input.text = "word".to_string();
    app.modify_request_auth_basic_password();
    assert_eq!(
        app.collections[0].requests[0].read().auth,
        Auth::BasicAuth("new".to_string(), "word".to_string())
    );

    app.auth_bearer_token_text_input.text = "token".to_string();
    app.modify_request_auth_bearer_token();
    assert_eq!(
        app.collections[0].requests[0].read().auth,
        Auth::BasicAuth("new".to_string(), "word".to_string())
    );
}

#[test]
fn editing_the_token_of_a_bearer_auth() {
    let mut app = app_with_requests(&["Ping"]);
    app.collections[0].requests[0].write().auth = Auth::BearerToken("old".to_string());
    app.collections_tree.selected = Some((0, 0));

    app.auth_text_input_selection.selected = 1;
    app.select_request_auth_input_text();
    assert_eq!(app.state, AppState::Normal);
    app.auth_text_input_selection.selected = 0;
    app.select_request_auth_input_text();
    assert_eq!(app.state, AppState::EditingRequestAuthBearerToken);

    app.auth_bearer_token_text_input.text = "new".to_string();
    app.modify_request_auth_bearer_token();
    assert_eq!(app.collections[0].requests[0].read().auth, Auth::BearerToken("new".to_string()));
    assert_eq!(app.state, AppState::SelectedRequest);

    app.auth_basic_username_text_input.text = "user".to_string();
    app.modify_request_auth_basic_username();
    app.auth_basic_password_text_input.text = "pass".to_string();
    app.modify_request_auth_basic_password();
    assert_eq!(app.collections[0].requests[0].read().auth, Auth::BearerToken("new".to_string()));
}

#[test]
fn a_request_without_auth_has_no_input_to_edit() {
    let mut app = app_with_requests(&["Ping"]);
    app.collections_tree.selected = Some((0, 0));
    app.select_request_auth_input_text();
    assert_eq!(app.state, AppState::Normal);
    app.select_auth_input_text_for(&Auth::BasicAuth(String::new(), String::new()));
    assert_eq!(app.state, AppState::EditingRequestAuthUsername);
    app.auth_text_input_selection.selected = 2;
    app.state = AppState::Normal;
    app.select_auth_input_text_for(&Auth::BasicAuth(String::new(), String::new()));
    assert_eq!(app.state, AppState::Normal);
}

#[test]
fn the_request_handles_are_those_of_the_collection() {
    let mut app = app_with_requests(&["a", "b"]);
    app.collections_tree.selected = Some((0, 1));
    let handle = app.get_selected_request_as_local();
    assert!(Arc::ptr_eq(&handle, &app.collections[0].requests[1]));
    let handle = app.get_request_as_local_from_indexes(&(0, 0));
    assert!(Arc::ptr_eq(&handle, &app.collections[0].requests[0]));
    handle.write().url = "changed".to_string();
    assert_eq!(app.collections[0].requests[0].read().url, "changed");
    assert_eq!(App::snapshot_of(&handle).url, "changed");
}

#[test]
fn a_background_holder_and_the_app_see_the_same_request() {
    let mut app = app_with_requests(&["a"]);
    app.collections_tree.selected = Some((0, 0));
    let background = app.get_selected_request_as_local();
    {
        let mut request = background.write();
        request.is_pending = true;
        request.response.status_code = Some("200 OK".to_string());
    }
    app.modify_request_auth();
    let request = app.collections[0].requests[0].read();
    assert!(request.is_pending);
    assert_eq!(request.response.status_code, Some("200 OK".to_string()));
    assert_eq!(request.auth, Auth::BasicAuth(String::new(), String::new()));
}

fn demo_document() -> Document {
    record(vec![
        ("name", text("Loaded")),
        (
            "requests",
            Document::List(vec![
                Request::new("first".to_string()).to_document(CollectionFileFormat::Json),
                Request::new("second".to_string()).to_document(CollectionFileFormat::Yaml),
            ]),
        ),
    ])
}

#[test]
fn loading_a_collection_sets_its_path_and_format() {
    let mut app = app();
    add_collection(&mut app, "Demo");
    let loaded = app.set_collections_from_file(
        "/data/loaded.yaml".to_string(),
        CollectionFileFormat::Yaml,
        &demo_document(),
    );
    assert_eq!(loaded, Ok(()));
    assert_eq!(names(&app), vec!["Demo", "Loaded"]);
    assert_eq!(app.collections[1].path, "/data/loaded.yaml");
    assert_eq!(app.collections[1].file_format, CollectionFileFormat::Yaml);
    assert_eq!(request_names(&app, 1), vec!["first", "second"]);
    assert_eq!(*app.collections[1].requests[0].read(), Request::new("first".to_string()));
    let document = saved(
        app.save_collection_to_file(1),
        1,
        "/data/loaded.yaml",
        CollectionFileFormat::Yaml,
    );
    assert_eq!(saved_names(&document), vec!["first", "second"]);
}

#[test]
fn loading_what_is_no_collection_changes_nothing() {
    let mut app = app();
    add_collection(&mut app, "Demo");
    let loaded = app.set_collections_from_file(
        "/data/bad.json".to_string(),
        CollectionFileFormat::Json,
        &record(vec![("name", text("Bad"))]),
    );
    assert_eq!(loaded, Err(FormatError::MissingField("requests".to_string())));
    let loaded = app.set_collections_from_file(
        "/data/bad.json".to_string(),
        CollectionFileFormat::Json,
        &Document::List(vec![]),
    );
    assert_eq!(loaded, Err(FormatError::Unexpected("collection".to_string())));
    assert_eq!(names(&app), vec!["Demo"]);
}

#[test]
fn saving_goes_through_a_temporary_file_beside_the_collection() {
    let mut app = app_in("/data/", true);
    add_collection(&mut app, "Demo");
    match app.save_collection_to_file(0) {
        FileAction::SaveCollection { collection_index, temp_path, path, file_format, document } => {
            assert_eq!(collection_index, 0);
            assert_eq!(path, "/data/Demo.json");
            assert_eq!(temp_path, "/data/Demo.json_");
            assert_eq!(file_format, CollectionFileFormat::Json);
            assert_eq!(
                document,
                record(vec![("name", text("Demo")), ("requests", Document::List(vec![]))])
            );
        }
        other => panic!("{other:?}"),
    }
}

#[test]
fn saving_writes_the_requests_as_they_are_at_that_moment() {
    let mut app = app_with_requests(&["a", "b"]);
    {
        let mut request = app.collections[0].requests[1].write();
        request.url = "https://example.com".to_string();
        request.is_pending = true;
        request.response.status_code = Some("200 OK".to_string());
    }
    let document =
        saved(app.save_collection_to_file(0), 0, "/data/Demo.json", CollectionFileFormat::Json);
    let (name, requests) = collection_from_document(&document).unwrap();
    assert_eq!(name, "Demo");
    assert_eq!(requests.len(), 2);
    assert_eq!(requests[0], Request::new("a".to_string()));
    assert_eq!(requests[1].url, "https://example.com");
    assert!(!requests[1].is_pending);
    assert_eq!(requests[1].response.status_code, None);
    assert!(app.collections[0].requests[1].read().is_pending);
}

#[test]
fn nothing_is_saved_or_deleted_in_a_dry_run() {
    let mut app = app_in("/data", false);
    add_collection(&mut app, "Demo");
    assert_eq!(add_request(&mut app, 0, "a"), FileAction::Nothing);
    assert_eq!(add_request(&mut app, 0, "b"), FileAction::Nothing);
    assert_eq!(app.save_collection_to_file(0), FileAction::Nothing);
    app.collections_tree.state.selected = TreeSelection::Request(0, 1);
    assert_eq!(app.move_request_up(), FileAction::Nothing);
    assert_eq!(request_names(&app, 0), vec!["b", "a"]);
    app.collections_tree.selected = Some((0, 0));
    assert_eq!(app.modify_request_auth(), FileAction::Nothing);
    let collection = app.collections[0].clone();
    assert_eq!(app.delete_collection_file(collection), FileAction::Nothing);
}

#[test]
fn a_clone_of_a_collection_shares_its_requests() {
    let app = app_with_requests(&["a"]);
    let copy = app.collections[0].clone();
    assert_eq!(copy.name, "Demo");
    assert_eq!(copy.path, "/data/Demo.json");
    assert!(Arc::ptr_eq(&copy.requests[0], &app.collections[0].requests[0]));
}

#[test]
fn parse_config_file_takes_the_settings_over() {
    let mut app = app();
    let config = record(vec![
        ("disable_cors", Document::Bool(true)),
        ("preferred_collection_file_format", text("yaml")),
    ]);
    assert_eq!(app.parse_config_file(&config), Ok(()));
    assert!(app.config.is_cors_disabled());
    assert!(!app.config.is_syntax_highlighting_disabled());
    add_collection(&mut app, "Demo");
    assert_eq!(app.collections[0].path, "/data/Demo.yaml");
    let bad = record(vec![("disable_cors", text("yes"))]);
    assert_eq!(
        app.parse_config_file(&bad),
        Err(FormatError::Unexpected("disable_cors".to_string()))
    );
    assert!(app.config.is_cors_disabled());
}

#[test]
fn a_session_from_creating_a_collection_to_deleting_it() {
    let mut app = app_in("/data", true);

    let action = add_collection(&mut app, "Demo");
    saved(action, 0, "/data/Demo.json", CollectionFileFormat::Json);
    assert_eq!(app.collections[0].name, "Demo");
    assert!(app.collections[0].requests.is_empty());

    add_request(&mut app, 0, "Ping");
    assert_eq!(app.collections[0].requests.len(), 1);
    {
        let request = app.collections[0].requests[0].read();
        let keys: Vec<&str> = request.headers.iter().map(|h| h.data.0.as_str()).collect();
        assert_eq!(
            keys,
            vec!["cache-control", "user-agent", "accept", "accept-encoding", "connection"]
        );
        assert!(request.headers.iter().all(|header| header.enabled));
    }

    app.collections_tree.state.selected = TreeSelection::Request(0, 0);
    app.select_request();
    app.modify_request_auth();
    assert_eq!(
        app.collections[0].requests[0].read().auth,
        Auth::BasicAuth(String::new(), String::new())
    );

    app.unselect_request();
    app.collections_tree.state.selected = TreeSelection::Collection(0);
    let action = app.delete_collection();
    assert_eq!(action, FileAction::DeleteFile { path: "/data/Demo.json".to_string() });
    assert!(app.collections.is_empty());
    assert_eq!(app.collections_tree.state.selected, TreeSelection::Unselected);
    assert_eq!(app.collections_tree.selected, None);
}
