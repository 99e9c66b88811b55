use atac::request::auth::Auth;
use atac::request::body::ContentType;
use atac::request::key_value::KeyValue;
use atac::request::method::Method;
use atac::request::request::{default_headers, Request};
use atac::request::response::RequestResponse;
use atac::request::settings::RequestSettings;
use atac::utils::{find_file_format_in_content_type, next_auth, next_content_type};

fn row(key: &str, value: &str, enabled: bool) -> KeyValue {
    KeyValue { data: (key.to_string(), value.to_string()), enabled }
}

fn request_with_params(url: &str, params: Vec<KeyValue>) -> Request {
    let mut request = Request::default();
    request.url = url.to_string();
    request.params = params;
    request
}

#[test]
fn url_without_params_is_the_url() {
    let request = request_with_params("https://example.com", vec![]);
    assert_eq!(request.url_with_params_to_string(), "https://example.com");
}

#[test]
fn url_with_one_enabled_param() {
    let request = request_with_params("https://example.com", vec![row("a", "1", true)]);
    assert_eq!(request.url_with_params_to_string(), "https://example.com?a=1");
}

#[test]
fn url_joins_enabled_params_with_ampersand() {
    let request = request_with_params(
        "https://example.com/search",
        vec![row("q", "rust", true), row("page", "2", true), row("lang", "en", true)],
    );
    assert_eq!(
        request.url_with_params_to_string(),
        "https://example.com/search?q=rust&page=2&lang=en"
    );
}

#[test]
fn url_skips_disabled_params() {
    let request = request_with_params(
        "https://example.com",
        vec![row("a", "1", true), row("b", "2", false), row("c", "3", true)],
    );
    assert_eq!(request.url_with_params_to_string(), "https://example.com?a=1&c=3");
}

#[test]
fn url_with_only_disabled_params_has_no_question_mark() {
    let request = request_with_params(
        "https://example.com",
        vec![row("a", "1", false), row("b", "2", false)],
    );
    assert_eq!(request.url_with_params_to_string(), "https://example.com");
}

#[test]
fn url_has_no_trailing_separator_when_the_last_param_is_disabled() {
    let request = request_with_params(
        "https://example.com",
        vec![row("a", "1", true), row("b", "2", false)],
    );
    assert_eq!(request.url_with_params_to_string(), "https://example.com?a=1");
}

#[test]
fn url_has_no_leading_separator_when_the_first_param_is_disabled() {
    let request = request_with_params(
        "https://example.com",
        vec![row("a", "1", false), row("b", "2", true)],
    );
    assert_eq!(request.url_with_params_to_string(), "https://example.com?b=2");
}

#[test]
fn url_keeps_empty_keys_and_values_of_enabled_params() {
    let request = request_with_params("u", vec![row("", "", true), row("k", "", true)]);
    assert_eq!(request.url_with_params_to_string(), "u?=&k=");
}

#[test]
fn url_keeps_duplicated_keys_in_order() {
    let request = request_with_params("u", vec![row("k", "2", true), row("k", "1", true)]);
    assert_eq!(request.url_with_params_to_string(), "u?k=2&k=1");
}

#[test]
fn url_with_params_leaves_the_request_as_it_is() {
    let request = request_with_params("u", vec![row("k", "2", true)]);
    let before = request.clone();
    let _ = request.url_with_params_to_string();
    assert_eq!(request, before);
}

#[test]
fn find_and_delete_header_removes_the_first_match_only() {
    let mut request = Request::default();
    request.headers = vec![row("a", "1", true), row("b", "2", true), row("a", "3", false)];
    request.find_and_delete_header("a");
    assert_eq!(request.headers, vec![row("b", "2", true), row("a", "3", false)]);
}

#[test]
fn find_and_delete_header_is_case_sensitive() {
    let mut request = Request::default();
    request.headers = vec![row("Accept", "1", true)];
    request.find_and_delete_header("accept");
    assert_eq!(request.headers, vec![row("Accept", "1", true)]);
}

#[test]
fn find_and_delete_header_without_a_match_changes_nothing() {
    let mut request = Request::new("r".to_string());
    let before = request.clone();
    request.find_and_delete_header("x-missing");
    assert_eq!(request, before);
}

#[test]
fn find_and_delete_header_on_no_headers() {
    let mut request = Request::default();
    request.find_and_delete_header("a");
    assert!(request.headers.is_empty());
}

#[test]
fn find_and_delete_header_removes_a_disabled_header_too() {
    let mut request = Request::default();
    request.headers = vec![row("a", "1", false)];
    request.find_and_delete_header("a");
    assert!(request.headers.is_empty());
}

#[test]
fn modify_or_create_header_sets_the_value_whatever_the_case() {
    let mut request = Request::default();
    request.headers = vec![row("Content-Type", "text/plain", true), row("accept", "*/*", false)];
    request.modify_or_create_header("content-type", "application/json");
    assert_eq!(
        request.headers,
        vec![row("Content-Type", "application/json", true), row("accept", "*/*", false)]
    );
}

#[test]
fn modify_or_create_header_sets_every_match() {
    let mut request = Request::default();
    request.headers = vec![row("X-A", "1", true), row("b", "2", true), row("x-a", "3", false)];
    request.modify_or_create_header("x-A", "9");
    assert_eq!(
        request.headers,
        vec![row("X-A", "9", true), row("b", "2", true), row("x-a", "9", false)]
    );
}

#[test]
fn modify_or_create_header_adds_an_enabled_header_at_the_end() {
    let mut request = Request::default();
    request.headers = vec![row("a", "1", false)];
    request.modify_or_create_header("X-New", "v");
    assert_eq!(request.headers, vec![row("a", "1", false), row("X-New", "v", true)]);
}

#[test]
fn modify_or_create_header_keeps_the_rest_of_the_request() {
    let mut request = Request::new("r".to_string());
    request.url = "u".to_string();
    let before = request.clone();
    request.modify_or_create_header("accept", "text/html");
    assert_eq!(request.name, before.name);
    assert_eq!(request.url, before.url);
    assert_eq!(request.params, before.params);
    assert_eq!(request.headers.len(), before.headers.len());
    assert_eq!(request.headers[2], row("accept", "text/html", true));
}

#[test]
fn modify_then_delete_uses_two_different_comparisons() {
    let mut request = Request::default();
    request.modify_or_create_header("Accept", "a");
    request.modify_or_create_header("ACCEPT", "b");
    assert_eq!(request.headers, vec![row("Accept", "b", true)]);
    request.find_and_delete_header("ACCEPT");
    assert_eq!(request.headers, vec![row("Accept", "b", true)]);
    request.find_and_delete_header("Accept");
    assert!(request.headers.is_empty());
}

#[test]
fn default_headers_are_five_and_enabled() {
    let headers = default_headers();
    assert_eq!(
        headers,
        vec![
            row("cache-control", "no-cache", true),
            row("user-agent", "ATAC/v0.16.0", true),
            row("accept", "*/*", true),
            row("accept-encoding", "gzip, deflate, br", true),
            row("connection", "keep-alive", true),
        ]
    );
}

#[test]
fn new_request_has_the_default_headers_and_nothing_else() {
    let request = Request::new("Ping".to_string());
    assert_eq!(request.name, "Ping");
    assert_eq!(request.url, "");
    assert_eq!(request.method, Method::Get);
    assert!(request.params.is_empty());
    assert_eq!(request.headers, default_headers());
    assert_eq!(request.body, ContentType::NoBody);
    assert_eq!(request.auth, Auth::NoAuth);
    assert_eq!(request.scripts.pre_request_script, None);
    assert_eq!(request.scripts.post_request_script, None);
    assert_eq!(request.settings, RequestSettings::default());
    assert_eq!(request.response, RequestResponse::default());
    assert!(!request.is_pending);
}

#[test]
fn default_settings_switch_everything_on() {
    let settings = RequestSettings::default();
    assert!(settings.use_config_proxy);
    assert!(settings.allow_redirects);
    assert!(settings.store_received_cookies);
    assert!(settings.pretty_print_response_content);
}

#[test]
fn clone_of_a_request_is_equal_to_it() {
    let mut request = Request::new("r".to_string());
    request.body = ContentType::Form(vec![row("a", "b", true)]);
    request.response.cookies = Some("c=1".to_string());
    request.scripts.pre_request_script = Some("print(1)".to_string());
    assert_eq!(request.clone(), request);
}

#[test]
fn auth_cycle_steps() {
    assert_eq!(next_auth(&Auth::NoAuth), Auth::BasicAuth(String::new(), String::new()));
    assert_eq!(
        next_auth(&Auth::BasicAuth("u".to_string(), "p".to_string())),
        Auth::BearerToken(String::new())
    );
    assert_eq!(next_auth(&Auth::BearerToken("t".to_string())), Auth::NoAuth);
}

#[test]
fn auth_cycle_returns_to_no_auth_after_three_steps() {
    let auth = next_auth(&next_auth(&next_auth(&Auth::NoAuth)));
    assert_eq!(auth, Auth::NoAuth);
}

#[test]
fn auth_names() {
    assert_eq!(Auth::NoAuth.to_string(), "No Auth");
    assert_eq!(Auth::BasicAuth(String::new(), String::new()).to_string(), "Basic");
    assert_eq!(Auth::BearerToken(String::new()).to_string(), "Bearer");
}

#[test]
fn content_type_cycle_steps() {
    assert_eq!(next_content_type(&ContentType::NoBody), ContentType::Multipart(vec![]));
    assert_eq!(
        next_content_type(&ContentType::Multipart(vec![row("a", "b", true)])),
        ContentType::Form(vec![])
    );
    assert_eq!(
        next_content_type(&ContentType::Form(vec![row("a", "b", true)])),
        ContentType::File(String::new())
    );
    assert_eq!(
        next_content_type(&ContentType::File("/tmp/f".to_string())),
        ContentType::Raw(String::new())
    );
    assert_eq!(
        next_content_type(&ContentType::Raw("x".to_string())),
        ContentType::Json("x".to_string())
    );
    assert_eq!(
        next_content_type(&ContentType::Json("x".to_string())),
        ContentType::Xml("x".to_string())
    );
    assert_eq!(
        next_content_type(&ContentType::Xml("x".to_string())),
        ContentType::Html("x".to_string())
    );
    assert_eq!(
        next_content_type(&ContentType::Html("x".to_string())),
        ContentType::Javascript("x".to_string())
    );
    assert_eq!(next_content_type(&ContentType::Javascript("x".to_string())), ContentType::NoBody);
}

#[test]
fn content_type_cycle_returns_to_no_body_after_nine_steps() {
    let mut body = ContentType::NoBody;
    for step in 0..9 {
        body = next_content_type(&body);
        if step < 8 {
            assert_ne!(body, ContentType::NoBody);
        }
    }
    assert_eq!(body, ContentType::NoBody);
}

#[test]
fn content_type_cycle_keeps_text_among_text_variants() {
    let mut body = ContentType::Raw("{\"a\": 1}".to_string());
    for _ in 0..4 {
        body = next_content_type(&body);
    }
    assert_eq!(body, ContentType::Javascript("{\"a\": 1}".to_string()));
}

#[test]
fn content_type_mime_types() {
    assert_eq!(ContentType::NoBody.to_content_type(), "");
    assert_eq!(ContentType::Multipart(vec![]).to_content_type(), "multipart/form-data");
    assert_eq!(ContentType::Form(vec![]).to_content_type(), "application/x-www-form-urlencoded");
    assert_eq!(ContentType::Raw(String::new()).to_content_type(), "text/plain");
    assert_eq!(ContentType::File(String::new()).to_content_type(), "application/octet-stream");
    assert_eq!(ContentType::Json(String::new()).to_content_type(), "application/json");
    assert_eq!(ContentType::Xml(String::new()).to_content_type(), "application/xml");
    assert_eq!(ContentType::Html(String::new()).to_content_type(), "application/html");
    assert_eq!(ContentType::Javascript(String::new()).to_content_type(), "application/javascript");
}

#[test]
fn content_type_names() {
    assert_eq!(ContentType::NoBody.to_string(), "No Body");
    assert_eq!(ContentType::File(String::new()).to_string(), "File");
    assert_eq!(ContentType::Multipart(vec![]).to_string(), "Multipart");
    assert_eq!(ContentType::Form(vec![]).to_string(), "Form");
    assert_eq!(ContentType::Raw(String::new()).to_string(), "Text");
    assert_eq!(ContentType::Json(String::new()).to_string(), "JSON");
    assert_eq!(ContentType::Xml(String::new()).to_string(), "XML");
    assert_eq!(ContentType::Html(String::new()).to_string(), "HTML");
    assert_eq!(ContentType::Javascript(String::new()).to_string(), "Javascript");
}

#[test]
fn from_content_type_reads_known_types() {
    let body = "b".to_string();
    assert_eq!(
        ContentType::from_content_type("application/octet-stream", body.clone()),
        ContentType::File(body.clone())
    );
    assert_eq!(
        ContentType::from_content_type("text/plain", body.clone()),
        ContentType::Raw(body.clone())
    );
    assert_eq!(
        ContentType::from_content_type("application/json", body.clone()),
        ContentType::Json(body.clone())
    );
    assert_eq!(
        ContentType::from_content_type("application/xml", body.clone()),
        ContentType::Xml(body.clone())
    );
    assert_eq!(
        ContentType::from_content_type("application/html", body.clone()),
        ContentType::Html(body.clone())
    );
    assert_eq!(
        ContentType::from_content_type("application/javascript", body.clone()),
        ContentType::Javascript(body)
    );
}

#[test]
fn from_content_type_gives_no_body_for_anything_else() {
    for mime in [
        "",
        "multipart/form-data",
        "application/x-www-form-urlencoded",
        "image/png",
        "Application/JSON",
        "application/json; charset=utf-8",
        " text/plain",
    ] {
        assert_eq!(
            ContentType::from_content_type(mime, "b".to_string()),
            ContentType::NoBody,
            "{mime}"
        );
    }
}

#[test]
fn content_type_round_trip_through_its_mime_type() {
    for body in [
        ContentType::File("t".to_string()),
        ContentType::Raw("t".to_string()),
        ContentType::Json("t".to_string()),
        ContentType::Xml("t".to_string()),
        ContentType::Html("t".to_string()),
        ContentType::Javascript("t".to_string()),
    ] {
        let mime = body.to_content_type();
        assert_eq!(ContentType::from_content_type(&mime, "t".to_string()), body);
    }
}

#[test]
fn get_form_gives_the_rows_of_form_bodies_only() {
    let rows = vec![row("a", "b", true)];
    assert_eq!(ContentType::Multipart(rows.clone()).get_form(), Some(&rows));
    assert_eq!(ContentType::Form(rows.clone()).get_form(), Some(&rows));
    assert_eq!(ContentType::NoBody.get_form(), None);
    assert_eq!(ContentType::File("f".to_string()).get_form(), None);
    assert_eq!(ContentType::Json("f".to_string()).get_form(), None);
}

#[test]
fn get_form_mut_changes_the_rows_in_place() {
    let mut body = ContentType::Form(vec![row("a", "b", true)]);
    body.get_form_mut().unwrap().push(row("c", "d", false));
    assert_eq!(body, ContentType::Form(vec![row("a", "b", true), row("c", "d", false)]));
    let mut body = ContentType::Multipart(vec![]);
    body.get_form_mut().unwrap().push(row("c", "d", false));
    assert_eq!(body, ContentType::Multipart(vec![row("c", "d", false)]));
    assert!(ContentType::Raw("x".to_string()).get_form_mut().is_none());
    assert!(ContentType::NoBody.get_form_mut().is_none());
}

fn header(name: &str, value: &str) -> (String, String) {
    (name.to_string(), value.to_string())
}

#[test]
fn file_format_of_a_json_response() {
    let headers = vec![header("date", "today"), header("content-type", "application/json")];
    assert_eq!(find_file_format_in_content_type(&headers), Some("json".to_string()));
}

#[test]
fn file_format_stops_before_the_parameters() {
    let headers = vec![header("content-type", "text/html; charset=utf-8")];
    assert_eq!(find_file_format_in_content_type(&headers), Some("html".to_string()));
}

#[test]
fn file_format_stops_at_a_plus_sign() {
    let headers = vec![header("content-type", "image/svg+xml")];
    assert_eq!(find_file_format_in_content_type(&headers), Some("svg".to_string()));
}

#[test]
fn file_format_needs_a_content_type_header() {
    assert_eq!(find_file_format_in_content_type(&[]), None);
    let headers = vec![header("Content-Type", "application/json"), header("accept", "a/b")];
    assert_eq!(find_file_format_in_content_type(&headers), None);
}

#[test]
fn file_format_needs_a_type_and_a_subtype() {
    let headers = vec![header("content-type", "json")];
    assert_eq!(find_file_format_in_content_type(&headers), None);
    let headers = vec![header("content-type", "/json")];
    assert_eq!(find_file_format_in_content_type(&headers), None);
    let headers = vec![header("content-type", "")];
    assert_eq!(find_file_format_in_content_type(&headers), None);
}

#[test]
fn file_format_is_taken_from_the_first_content_type_header() {
    let headers =
        vec![header("content-type", "nothing here"), header("content-type", "application/json")];
    assert_eq!(find_file_format_in_content_type(&headers), None);
    let headers =
        vec![header("content-type", "image/png"), header("content-type", "application/json")];
    assert_eq!(find_file_format_in_content_type(&headers), Some("png".to_string()));
}
