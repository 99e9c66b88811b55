//! Helpers that several parts of the crate share.

pub mod choice_popup;
pub mod help_popup;
pub mod script_console;
pub mod shared;
pub mod stateful_custom_table;
pub mod stateful_tree;
pub mod text;
pub mod text_input;
pub mod text_input_selection;

use crate::request::auth::Auth;
use crate::request::body::ContentType;
use crate::request::key_value::rows_view;
use crate::request::response::pairs_view;
use crate::utils::text::{optional_text, same_text};
use regex::Regex;
use vstd::prelude::*;

verus! {

/// The authentication that follows `auth` in the cycle, with empty credentials.
pub fn next_auth(auth: &Auth) -> (next: Auth)
    ensures
        next@ == auth@.next(),
{
    match auth {
        Auth::NoAuth => Auth::BasicAuth(String::new(), String::new()),
        Auth::BasicAuth(_, _) => Auth::BearerToken(String::new()),
        Auth::BearerToken(_) => Auth::NoAuth,
    }
}

/// The body that follows `content_type` in the cycle. A step from one text
/// variant to the next keeps the text; every other step starts empty.
pub fn next_content_type(content_type: &ContentType) -> (next: ContentType)
    ensures
        next@ == content_type@.next(),
{
    match content_type {
        ContentType::NoBody => {
            let form = Vec::new();
            assert(rows_view(form@) =~= Seq::empty());
            ContentType::Multipart(form)
        },
        ContentType::Multipart(_) => {
            let form = Vec::new();
            assert(rows_view(form@) =~= Seq::empty());
            ContentType::Form(form)
        },
        ContentType::Form(_) => ContentType::File(String::new()),
        ContentType::File(_) => ContentType::Raw(String::new()),
        ContentType::Raw(body) => ContentType::Json(body.clone()),
        ContentType::Json(body) => ContentType::Xml(body.clone()),
        ContentType::Xml(body) => ContentType::Html(body.clone()),
        ContentType::Html(body) => ContentType::Javascript(body.clone()),
        ContentType::Javascript(_) => ContentType::NoBody,
    }
}

/// What the capture group called `group` holds in the leftmost match of the
/// regular expression `pattern` in `haystack`. `None` where `pattern` is not a
/// regular expression, where it matches nowhere, and where the match did not
/// go through the group.
pub uninterp spec fn regex_capture(
    pattern: Seq<char>,
    group: Seq<char>,
    haystack: Seq<char>,
) -> Option<Seq<char>>;

/// Calls `Regex::new`, `Regex::captures` and `Captures::name` of the crate
/// `regex`. The contract claims that what comes back depends on pattern,
/// group name and haystack alone, and gives it the name `regex_capture`.
#[verifier::external_body]
fn capture_named_group(pattern: &str, group: &str, haystack: &str) -> (found: Option<String>)
    ensures
        optional_text(found) == regex_capture(pattern@, group@, haystack@),
{
    let regex = Regex::new(pattern).ok()?;
    let captures = regex.captures(haystack)?;
    let found = captures.name(group)?;
    Some(found.as_str().to_string())
}

/// The value of the first header called exactly `content-type`.
pub open spec fn content_type_value(headers: Seq<(Seq<char>, Seq<char>)>) -> Option<Seq<char>>
    decreases headers.len(),
{
    if headers.len() == 0 {
        None
    } else if headers[0].0 == "content-type"@ {
        Some(headers[0].1)
    } else {
        content_type_value(headers.drop_first())
    }
}

/// The file format that a `content-type` header names, such as `json` in
/// `application/json`: the subtype that the expression below captures in the
/// value of the first header called `content-type`.
pub open spec fn file_format_in_content_type(headers: Seq<(Seq<char>, Seq<char>)>) -> Option<
    Seq<char>,
> {
    match content_type_value(headers) {
        Some(value) => regex_capture("\\w+/(?<file_format>\\w+)"@, "file_format"@, value),
        None => None,
    }
}

/// Finds the file format that the `content-type` header names, if there is one.
pub fn find_file_format_in_content_type(headers: &[(String, String)]) -> (format: Option<String>)
    ensures
        optional_text(format) == file_format_in_content_type(pairs_view(headers@)),
{
    let mut index: usize = 0;
    proof {
        assert(pairs_view(headers@).skip(0) =~= pairs_view(headers@));
    }
    while index < headers.len()
        invariant
            index <= headers@.len(),
            content_type_value(pairs_view(headers@)) == content_type_value(
                pairs_view(headers@).skip(index as int),
            ),
        decreases headers@.len() - index,
    {
        proof {
            let rest = pairs_view(headers@).skip(index as int);
            assert(rest.drop_first() =~= pairs_view(headers@).skip(index + 1));
        }
        if same_text(headers[index].0.as_str(), "content-type") {
            return capture_named_group(
                "\\w+/(?<file_format>\\w+)",
                "file_format",
                headers[index].1.as_str(),
            );
        }
        index += 1;
    }
    None
}

} // verus!
