//! The body of a request and the content type it is sent with.

use crate::request::key_value::{clone_rows, rows_view, KeyValue, KeyValueView};
use crate::utils::text::same_text;
use vstd::prelude::*;

verus! {

/// The body of a request: exactly one variant is active.
#[derive(Debug, PartialEq, Eq)]
pub enum ContentType {
    NoBody,
    /// The path of the file to send.
    File(String),
    Multipart(Vec<KeyValue>),
    Form(Vec<KeyValue>),
    Raw(String),
    Json(String),
    Xml(String),
    Html(String),
    Javascript(String),
}

/// What a [`ContentType`] holds, as plain values.
pub enum ContentTypeView {
    NoBody,
    File(Seq<char>),
    Multipart(Seq<KeyValueView>),
    Form(Seq<KeyValueView>),
    Raw(Seq<char>),
    Json(Seq<char>),
    Xml(Seq<char>),
    Html(Seq<char>),
    Javascript(Seq<char>),
}

impl View for ContentType {
    type V = ContentTypeView;

    open spec fn view(&self) -> ContentTypeView {
        match self {
            ContentType::NoBody => ContentTypeView::NoBody,
            ContentType::File(path) => ContentTypeView::File(path@),
            ContentType::Multipart(form) => ContentTypeView::Multipart(rows_view(form@)),
            ContentType::Form(form) => ContentTypeView::Form(rows_view(form@)),
            ContentType::Raw(text) => ContentTypeView::Raw(text@),
            ContentType::Json(text) => ContentTypeView::Json(text@),
            ContentType::Xml(text) => ContentTypeView::Xml(text@),
            ContentType::Html(text) => ContentTypeView::Html(text@),
            ContentType::Javascript(text) => ContentTypeView::Javascript(text@),
        }
    }
}

impl Default for ContentType {
    fn default() -> (body: ContentType)
        ensures
            body@ == ContentTypeView::NoBody,
    {
        ContentType::NoBody
    }
}

impl Clone for ContentType {
    fn clone(&self) -> (copy: ContentType)
        ensures
            copy@ == self@,
    {
        match self {
            ContentType::NoBody => ContentType::NoBody,
            ContentType::File(path) => ContentType::File(path.clone()),
            ContentType::Multipart(form) => ContentType::Multipart(clone_rows(form)),
            ContentType::Form(form) => ContentType::Form(clone_rows(form)),
            ContentType::Raw(text) => ContentType::Raw(text.clone()),
            ContentType::Json(text) => ContentType::Json(text.clone()),
            ContentType::Xml(text) => ContentType::Xml(text.clone()),
            ContentType::Html(text) => ContentType::Html(text.clone()),
            ContentType::Javascript(text) => ContentType::Javascript(text.clone()),
        }
    }
}

impl ContentTypeView {
    /// The MIME type that a body of this variant is sent with; empty for no body.
    pub open spec fn mime(self) -> Seq<char> {
        match self {
            ContentTypeView::NoBody => Seq::empty(),
            ContentTypeView::Multipart(_) => "multipart/form-data"@,
            ContentTypeView::Form(_) => "application/x-www-form-urlencoded"@,
            ContentTypeView::Raw(_) => "text/plain"@,
            ContentTypeView::File(_) => "application/octet-stream"@,
            ContentTypeView::Json(_) => "application/json"@,
            ContentTypeView::Xml(_) => "application/xml"@,
            ContentTypeView::Html(_) => "application/html"@,
            ContentTypeView::Javascript(_) => "application/javascript"@,
        }
    }

    /// The body that a MIME type and a text stand for. The two form variants
    /// are not parsed; they and every unknown type give no body.
    pub open spec fn from_mime(mime: Seq<char>, body: Seq<char>) -> ContentTypeView {
        if mime == "application/octet-stream"@ {
            ContentTypeView::File(body)
        } else if mime == "text/plain"@ {
            ContentTypeView::Raw(body)
        } else if mime == "application/json"@ {
            ContentTypeView::Json(body)
        } else if mime == "application/xml"@ {
            ContentTypeView::Xml(body)
        } else if mime == "application/html"@ {
            ContentTypeView::Html(body)
        } else if mime == "application/javascript"@ {
            ContentTypeView::Javascript(body)
        } else {
            ContentTypeView::NoBody
        }
    }

    /// The form of the two form variants.
    pub open spec fn form(self) -> Option<Seq<KeyValueView>> {
        match self {
            ContentTypeView::Multipart(form) | ContentTypeView::Form(form) => Some(form),
            _ => None,
        }
    }

    /// The text of the five text variants.
    pub open spec fn text(self) -> Option<Seq<char>> {
        match self {
            ContentTypeView::Raw(text)
            | ContentTypeView::Json(text)
            | ContentTypeView::Xml(text)
            | ContentTypeView::Html(text)
            | ContentTypeView::Javascript(text) => Some(text),
            _ => None,
        }
    }

    /// The variant that follows in the cycle. A step from one text variant to
    /// the next keeps the text; every other step starts from an empty value.
    pub open spec fn next(self) -> ContentTypeView {
        match self {
            ContentTypeView::NoBody => ContentTypeView::Multipart(Seq::empty()),
            ContentTypeView::Multipart(_) => ContentTypeView::Form(Seq::empty()),
            ContentTypeView::Form(_) => ContentTypeView::File(Seq::empty()),
            ContentTypeView::File(_) => ContentTypeView::Raw(Seq::empty()),
            ContentTypeView::Raw(text) => ContentTypeView::Json(text),
            ContentTypeView::Json(text) => ContentTypeView::Xml(text),
            ContentTypeView::Xml(text) => ContentTypeView::Html(text),
            ContentTypeView::Html(text) => ContentTypeView::Javascript(text),
            ContentTypeView::Javascript(_) => ContentTypeView::NoBody,
        }
    }

    /// `count` steps of the cycle.
    pub open spec fn next_times(self, count: nat) -> ContentTypeView
        decreases count,
    {
        if count == 0 {
            self
        } else {
            self.next().next_times((count - 1) as nat)
        }
    }

    /// The place of the variant in the cycle, from 0 for `NoBody`.
    pub open spec fn position(self) -> int {
        match self {
            ContentTypeView::NoBody => 0,
            ContentTypeView::Multipart(_) => 1,
            ContentTypeView::Form(_) => 2,
            ContentTypeView::File(_) => 3,
            ContentTypeView::Raw(_) => 4,
            ContentTypeView::Json(_) => 5,
            ContentTypeView::Xml(_) => 6,
            ContentTypeView::Html(_) => 7,
            ContentTypeView::Javascript(_) => 8,
        }
    }
}

impl ContentType {
    /// The name shown for the variant.
    pub fn to_string(&self) -> (name: String)
        ensures
            name@ == match self@ {
                ContentTypeView::NoBody => "No Body"@,
                ContentTypeView::File(_) => "File"@,
                ContentTypeView::Multipart(_) => "Multipart"@,
                ContentTypeView::Form(_) => "Form"@,
                ContentTypeView::Raw(_) => "Text"@,
                ContentTypeView::Json(_) => "JSON"@,
                ContentTypeView::Xml(_) => "XML"@,
                ContentTypeView::Html(_) => "HTML"@,
                ContentTypeView::Javascript(_) => "Javascript"@,
            },
    {
        match self {
            ContentType::NoBody => "No Body".to_string(),
            ContentType::File(_) => "File".to_string(),
            ContentType::Multipart(_) => "Multipart".to_string(),
            ContentType::Form(_) => "Form".to_string(),
            ContentType::Raw(_) => "Text".to_string(),
            ContentType::Json(_) => "JSON".to_string(),
            ContentType::Xml(_) => "XML".to_string(),
            ContentType::Html(_) => "HTML".to_string(),
            ContentType::Javascript(_) => "Javascript".to_string(),
        }
    }

    /// The MIME type that the body is sent with; empty for no body.
    pub fn to_content_type(&self) -> (mime: String)
        ensures
            mime@ == self@.mime(),
    {
        match self {
            ContentType::NoBody => String::new(),
            ContentType::Multipart(_) => "multipart/form-data".to_string(),
            ContentType::Form(_) => "application/x-www-form-urlencoded".to_string(),
            ContentType::Raw(_) => "text/plain".to_string(),
            ContentType::File(_) => "application/octet-stream".to_string(),
            ContentType::Json(_) => "application/json".to_string(),
            ContentType::Xml(_) => "application/xml".to_string(),
            ContentType::Html(_) => "application/html".to_string(),
            ContentType::Javascript(_) => "application/javascript".to_string(),
        }
    }

    /// The body that `content_type` and `body` stand for. Form bodies are not
    /// parsed: the two form types, like every unknown type, give `NoBody`.
    pub fn from_content_type(content_type: &str, body: String) -> (parsed: ContentType)
        ensures
            parsed@ == ContentTypeView::from_mime(content_type@, body@),
    {
        if same_text(content_type, "application/octet-stream") {
            ContentType::File(body)
        } else if same_text(content_type, "text/plain") {
            ContentType::Raw(body)
        } else if same_text(content_type, "application/json") {
            ContentType::Json(body)
        } else if same_text(content_type, "application/xml") {
            ContentType::Xml(body)
        } else if same_text(content_type, "application/html") {
            ContentType::Html(body)
        } else if same_text(content_type, "application/javascript") {
            ContentType::Javascript(body)
        } else {
            ContentType::NoBody
        }
    }

    /// The rows of a form body.
    pub fn get_form(&self) -> (form: Option<&Vec<KeyValue>>)
        ensures
            match form {
                Some(rows) => self@.form() == Some(rows_view(rows@)),
                None => self@.form() is None,
            },
    {
        match self {
            ContentType::Multipart(form) | ContentType::Form(form) => Some(form),
            _ => None,
        }
    }

    /// The rows of a form body, to be changed in place: the body keeps its
    /// variant and holds the rows as the caller leaves them.
    pub fn get_form_mut(&mut self) -> (form: Option<&mut Vec<KeyValue>>)
        ensures
            match form {
                Some(rows) => {
                    &&& old(self)@.form() == Some(rows_view(rows@))
                    &&& final(self)@.form() == Some(rows_view(final(rows)@))
                    &&& final(self)@.position() == old(self)@.position()
                },
                None => old(self)@.form() is None && *final(self) == *old(self),
            },
    {
        match self {
            ContentType::Multipart(form) => Some(form),
            ContentType::Form(form) => Some(form),
            _ => None,
        }
    }
}

/// A body that `to_content_type` names is read back as the same variant with
/// the given text, for the file variant and the five text variants.
pub proof fn lemma_mime_round_trip(body: ContentTypeView, text: Seq<char>)
    requires
        body.text() is Some || body is File,
    ensures
        ContentTypeView::from_mime(body.mime(), text).position() == body.position(),
        ContentTypeView::from_mime(body.mime(), text).text() == if body is File {
            None
        } else {
            Some(text)
        },
{
    reveal_strlit("application/octet-stream");
    reveal_strlit("text/plain");
    reveal_strlit("application/json");
    reveal_strlit("application/xml");
    reveal_strlit("application/html");
    reveal_strlit("application/javascript");
    assert("text/plain"@.len() == 10);
    assert("application/octet-stream"@.len() == 24);
    assert("application/json"@.len() == 16);
    assert("application/xml"@.len() == 15);
    assert("application/html"@.len() == 16);
    assert("application/json"@[12] == 'j');
}

/// Nine steps of the cycle lead from `NoBody` back to `NoBody`.
pub proof fn lemma_content_type_cycle_returns_to_no_body()
    ensures
        ContentTypeView::NoBody.next_times(9) == ContentTypeView::NoBody,
{
    reveal_with_fuel(ContentTypeView::next_times, 10);
}

/// Each step of the cycle leads to the next place, and nine steps lead from any
/// variant back to the same variant.
pub proof fn lemma_content_type_cycle_has_period_nine(body: ContentTypeView)
    ensures
        body.next().position() == (body.position() + 1) % 9,
        body.next_times(9).position() == body.position(),
{
    reveal_with_fuel(ContentTypeView::next_times, 10);
}

/// A step between two text variants keeps the text.
pub proof fn lemma_content_type_cycle_keeps_text(body: ContentTypeView)
    requires
        body.text() is Some,
        !(body is Javascript),
    ensures
        body.next().text() == body.text(),
{
}

} // verus!
