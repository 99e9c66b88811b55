//! How a request stands in a collection file. The outcome of its execution,
//! and whether one is under way, are not written.

use crate::app::files::document::{
    items_view,
    lemma_field_found,
    tagged_value,
    Document,
    DocumentView,
};
use crate::app::files::format::{
    optional_text_field,
    plain_result,
    read_optional_text,
    read_required,
    read_required_bool,
    read_required_text,
    read_text,
    required,
    required_bool,
    required_text,
    tag_value,
    tagged,
    text_of,
    FormatError,
    FormatErrorView,
};
use crate::request::auth::{Auth, AuthView};
use crate::request::body::{ContentType, ContentTypeView};
use crate::request::collection::CollectionFileFormat;
use crate::request::key_value::{rows_view, KeyValue, KeyValueView};
use crate::request::method::Method;
use crate::request::request::{Request, RequestView};
use crate::request::response::{RequestResponse, RequestResponseView};
use crate::request::scripts::{RequestScripts, RequestScriptsView};
use crate::request::settings::RequestSettings;
use crate::utils::text::{optional_text, same_text};
use vstd::prelude::*;
use vstd::string::*;

verus! {

/// What a result of reading holds: what the value read holds, or the error.
pub open spec fn result_view<T: View>(result: Result<T, FormatError>) -> Result<
    T::V,
    FormatErrorView,
> {
    match result {
        Ok(value) => Ok(value@),
        Err(error) => Err(error@),
    }
}

/// What a result of reading rows holds: the rows read, or the error.
pub open spec fn rows_result(result: Result<Vec<KeyValue>, FormatError>) -> Result<
    Seq<KeyValueView>,
    FormatErrorView,
> {
    match result {
        Ok(rows) => Ok(rows_view(rows@)),
        Err(error) => Err(error@),
    }
}

/// A row as it is written: a record of `data`, the list of key and value, and
/// `enabled`.
pub open spec fn key_value_document(row: KeyValueView) -> DocumentView {
    DocumentView::Record(
        seq![
            (
                "data"@,
                DocumentView::List(seq![DocumentView::Text(row.key), DocumentView::Text(row.value)]),
            ),
            ("enabled"@, DocumentView::Bool(row.enabled)),
        ],
    )
}

/// The row that `document` stands for.
pub open spec fn key_value_of(document: DocumentView) -> Result<KeyValueView, FormatErrorView> {
    match document {
        DocumentView::Record(fields) => match required(fields, "data"@) {
            Ok(DocumentView::List(data)) => if data.len() == 2 && data[0] is Text && data[1]
                is Text {
                match required_bool(fields, "enabled"@) {
                    Ok(enabled) => Ok(
                        KeyValueView {
                            key: data[0]->Text_0,
                            value: data[1]->Text_0,
                            enabled: enabled,
                        },
                    ),
                    Err(error) => Err(error),
                }
            } else {
                Err(FormatErrorView::Unexpected("data"@))
            },
            Ok(_) => Err(FormatErrorView::Unexpected("data"@)),
            Err(error) => Err(error),
        },
        _ => Err(FormatErrorView::Unexpected("key_value"@)),
    }
}

/// Rows as they are written: a list of them, in their order.
pub open spec fn rows_document(rows: Seq<KeyValueView>) -> DocumentView {
    DocumentView::List(Seq::new(rows.len(), |i: int| key_value_document(rows[i])))
}

/// The rows that `items` stand for, in their order. The first item that
/// stands for no row decides the error.
pub open spec fn each_row_of(items: Seq<DocumentView>) -> Result<Seq<KeyValueView>, FormatErrorView>
    decreases items.len(),
{
    if items.len() == 0 {
        Ok(Seq::empty())
    } else {
        match each_row_of(items.drop_last()) {
            Ok(rows) => match key_value_of(items.last()) {
                Ok(row) => Ok(rows.push(row)),
                Err(error) => Err(error),
            },
            Err(error) => Err(error),
        }
    }
}

/// The rows that `document` stands for. `what` names it where it is no list.
pub open spec fn rows_of(document: DocumentView, what: Seq<char>) -> Result<
    Seq<KeyValueView>,
    FormatErrorView,
> {
    match document {
        DocumentView::List(items) => each_row_of(items),
        _ => Err(FormatErrorView::Unexpected(what)),
    }
}

/// A row that is written is read back as it was.
pub proof fn lemma_key_value_round_trip(row: KeyValueView)
    ensures
        key_value_of(key_value_document(row)) == Ok::<KeyValueView, FormatErrorView>(row),
{
    reveal_strlit("data");
    reveal_strlit("enabled");
    let fields = key_value_document(row)->Record_0;
    lemma_field_found(fields, "data"@, 0);
    assert("data"@.len() != "enabled"@.len());
    lemma_field_found(fields, "enabled"@, 1);
}

/// Rows that are written are read back as they were.
pub proof fn lemma_rows_round_trip(rows: Seq<KeyValueView>, what: Seq<char>)
    ensures
        rows_of(rows_document(rows), what) == Ok::<Seq<KeyValueView>, FormatErrorView>(rows),
    decreases rows.len(),
{
    let items = rows_document(rows)->List_0;
    if rows.len() == 0 {
        assert(rows =~= Seq::empty());
    } else {
        lemma_rows_round_trip(rows.drop_last(), what);
        assert(items.drop_last() =~= rows_document(rows.drop_last())->List_0);
        lemma_key_value_round_trip(rows.last());
        assert(rows.drop_last().push(rows.last()) =~= rows);
    }
}

impl KeyValue {
    /// The row as it is written.
    pub fn to_document(&self) -> (document: Document)
        ensures
            document@ == key_value_document(self@),
    {
        let mut data: Vec<Document> = Vec::new();
        data.push(Document::text(self.data.0.as_str()));
        data.push(Document::text(self.data.1.as_str()));
        let data = Document::list(data);
        assert(data@->List_0 =~= seq![
            DocumentView::Text(self.data.0@),
            DocumentView::Text(self.data.1@),
        ]);
        let mut fields: Vec<(String, Document)> = Vec::new();
        fields.push(("data".to_string(), data));
        fields.push(("enabled".to_string(), Document::Bool(self.enabled)));
        let document = Document::record(fields);
        assert(document@->Record_0 =~= key_value_document(self@)->Record_0);
        document
    }

    /// The row that `document` stands for.
    pub fn from_document(document: &Document) -> (row: Result<KeyValue, FormatError>)
        ensures
            result_view(row) == key_value_of(document@),
    {
        let fields = match document.as_record() {
            Some(fields) => fields,
            None => {
                return Err(FormatError::Unexpected("key_value".to_string()));
            },
        };
        let data = match read_required(fields, "data")?.as_list() {
            Some(data) => data,
            None => {
                return Err(FormatError::Unexpected("data".to_string()));
            },
        };
        if data.len() != 2 {
            return Err(FormatError::Unexpected("data".to_string()));
        }
        let (key, value) = match (&data[0], &data[1]) {
            (Document::Text(key), Document::Text(value)) => (key.clone(), value.clone()),
            _ => {
                return Err(FormatError::Unexpected("data".to_string()));
            },
        };
        let enabled = read_required_bool(fields, "enabled")?;
        Ok(KeyValue { data: (key, value), enabled })
    }
}

/// The rows as they are written.
pub fn rows_to_document(rows: &Vec<KeyValue>) -> (document: Document)
    ensures
        document@ == rows_document(rows_view(rows@)),
{
    let mut items: Vec<Document> = Vec::new();
    for index in 0..rows.len()
        invariant
            items@.len() == index,
            forall|i: int|
                0 <= i < index ==> (#[trigger] items@[i])@ == key_value_document(rows@[i]@),
    {
        items.push(rows[index].to_document());
    }
    let document = Document::list(items);
    assert(document@->List_0 =~= rows_document(rows_view(rows@))->List_0);
    document
}

/// The rows that `document` stands for.
pub fn rows_from_document(document: &Document, what: &str) -> (rows: Result<
    Vec<KeyValue>,
    FormatError,
>)
    ensures
        rows_result(rows) == rows_of(document@, what@),
{
    let items = match document.as_list() {
        Some(items) => items,
        None => {
            return Err(FormatError::Unexpected(what.to_string()));
        },
    };
    let mut rows: Vec<KeyValue> = Vec::new();
    proof {
        assert(rows_view(rows@) =~= Seq::empty());
    }
    for index in 0..items.len()
        invariant
            document@ == DocumentView::List(items_view(items@)),
            each_row_of(items_view(items@).take(index as int)) == Ok::<
                Seq<KeyValueView>,
                FormatErrorView,
            >(rows_view(rows@)),
    {
        proof {
            let all = items_view(items@);
            assert(all.take(index + 1).drop_last() =~= all.take(index as int));
        }
        match KeyValue::from_document(&items[index]) {
            Ok(row) => {
                let ghost before = rows_view(rows@);
                rows.push(row);
                assert(rows_view(rows@) =~= before.push(row@));
            },
            Err(error) => {
                proof {
                    lemma_first_bad_row_decides(items_view(items@), index as int);
                }
                return Err(error);
            },
        }
    }
    proof {
        assert(items_view(items@).take(items@.len() as int) =~= items_view(items@));
    }
    Ok(rows)
}

/// An authentication as it is written: `no_auth`, or the credentials under
/// the tag `basic_auth` or `bearer_token`.
pub open spec fn auth_document(auth: AuthView, file_format: CollectionFileFormat) -> DocumentView {
    match auth {
        AuthView::NoAuth => DocumentView::Text("no_auth"@),
        AuthView::BasicAuth(username, password) => tagged(
            file_format,
            "basic_auth"@,
            DocumentView::List(seq![DocumentView::Text(username), DocumentView::Text(password)]),
        ),
        AuthView::BearerToken(token) => tagged(
            file_format,
            "bearer_token"@,
            DocumentView::Text(token),
        ),
    }
}

/// The authentication that `document` stands for.
pub open spec fn auth_of(document: DocumentView) -> Result<AuthView, FormatErrorView> {
    match document {
        DocumentView::Text(name) => if name == "no_auth"@ {
            Ok(AuthView::NoAuth)
        } else {
            Err(FormatErrorView::UnknownVariant(name))
        },
        _ => match tagged_value(document) {
            Some((tag, value)) => if tag == "basic_auth"@ {
                match value {
                    DocumentView::List(items) => if items.len() == 2 && items[0] is Text
                        && items[1] is Text {
                        Ok(AuthView::BasicAuth(items[0]->Text_0, items[1]->Text_0))
                    } else {
                        Err(FormatErrorView::Unexpected(tag))
                    },
                    _ => Err(FormatErrorView::Unexpected(tag)),
                }
            } else if tag == "bearer_token"@ {
                match text_of(value, tag) {
                    Ok(token) => Ok(AuthView::BearerToken(token)),
                    Err(error) => Err(error),
                }
            } else {
                Err(FormatErrorView::UnknownVariant(tag))
            },
            None => Err(FormatErrorView::Unexpected("auth"@)),
        },
    }
}

/// An authentication that is written, in either format, is read back as it was.
pub proof fn lemma_auth_round_trip(auth: AuthView, file_format: CollectionFileFormat)
    ensures
        auth_of(auth_document(auth, file_format)) == Ok::<AuthView, FormatErrorView>(auth),
{
    reveal_strlit("basic_auth");
    reveal_strlit("bearer_token");
    assert("basic_auth"@.len() != "bearer_token"@.len());
}

impl Auth {
    /// The authentication as it is written in a file of `file_format`.
    pub fn to_document(&self, file_format: CollectionFileFormat) -> (document: Document)
        ensures
            document@ == auth_document(self@, file_format),
    {
        match self {
            Auth::NoAuth => Document::text("no_auth"),
            Auth::BasicAuth(username, password) => {
                let mut items: Vec<Document> = Vec::new();
                items.push(Document::text(username.as_str()));
                items.push(Document::text(password.as_str()));
                let credentials = Document::list(items);
                assert(credentials@->List_0 =~= seq![
                    DocumentView::Text(username@),
                    DocumentView::Text(password@),
                ]);
                tag_value(file_format, "basic_auth", credentials)
            },
            Auth::BearerToken(token) => tag_value(
                file_format,
                "bearer_token",
                Document::text(token.as_str()),
            ),
        }
    }

    /// The authentication that `document` stands for.
    pub fn from_document(document: &Document) -> (auth: Result<Auth, FormatError>)
        ensures
            result_view(auth) == auth_of(document@),
    {
        if let Document::Text(name) = document {
            return if same_text(name.as_str(), "no_auth") {
                Ok(Auth::NoAuth)
            } else {
                Err(FormatError::UnknownVariant(name.clone()))
            };
        }
        let (tag, value) = match document.as_tagged() {
            Some(tagged) => tagged,
            None => {
                return Err(FormatError::Unexpected("auth".to_string()));
            },
        };
        if same_text(tag.as_str(), "basic_auth") {
            let items = match value.as_list() {
                Some(items) => items,
                None => {
                    return Err(FormatError::Unexpected(tag.clone()));
                },
            };
            if items.len() != 2 {
                return Err(FormatError::Unexpected(tag.clone()));
            }
            match (&items[0], &items[1]) {
                (Document::Text(username), Document::Text(password)) => Ok(
                    Auth::BasicAuth(username.clone(), password.clone()),
                ),
                _ => Err(FormatError::Unexpected(tag.clone())),
            }
        } else if same_text(tag.as_str(), "bearer_token") {
            Ok(Auth::BearerToken(read_text(value, tag.as_str())?))
        } else {
            Err(FormatError::UnknownVariant(tag.clone()))
        }
    }
}

/// The tag under which a body is written; `no_body` stands alone.
pub open spec fn body_tag(body: ContentTypeView) -> Seq<char> {
    match body {
        ContentTypeView::NoBody => "no_body"@,
        ContentTypeView::File(_) => "file"@,
        ContentTypeView::Multipart(_) => "multipart"@,
        ContentTypeView::Form(_) => "form"@,
        ContentTypeView::Raw(_) => "raw"@,
        ContentTypeView::Json(_) => "json"@,
        ContentTypeView::Xml(_) => "xml"@,
        ContentTypeView::Html(_) => "html"@,
        ContentTypeView::Javascript(_) => "javascript"@,
    }
}

/// A body as it is written: `no_body`, or its path, rows or text under the
/// tag of its variant.
pub open spec fn body_document(
    body: ContentTypeView,
    file_format: CollectionFileFormat,
) -> DocumentView {
    match body {
        ContentTypeView::NoBody => DocumentView::Text(body_tag(body)),
        ContentTypeView::Multipart(form) | ContentTypeView::Form(form) => tagged(
            file_format,
            body_tag(body),
            rows_document(form),
        ),
        ContentTypeView::File(text)
        | ContentTypeView::Raw(text)
        | ContentTypeView::Json(text)
        | ContentTypeView::Xml(text)
        | ContentTypeView::Html(text)
        | ContentTypeView::Javascript(text) => tagged(
            file_format,
            body_tag(body),
            DocumentView::Text(text),
        ),
    }
}

/// The body with a text that the tag `tag` stands for.
pub open spec fn text_body(tag: Seq<char>, text: Seq<char>) -> Option<ContentTypeView> {
    if tag == "file"@ {
        Some(ContentTypeView::File(text))
    } else if tag == "raw"@ {
        Some(ContentTypeView::Raw(text))
    } else if tag == "json"@ {
        Some(ContentTypeView::Json(text))
    } else if tag == "xml"@ {
        Some(ContentTypeView::Xml(text))
    } else if tag == "html"@ {
        Some(ContentTypeView::Html(text))
    } else if tag == "javascript"@ {
        Some(ContentTypeView::Javascript(text))
    } else {
        None
    }
}

/// The body that `document` stands for.
pub open spec fn body_of(document: DocumentView) -> Result<ContentTypeView, FormatErrorView> {
    match document {
        DocumentView::Text(name) => if name == "no_body"@ {
            Ok(ContentTypeView::NoBody)
        } else {
            Err(FormatErrorView::UnknownVariant(name))
        },
        _ => match tagged_value(document) {
            Some((tag, value)) => if tag == "multipart"@ {
                match rows_of(value, tag) {
                    Ok(form) => Ok(ContentTypeView::Multipart(form)),
                    Err(error) => Err(error),
                }
            } else if tag == "form"@ {
                match rows_of(value, tag) {
                    Ok(form) => Ok(ContentTypeView::Form(form)),
                    Err(error) => Err(error),
                }
            } else if text_body(tag, Seq::empty()) is Some {
                match text_of(value, tag) {
                    Ok(text) => Ok(text_body(tag, text)->0),
                    Err(error) => Err(error),
                }
            } else {
                Err(FormatErrorView::UnknownVariant(tag))
            },
            None => Err(FormatErrorView::Unexpected("body"@)),
        },
    }
}

/// No two tags of bodies are the same.
proof fn lemma_body_tags_differ()
    ensures
        "multipart"@ != "form"@,
        "file"@ != "multipart"@,
        "file"@ != "form"@,
        "raw"@ != "multipart"@,
        "raw"@ != "form"@,
        "raw"@ != "file"@,
        "json"@ != "multipart"@,
        "json"@ != "form"@,
        "json"@ != "file"@,
        "json"@ != "raw"@,
        "xml"@ != "multipart"@,
        "xml"@ != "form"@,
        "xml"@ != "file"@,
        "xml"@ != "raw"@,
        "xml"@ != "json"@,
        "html"@ != "multipart"@,
        "html"@ != "form"@,
        "html"@ != "file"@,
        "html"@ != "raw"@,
        "html"@ != "json"@,
        "html"@ != "xml"@,
        "javascript"@ != "multipart"@,
        "javascript"@ != "form"@,
        "javascript"@ != "file"@,
        "javascript"@ != "raw"@,
        "javascript"@ != "json"@,
        "javascript"@ != "xml"@,
        "javascript"@ != "html"@,
{
    reveal_strlit("multipart");
    reveal_strlit("form");
    reveal_strlit("file");
    reveal_strlit("raw");
    reveal_strlit("json");
    reveal_strlit("xml");
    reveal_strlit("html");
    reveal_strlit("javascript");
    assert("multipart"@.len() == 9);
    assert("javascript"@.len() == 10);
    assert("form"@[1] == 'o');
    assert("file"@[1] == 'i');
    assert("json"@[0] == 'j');
    assert("html"@[0] == 'h');
    assert("raw"@[0] == 'r');
}

/// A body that is written, in either format, is read back as it was.
pub proof fn lemma_body_round_trip(body: ContentTypeView, file_format: CollectionFileFormat)
    ensures
        body_of(body_document(body, file_format)) == Ok::<ContentTypeView, FormatErrorView>(body),
{
    lemma_body_tags_differ();
    match body {
        ContentTypeView::Multipart(form) | ContentTypeView::Form(form) => {
            lemma_rows_round_trip(form, body_tag(body));
        },
        _ => {},
    }
}

impl ContentType {
    /// The body as it is written in a file of `file_format`.
    pub fn to_document(&self, file_format: CollectionFileFormat) -> (document: Document)
        ensures
            document@ == body_document(self@, file_format),
    {
        match self {
            ContentType::NoBody => Document::text("no_body"),
            ContentType::File(path) => tag_value(file_format, "file", Document::text(path.as_str())),
            ContentType::Multipart(form) => tag_value(
                file_format,
                "multipart",
                rows_to_document(form),
            ),
            ContentType::Form(form) => tag_value(file_format, "form", rows_to_document(form)),
            ContentType::Raw(text) => tag_value(file_format, "raw", Document::text(text.as_str())),
            ContentType::Json(text) => tag_value(file_format, "json", Document::text(text.as_str())),
            ContentType::Xml(text) => tag_value(file_format, "xml", Document::text(text.as_str())),
            ContentType::Html(text) => tag_value(file_format, "html", Document::text(text.as_str())),
            ContentType::Javascript(text) => tag_value(
                file_format,
                "javascript",
                Document::text(text.as_str()),
            ),
        }
    }

    /// The body that `document` stands for.
    pub fn from_document(document: &Document) -> (body: Result<ContentType, FormatError>)
        ensures
            result_view(body) == body_of(document@),
    {
        if let Document::Text(name) = document {
            return if same_text(name.as_str(), "no_body") {
                Ok(ContentType::NoBody)
            } else {
                Err(FormatError::UnknownVariant(name.clone()))
            };
        }
        let (tag, value) = match document.as_tagged() {
            Some(tagged) => tagged,
            None => {
                return Err(FormatError::Unexpected("body".to_string()));
            },
        };
        let tag = tag.as_str();
        if same_text(tag, "multipart") {
            Ok(ContentType::Multipart(rows_from_document(value, tag)?))
        } else if same_text(tag, "form") {
            Ok(ContentType::Form(rows_from_document(value, tag)?))
        } else if same_text(tag, "file") {
            Ok(ContentType::File(read_text(value, tag)?))
        } else if same_text(tag, "raw") {
            Ok(ContentType::Raw(read_text(value, tag)?))
        } else if same_text(tag, "json") {
            Ok(ContentType::Json(read_text(value, tag)?))
        } else if same_text(tag, "xml") {
            Ok(ContentType::Xml(read_text(value, tag)?))
        } else if same_text(tag, "html") {
            Ok(ContentType::Html(read_text(value, tag)?))
        } else if same_text(tag, "javascript") {
            Ok(ContentType::Javascript(read_text(value, tag)?))
        } else {
            Err(FormatError::UnknownVariant(tag.to_string()))
        }
    }
}

/// The method that is written under `name`.
pub open spec fn method_named(name: Seq<char>) -> Option<Method> {
    if name == "GET"@ {
        Some(Method::Get)
    } else if name == "POST"@ {
        Some(Method::Post)
    } else if name == "PUT"@ {
        Some(Method::Put)
    } else if name == "PATCH"@ {
        Some(Method::Patch)
    } else if name == "DELETE"@ {
        Some(Method::Delete)
    } else if name == "OPTIONS"@ {
        Some(Method::Options)
    } else if name == "HEAD"@ {
        Some(Method::Head)
    } else if name == "TRACE"@ {
        Some(Method::Trace)
    } else if name == "CONNECT"@ {
        Some(Method::Connect)
    } else {
        None
    }
}

/// The method that `document` stands for.
pub open spec fn method_of(document: DocumentView) -> Result<Method, FormatErrorView> {
    match document {
        DocumentView::Text(name) => match method_named(name) {
            Some(method) => Ok(method),
            None => Err(FormatErrorView::UnknownVariant(name)),
        },
        _ => Err(FormatErrorView::Unexpected("method"@)),
    }
}

/// A method is found again under its name.
pub proof fn lemma_method_round_trip(method: Method)
    ensures
        method_named(Method::name(method)) == Some(method),
        method_of(DocumentView::Text(Method::name(method))) == Ok::<Method, FormatErrorView>(
            method,
        ),
{
    reveal_strlit("GET");
    reveal_strlit("POST");
    reveal_strlit("PUT");
    reveal_strlit("PATCH");
    reveal_strlit("DELETE");
    reveal_strlit("OPTIONS");
    reveal_strlit("HEAD");
    reveal_strlit("TRACE");
    reveal_strlit("CONNECT");
    assert("GET"@.len() == 3 && "PUT"@.len() == 3);
    assert("POST"@.len() == 4 && "HEAD"@.len() == 4);
    assert("GET"@[0] == 'G' && "PUT"@[0] == 'P');
    assert("POST"@[0] == 'P' && "HEAD"@[0] == 'H');
    assert("PATCH"@[0] == 'P' && "TRACE"@[0] == 'T');
    assert("OPTIONS"@[0] == 'O' && "CONNECT"@[0] == 'C');
}

impl Method {
    /// The method that `document` stands for.
    pub fn from_document(document: &Document) -> (method: Result<Method, FormatError>)
        ensures
            plain_result(method) == method_of(document@),
    {
        let name = match document {
            Document::Text(name) => name.as_str(),
            _ => {
                return Err(FormatError::Unexpected("method".to_string()));
            },
        };
        if same_text(name, "GET") {
            Ok(Method::Get)
        } else if same_text(name, "POST") {
            Ok(Method::Post)
        } else if same_text(name, "PUT") {
            Ok(Method::Put)
        } else if same_text(name, "PATCH") {
            Ok(Method::Patch)
        } else if same_text(name, "DELETE") {
            Ok(Method::Delete)
        } else if same_text(name, "OPTIONS") {
            Ok(Method::Options)
        } else if same_text(name, "HEAD") {
            Ok(Method::Head)
        } else if same_text(name, "TRACE") {
            Ok(Method::Trace)
        } else if same_text(name, "CONNECT") {
            Ok(Method::Connect)
        } else {
            Err(FormatError::UnknownVariant(name.to_string()))
        }
    }
}

/// An optional text as it is written: the text, or null.
pub open spec fn optional_text_document(text: Option<Seq<char>>) -> DocumentView {
    match text {
        Some(text) => DocumentView::Text(text),
        None => DocumentView::Null,
    }
}

/// Scripts as they are written: a record of the two of them.
pub open spec fn scripts_document(scripts: RequestScriptsView) -> DocumentView {
    DocumentView::Record(
        seq![
            ("pre_request_script"@, optional_text_document(scripts.pre_request_script)),
            ("post_request_script"@, optional_text_document(scripts.post_request_script)),
        ],
    )
}

/// The scripts that `document` stands for.
pub open spec fn scripts_of(document: DocumentView) -> Result<RequestScriptsView, FormatErrorView> {
    match document {
        DocumentView::Record(fields) => match optional_text_field(fields, "pre_request_script"@) {
            Ok(pre_request_script) => match optional_text_field(fields, "post_request_script"@) {
                Ok(post_request_script) => Ok(
                    RequestScriptsView {
                        pre_request_script: pre_request_script,
                        post_request_script: post_request_script,
                    },
                ),
                Err(error) => Err(error),
            },
            Err(error) => Err(error),
        },
        _ => Err(FormatErrorView::Unexpected("scripts"@)),
    }
}

/// Scripts that are written are read back as they were.
pub proof fn lemma_scripts_round_trip(scripts: RequestScriptsView)
    ensures
        scripts_of(scripts_document(scripts)) == Ok::<RequestScriptsView, FormatErrorView>(
            scripts,
        ),
{
    reveal_strlit("pre_request_script");
    reveal_strlit("post_request_script");
    let fields = scripts_document(scripts)->Record_0;
    lemma_field_found(fields, "pre_request_script"@, 0);
    assert("pre_request_script"@.len() != "post_request_script"@.len());
    lemma_field_found(fields, "post_request_script"@, 1);
}

/// An optional text as it is written.
fn optional_text_to_document(text: &Option<String>) -> (document: Document)
    ensures
        document@ == optional_text_document(optional_text(*text)),
{
    match text {
        Some(text) => Document::text(text.as_str()),
        None => Document::Null,
    }
}

impl RequestScripts {
    /// The scripts as they are written.
    pub fn to_document(&self) -> (document: Document)
        ensures
            document@ == scripts_document(self@),
    {
        let mut fields: Vec<(String, Document)> = Vec::new();
        fields.push(
            ("pre_request_script".to_string(), optional_text_to_document(&self.pre_request_script)),
        );
        fields.push(
            (
                "post_request_script".to_string(),
                optional_text_to_document(&self.post_request_script),
            ),
        );
        let document = Document::record(fields);
        assert(document@->Record_0 =~= scripts_document(self@)->Record_0);
        document
    }

    /// The scripts that `document` stands for.
    pub fn from_document(document: &Document) -> (scripts: Result<RequestScripts, FormatError>)
        ensures
            result_view(scripts) == scripts_of(document@),
    {
        let fields = match document.as_record() {
            Some(fields) => fields,
            None => {
                return Err(FormatError::Unexpected("scripts".to_string()));
            },
        };
        let pre_request_script = read_optional_text(fields, "pre_request_script")?;
        let post_request_script = read_optional_text(fields, "post_request_script")?;
        Ok(RequestScripts { pre_request_script, post_request_script })
    }
}

/// Settings as they are written: a record of the four of them.
pub open spec fn settings_document(settings: RequestSettings) -> DocumentView {
    DocumentView::Record(
        seq![
            ("use_config_proxy"@, DocumentView::Bool(settings.use_config_proxy)),
            ("allow_redirects"@, DocumentView::Bool(settings.allow_redirects)),
            ("store_received_cookies"@, DocumentView::Bool(settings.store_received_cookies)),
            (
                "pretty_print_response_content"@,
                DocumentView::Bool(settings.pretty_print_response_content),
            ),
        ],
    )
}

/// The settings that `document` stands for.
pub open spec fn settings_of(document: DocumentView) -> Result<RequestSettings, FormatErrorView> {
    match document {
        DocumentView::Record(fields) => match required_bool(fields, "use_config_proxy"@) {
            Ok(use_config_proxy) => match required_bool(fields, "allow_redirects"@) {
                Ok(allow_redirects) => match required_bool(fields, "store_received_cookies"@) {
                    Ok(store_received_cookies) => match required_bool(
                        fields,
                        "pretty_print_response_content"@,
                    ) {
                        Ok(pretty_print_response_content) => Ok(
                            RequestSettings {
                                use_config_proxy: use_config_proxy,
                                allow_redirects: allow_redirects,
                                store_received_cookies: store_received_cookies,
                                pretty_print_response_content: pretty_print_response_content,
                            },
                        ),
                        Err(error) => Err(error),
                    },
                    Err(error) => Err(error),
                },
                Err(error) => Err(error),
            },
            Err(error) => Err(error),
        },
        _ => Err(FormatErrorView::Unexpected("settings"@)),
    }
}

/// Settings that are written are read back as they were.
pub proof fn lemma_settings_round_trip(settings: RequestSettings)
    ensures
        settings_of(settings_document(settings)) == Ok::<RequestSettings, FormatErrorView>(
            settings,
        ),
{
    reveal_strlit("use_config_proxy");
    reveal_strlit("allow_redirects");
    reveal_strlit("store_received_cookies");
    reveal_strlit("pretty_print_response_content");
    assert("use_config_proxy"@.len() == 16);
    assert("allow_redirects"@.len() == 15);
    assert("store_received_cookies"@.len() == 22);
    let fields = settings_document(settings)->Record_0;
    lemma_field_found(fields, "use_config_proxy"@, 0);
    lemma_field_found(fields, "allow_redirects"@, 1);
    lemma_field_found(fields, "store_received_cookies"@, 2);
    lemma_field_found(fields, "pretty_print_response_content"@, 3);
}

impl RequestSettings {
    /// The settings as they are written.
    pub fn to_document(&self) -> (document: Document)
        ensures
            document@ == settings_document(*self),
    {
        let mut fields: Vec<(String, Document)> = Vec::new();
        fields.push(("use_config_proxy".to_string(), Document::Bool(self.use_config_proxy)));
        fields.push(("allow_redirects".to_string(), Document::Bool(self.allow_redirects)));
        fields.push(
            ("store_received_cookies".to_string(), Document::Bool(self.store_received_cookies)),
        );
        fields.push(
            (
                "pretty_print_response_content".to_string(),
                Document::Bool(self.pretty_print_response_content),
            ),
        );
        let document = Document::record(fields);
        assert(document@->Record_0 =~= settings_document(*self)->Record_0);
        document
    }

    /// The settings that `document` stands for.
    pub fn from_document(document: &Document) -> (settings: Result<RequestSettings, FormatError>)
        ensures
            plain_result(settings) == settings_of(document@),
    {
        let fields = match document.as_record() {
            Some(fields) => fields,
            None => {
                return Err(FormatError::Unexpected("settings".to_string()));
            },
        };
        let use_config_proxy = read_required_bool(fields, "use_config_proxy")?;
        let allow_redirects = read_required_bool(fields, "allow_redirects")?;
        let store_received_cookies = read_required_bool(fields, "store_received_cookies")?;
        let pretty_print_response_content = read_required_bool(
            fields,
            "pretty_print_response_content",
        )?;
        Ok(
            RequestSettings {
                use_config_proxy,
                allow_redirects,
                store_received_cookies,
                pretty_print_response_content,
            },
        )
    }
}

/// A request as it is written in a file of `file_format`: a record of
/// everything but the outcome of its execution.
pub open spec fn request_document(
    request: RequestView,
    file_format: CollectionFileFormat,
) -> DocumentView {
    DocumentView::Record(
        seq![
            ("name"@, DocumentView::Text(request.name)),
            ("url"@, DocumentView::Text(request.url)),
            ("method"@, DocumentView::Text(Method::name(request.method))),
            ("params"@, rows_document(request.params)),
            ("headers"@, rows_document(request.headers)),
            ("body"@, body_document(request.body, file_format)),
            ("auth"@, auth_document(request.auth, file_format)),
            ("scripts"@, scripts_document(request.scripts)),
            ("settings"@, settings_document(request.settings)),
        ],
    )
}

/// The value of the field called `name`, read by `read`.
pub open spec fn required_with<T>(
    fields: Seq<(Seq<char>, DocumentView)>,
    name: Seq<char>,
    read: spec_fn(DocumentView) -> Result<T, FormatErrorView>,
) -> Result<T, FormatErrorView> {
    match required(fields, name) {
        Ok(value) => read(value),
        Err(error) => Err(error),
    }
}

/// The request that `document` stands for, not executed. The fields are read
/// in the order in which they are written; the first that fails decides the
/// error.
pub open spec fn request_of(document: DocumentView) -> Result<RequestView, FormatErrorView> {
    match document {
        DocumentView::Record(fields) => {
            let name = required_text(fields, "name"@);
            let url = required_text(fields, "url"@);
            let method = required_with(fields, "method"@, |value| method_of(value));
            let params = required_with(fields, "params"@, |value| rows_of(value, "params"@));
            let headers = required_with(fields, "headers"@, |value| rows_of(value, "headers"@));
            let body = required_with(fields, "body"@, |value| body_of(value));
            let auth = required_with(fields, "auth"@, |value| auth_of(value));
            let scripts = required_with(fields, "scripts"@, |value| scripts_of(value));
            let settings = required_with(fields, "settings"@, |value| settings_of(value));
            if name is Err {
                Err(name->Err_0)
            } else if url is Err {
                Err(url->Err_0)
            } else if method is Err {
                Err(method->Err_0)
            } else if params is Err {
                Err(params->Err_0)
            } else if headers is Err {
                Err(headers->Err_0)
            } else if body is Err {
                Err(body->Err_0)
            } else if auth is Err {
                Err(auth->Err_0)
            } else if scripts is Err {
                Err(scripts->Err_0)
            } else if settings is Err {
                Err(settings->Err_0)
            } else {
                Ok(
                    RequestView {
                        name: name->Ok_0,
                        url: url->Ok_0,
                        method: method->Ok_0,
                        params: params->Ok_0,
                        headers: headers->Ok_0,
                        body: body->Ok_0,
                        auth: auth->Ok_0,
                        scripts: scripts->Ok_0,
                        settings: settings->Ok_0,
                        response: RequestResponseView::empty(),
                        is_pending: false,
                    },
                )
            }
        },
        _ => Err(FormatErrorView::Unexpected("request"@)),
    }
}

/// No two fields of a request have the same name.
proof fn lemma_request_fields_differ()
    ensures
        "url"@ != "name"@,
        "method"@ != "name"@,
        "method"@ != "url"@,
        "params"@ != "name"@,
        "params"@ != "url"@,
        "params"@ != "method"@,
        "headers"@ != "name"@,
        "headers"@ != "url"@,
        "headers"@ != "method"@,
        "headers"@ != "params"@,
        "body"@ != "name"@,
        "body"@ != "url"@,
        "body"@ != "method"@,
        "body"@ != "params"@,
        "body"@ != "headers"@,
        "auth"@ != "name"@,
        "auth"@ != "url"@,
        "auth"@ != "method"@,
        "auth"@ != "params"@,
        "auth"@ != "headers"@,
        "auth"@ != "body"@,
        "scripts"@ != "name"@,
        "scripts"@ != "url"@,
        "scripts"@ != "method"@,
        "scripts"@ != "params"@,
        "scripts"@ != "headers"@,
        "scripts"@ != "body"@,
        "scripts"@ != "auth"@,
        "settings"@ != "name"@,
        "settings"@ != "url"@,
        "settings"@ != "method"@,
        "settings"@ != "params"@,
        "settings"@ != "headers"@,
        "settings"@ != "body"@,
        "settings"@ != "auth"@,
        "settings"@ != "scripts"@,
{
    reveal_strlit("name");
    reveal_strlit("url");
    reveal_strlit("method");
    reveal_strlit("params");
    reveal_strlit("headers");
    reveal_strlit("body");
    reveal_strlit("auth");
    reveal_strlit("scripts");
    reveal_strlit("settings");
    assert("url"@.len() == 3);
    assert("headers"@.len() == 7 && "scripts"@.len() == 7);
    assert("name"@[0] == 'n' && "body"@[0] == 'b' && "auth"@[0] == 'a');
    assert("method"@[0] == 'm' && "params"@[0] == 'p');
    assert("headers"@[0] == 'h' && "scripts"@[0] == 's');
}

/// A request that is written, in either format, is read back as it was
/// written: with everything but the outcome of its execution.
pub proof fn lemma_request_round_trip(request: RequestView, file_format: CollectionFileFormat)
    ensures
        request_of(request_document(request, file_format)) == Ok::<RequestView, FormatErrorView>(
            request.persisted(),
        ),
{
    lemma_request_fields_differ();
    let fields = request_document(request, file_format)->Record_0;
    lemma_field_found(fields, "name"@, 0);
    lemma_field_found(fields, "url"@, 1);
    lemma_field_found(fields, "method"@, 2);
    lemma_field_found(fields, "params"@, 3);
    lemma_field_found(fields, "headers"@, 4);
    lemma_field_found(fields, "body"@, 5);
    lemma_field_found(fields, "auth"@, 6);
    lemma_field_found(fields, "scripts"@, 7);
    lemma_field_found(fields, "settings"@, 8);
    lemma_method_round_trip(request.method);
    lemma_rows_round_trip(request.params, "params"@);
    lemma_rows_round_trip(request.headers, "headers"@);
    lemma_body_round_trip(request.body, file_format);
    lemma_auth_round_trip(request.auth, file_format);
    lemma_scripts_round_trip(request.scripts);
    lemma_settings_round_trip(request.settings);
}

impl Request {
    /// The request as it is written in a file of `file_format`.
    pub fn to_document(&self, file_format: CollectionFileFormat) -> (document: Document)
        ensures
            document@ == request_document(self@, file_format),
    {
        let mut fields: Vec<(String, Document)> = Vec::new();
        fields.push(("name".to_string(), Document::text(self.name.as_str())));
        fields.push(("url".to_string(), Document::text(self.url.as_str())));
        fields.push(("method".to_string(), Document::text(self.method.to_string().as_str())));
        fields.push(("params".to_string(), rows_to_document(&self.params)));
        fields.push(("headers".to_string(), rows_to_document(&self.headers)));
        fields.push(("body".to_string(), self.body.to_document(file_format)));
        fields.push(("auth".to_string(), self.auth.to_document(file_format)));
        fields.push(("scripts".to_string(), self.scripts.to_document()));
        fields.push(("settings".to_string(), self.settings.to_document()));
        let document = Document::record(fields);
        assert(document@->Record_0 =~= request_document(self@, file_format)->Record_0);
        document
    }

    /// The request that `document` stands for, not executed.
    pub fn from_document(document: &Document) -> (request: Result<Request, FormatError>)
        ensures
            result_view(request) == request_of(document@),
    {
        let fields = match document.as_record() {
            Some(fields) => fields,
            None => {
                return Err(FormatError::Unexpected("request".to_string()));
            },
        };
        let name = read_required_text(fields, "name")?;
        let url = read_required_text(fields, "url")?;
        let method = Method::from_document(read_required(fields, "method")?)?;
        let params = rows_from_document(read_required(fields, "params")?, "params")?;
        let headers = rows_from_document(read_required(fields, "headers")?, "headers")?;
        let body = ContentType::from_document(read_required(fields, "body")?)?;
        let auth = Auth::from_document(read_required(fields, "auth")?)?;
        let scripts = RequestScripts::from_document(read_required(fields, "scripts")?)?;
        let settings = RequestSettings::from_document(read_required(fields, "settings")?)?;
        Ok(
            Request {
                name,
                url,
                method,
                params,
                headers,
                body,
                auth,
                scripts,
                settings,
                response: RequestResponse::default(),
                is_pending: false,
            },
        )
    }
}

/// Where the items before `index` stand for rows and the one at `index` does
/// not, its error is the error of the whole.
proof fn lemma_first_bad_row_decides(items: Seq<DocumentView>, index: int)
    requires
        0 <= index < items.len(),
        each_row_of(items.take(index)) is Ok,
        key_value_of(items[index]) is Err,
    ensures
        each_row_of(items) == Err::<Seq<KeyValueView>, FormatErrorView>(
            key_value_of(items[index])->Err_0,
        ),
    decreases items.len(),
{
    if index < items.len() - 1 {
        assert(items.drop_last().take(index) =~= items.take(index));
        lemma_first_bad_row_decides(items.drop_last(), index);
    }
}

} // verus!
