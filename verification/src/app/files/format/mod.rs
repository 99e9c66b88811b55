//! How collections and the configuration stand in their files: which fields
//! a record has, how alternatives are tagged, and what is read leniently.
//!
//! A record is read by the names of its fields: their order does not matter,
//! fields that are not known are passed over, and of two fields of one name
//! the first counts. An alternative is written under its tag in snake case:
//! in JSON as a record of one field, in YAML as a tagged value. Both forms are
//! read, whatever the format of the file.

pub mod collection;
pub mod config;
pub mod request;

use crate::app::files::document::{field, fields_view, find_field, Document, DocumentView};
use crate::request::collection::CollectionFileFormat;
use vstd::prelude::*;
use vstd::string::*;

verus! {

/// Why a document is not what it should be.
#[derive(Debug, PartialEq, Eq)]
pub enum FormatError {
    /// A record lacks the field of this name.
    MissingField(String),
    /// This tag names none of the alternatives.
    UnknownVariant(String),
    /// The field of this name, or the whole document where this names what it
    /// should be, has an unexpected shape.
    Unexpected(String),
}

/// What a [`FormatError`] holds, as plain text.
pub enum FormatErrorView {
    MissingField(Seq<char>),
    UnknownVariant(Seq<char>),
    Unexpected(Seq<char>),
}

impl View for FormatError {
    type V = FormatErrorView;

    open spec fn view(&self) -> FormatErrorView {
        match self {
            FormatError::MissingField(name) => FormatErrorView::MissingField(name@),
            FormatError::UnknownVariant(tag) => FormatErrorView::UnknownVariant(tag@),
            FormatError::Unexpected(what) => FormatErrorView::Unexpected(what@),
        }
    }
}

impl FormatError {
    /// The message shown for the error.
    pub fn to_string(&self) -> (message: String)
        ensures
            message@ == match self@ {
                FormatErrorView::MissingField(name) => "missing field `"@ + name + "`"@,
                FormatErrorView::UnknownVariant(tag) => "unknown variant `"@ + tag + "`"@,
                FormatErrorView::Unexpected(what) => "unexpected value for `"@ + what + "`"@,
            },
    {
        let (mut message, name) = match self {
            FormatError::MissingField(name) => ("missing field `".to_string(), name),
            FormatError::UnknownVariant(tag) => ("unknown variant `".to_string(), tag),
            FormatError::Unexpected(what) => ("unexpected value for `".to_string(), what),
        };
        message.append(name.as_str());
        message.append("`");
        message
    }
}

/// An alternative under its tag, in the form of the file format: a record of
/// one field in JSON, a tagged value in YAML.
pub open spec fn tagged(
    file_format: CollectionFileFormat,
    tag: Seq<char>,
    value: DocumentView,
) -> DocumentView {
    match file_format {
        CollectionFileFormat::Json => DocumentView::Record(seq![(tag, value)]),
        CollectionFileFormat::Yaml => DocumentView::Variant(tag, Box::new(value)),
    }
}

/// The value of the field called `name`, which has to be there.
pub open spec fn required(fields: Seq<(Seq<char>, DocumentView)>, name: Seq<char>) -> Result<
    DocumentView,
    FormatErrorView,
> {
    match field(fields, name) {
        Some(value) => Ok(value),
        None => Err(FormatErrorView::MissingField(name)),
    }
}

/// The text that `document` is. `what` names it where it is none.
pub open spec fn text_of(document: DocumentView, what: Seq<char>) -> Result<
    Seq<char>,
    FormatErrorView,
> {
    match document {
        DocumentView::Text(text) => Ok(text),
        _ => Err(FormatErrorView::Unexpected(what)),
    }
}

/// The text of the field called `name`, which has to be there.
pub open spec fn required_text(fields: Seq<(Seq<char>, DocumentView)>, name: Seq<char>) -> Result<
    Seq<char>,
    FormatErrorView,
> {
    match required(fields, name) {
        Ok(value) => text_of(value, name),
        Err(error) => Err(error),
    }
}

/// The truth value of the field called `name`, which has to be there.
pub open spec fn required_bool(fields: Seq<(Seq<char>, DocumentView)>, name: Seq<char>) -> Result<
    bool,
    FormatErrorView,
> {
    match required(fields, name) {
        Ok(DocumentView::Bool(value)) => Ok(value),
        Ok(_) => Err(FormatErrorView::Unexpected(name)),
        Err(error) => Err(error),
    }
}

/// The text of the field called `name`, which may be missing or null.
pub open spec fn optional_text_field(
    fields: Seq<(Seq<char>, DocumentView)>,
    name: Seq<char>,
) -> Result<Option<Seq<char>>, FormatErrorView> {
    match field(fields, name) {
        None => Ok(None),
        Some(DocumentView::Null) => Ok(None),
        Some(DocumentView::Text(text)) => Ok(Some(text)),
        Some(_) => Err(FormatErrorView::Unexpected(name)),
    }
}

/// The truth value of the field called `name`, which may be missing or null.
pub open spec fn optional_bool_field(
    fields: Seq<(Seq<char>, DocumentView)>,
    name: Seq<char>,
) -> Result<Option<bool>, FormatErrorView> {
    match field(fields, name) {
        None => Ok(None),
        Some(DocumentView::Null) => Ok(None),
        Some(DocumentView::Bool(value)) => Ok(Some(value)),
        Some(_) => Err(FormatErrorView::Unexpected(name)),
    }
}

/// What a result of reading holds: the text read, or the error.
pub open spec fn text_result(result: Result<String, FormatError>) -> Result<
    Seq<char>,
    FormatErrorView,
> {
    match result {
        Ok(text) => Ok(text@),
        Err(error) => Err(error@),
    }
}

/// What a result of reading holds: the optional text read, or the error.
pub open spec fn optional_text_result(result: Result<Option<String>, FormatError>) -> Result<
    Option<Seq<char>>,
    FormatErrorView,
> {
    match result {
        Ok(Some(text)) => Ok(Some(text@)),
        Ok(None) => Ok(None),
        Err(error) => Err(error@),
    }
}

/// What a result of reading holds: the truth value read, or the error.
pub open spec fn plain_result<T>(result: Result<T, FormatError>) -> Result<T, FormatErrorView> {
    match result {
        Ok(value) => Ok(value),
        Err(error) => Err(error@),
    }
}

/// An alternative under its tag, in the form of the file format.
pub fn tag_value(file_format: CollectionFileFormat, tag: &str, value: Document) -> (document:
    Document)
    ensures
        document@ == tagged(file_format, tag@, value@),
{
    match file_format {
        CollectionFileFormat::Json => {
            let mut fields: Vec<(String, Document)> = Vec::new();
            fields.push((tag.to_string(), value));
            let document = Document::record(fields);
            assert(document@->Record_0 =~= seq![(tag@, value@)]);
            document
        },
        CollectionFileFormat::Yaml => Document::Variant(tag.to_string(), Box::new(value)),
    }
}

/// The value of the field called `name`, which has to be there.
pub fn read_required<'a>(fields: &'a Vec<(String, Document)>, name: &str) -> (value: Result<
    &'a Document,
    FormatError,
>)
    ensures
        match value {
            Ok(value) => required(fields_view(fields@), name@) == Ok::<
                DocumentView,
                FormatErrorView,
            >(value@),
            Err(error) => required(fields_view(fields@), name@)
                == Err::<DocumentView, FormatErrorView>(error@),
        },
{
    match find_field(fields, name) {
        Some(value) => Ok(value),
        None => Err(FormatError::MissingField(name.to_string())),
    }
}

/// The text that `document` is.
pub fn read_text(document: &Document, what: &str) -> (text: Result<String, FormatError>)
    ensures
        text_result(text) == text_of(document@, what@),
{
    match document {
        Document::Text(text) => Ok(text.clone()),
        _ => Err(FormatError::Unexpected(what.to_string())),
    }
}

/// The text of the field called `name`, which has to be there.
pub fn read_required_text(fields: &Vec<(String, Document)>, name: &str) -> (text: Result<
    String,
    FormatError,
>)
    ensures
        text_result(text) == required_text(
            fields_view(fields@),
            name@,
        ),
{
    match read_required(fields, name) {
        Ok(value) => read_text(value, name),
        Err(error) => Err(error),
    }
}

/// The truth value of the field called `name`, which has to be there.
pub fn read_required_bool(fields: &Vec<(String, Document)>, name: &str) -> (value: Result<
    bool,
    FormatError,
>)
    ensures
        plain_result(value) == required_bool(
            fields_view(fields@),
            name@,
        ),
{
    match read_required(fields, name) {
        Ok(Document::Bool(value)) => Ok(*value),
        Ok(_) => Err(FormatError::Unexpected(name.to_string())),
        Err(error) => Err(error),
    }
}

/// The text of the field called `name`, which may be missing or null.
pub fn read_optional_text(fields: &Vec<(String, Document)>, name: &str) -> (text: Result<
    Option<String>,
    FormatError,
>)
    ensures
        optional_text_result(text) == optional_text_field(
            fields_view(fields@),
            name@,
        ),
{
    match find_field(fields, name) {
        None => Ok(None),
        Some(Document::Null) => Ok(None),
        Some(Document::Text(text)) => Ok(Some(text.clone())),
        Some(_) => Err(FormatError::Unexpected(name.to_string())),
    }
}

/// The truth value of the field called `name`, which may be missing or null.
pub fn read_optional_bool(fields: &Vec<(String, Document)>, name: &str) -> (value: Result<
    Option<bool>,
    FormatError,
>)
    ensures
        plain_result(value) == optional_bool_field(
            fields_view(fields@),
            name@,
        ),
{
    match find_field(fields, name) {
        None => Ok(None),
        Some(Document::Null) => Ok(None),
        Some(Document::Bool(value)) => Ok(Some(*value)),
        Some(_) => Err(FormatError::Unexpected(name.to_string())),
    }
}

} // verus!
