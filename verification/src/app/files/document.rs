//! The tree of values that a file holds, whatever its syntax: JSON, YAML and
//! TOML are all read into it, and JSON and YAML are written from it.

use crate::utils::text::same_text;
use vstd::prelude::*;

verus! {

#[derive(Debug, PartialEq, Eq)]
pub enum Document {
    Null,
    Bool(bool),
    /// A number, as it is written.
    Number(String),
    Text(String),
    List(Vec<Document>),
    /// Names and values, in the order of the file.
    Record(Vec<(String, Document)>),
    /// A value under a tag that says which of several alternatives it is.
    Variant(String, Box<Document>),
}

/// What a [`Document`] holds, as plain values.
pub enum DocumentView {
    Null,
    Bool(bool),
    Number(Seq<char>),
    Text(Seq<char>),
    List(Seq<DocumentView>),
    Record(Seq<(Seq<char>, DocumentView)>),
    Variant(Seq<char>, Box<DocumentView>),
}

/// What `document` holds.
pub open spec fn document_view(document: Document) -> DocumentView
    decreases document,
{
    match document {
        Document::Null => DocumentView::Null,
        Document::Bool(value) => DocumentView::Bool(value),
        Document::Number(text) => DocumentView::Number(text@),
        Document::Text(text) => DocumentView::Text(text@),
        Document::List(items) => DocumentView::List(
            Seq::new(
                items@.len(),
                |i: int|
                    if 0 <= i < items@.len() {
                        document_view(items@[i])
                    } else {
                        DocumentView::Null
                    },
            ),
        ),
        Document::Record(fields) => DocumentView::Record(
            Seq::new(
                fields@.len(),
                |i: int|
                    if 0 <= i < fields@.len() {
                        (fields@[i].0@, document_view(fields@[i].1))
                    } else {
                        (Seq::empty(), DocumentView::Null)
                    },
            ),
        ),
        Document::Variant(tag, value) => DocumentView::Variant(
            tag@,
            Box::new(document_view(*value)),
        ),
    }
}

impl View for Document {
    type V = DocumentView;

    open spec fn view(&self) -> DocumentView {
        document_view(*self)
    }
}

/// What a sequence of documents holds, one by one.
pub open spec fn items_view(items: Seq<Document>) -> Seq<DocumentView> {
    Seq::new(items.len(), |i: int| items[i]@)
}

/// What a sequence of named documents holds, one by one.
pub open spec fn fields_view(fields: Seq<(String, Document)>) -> Seq<(Seq<char>, DocumentView)> {
    Seq::new(fields.len(), |i: int| (fields[i].0@, fields[i].1@))
}

/// A list holds what its items hold, and a record what its fields hold.
pub proof fn lemma_view_of_items_and_fields(document: Document)
    ensures
        document matches Document::List(items) ==> document@ == DocumentView::List(
            items_view(items@),
        ),
        document matches Document::Record(fields) ==> document@ == DocumentView::Record(
            fields_view(fields@),
        ),
{
    match document {
        Document::List(items) => {
            assert(document@->List_0 =~= items_view(items@));
        },
        Document::Record(fields) => {
            assert(document@->Record_0 =~= fields_view(fields@));
        },
        _ => {},
    }
}

/// The value of the first field called `name`.
pub open spec fn field(fields: Seq<(Seq<char>, DocumentView)>, name: Seq<char>) -> Option<
    DocumentView,
>
    decreases fields.len(),
{
    if fields.len() == 0 {
        None
    } else if fields[0].0 == name {
        Some(fields[0].1)
    } else {
        field(fields.drop_first(), name)
    }
}

/// The field at `index` is the one that `field` finds under its name, where no
/// field before it has that name.
pub proof fn lemma_field_found(fields: Seq<(Seq<char>, DocumentView)>, name: Seq<char>, index: int)
    requires
        0 <= index < fields.len(),
        fields[index].0 == name,
        forall|before: int| 0 <= before < index ==> (#[trigger] fields[before]).0 != name,
    ensures
        field(fields, name) == Some(fields[index].1),
    decreases index,
{
    if index > 0 {
        let rest = fields.drop_first();
        lemma_field_found(rest, name, index - 1);
    }
}

/// The tag and the value of a document that stands for one of several
/// alternatives: a variant, or a record of one field, whose name is the tag.
pub open spec fn tagged_value(document: DocumentView) -> Option<(Seq<char>, DocumentView)> {
    match document {
        DocumentView::Variant(tag, value) => Some((tag, *value)),
        DocumentView::Record(fields) => if fields.len() == 1 {
            Some(fields[0])
        } else {
            None
        },
        _ => None,
    }
}

impl Document {
    /// A text.
    pub fn text(value: &str) -> (document: Document)
        ensures
            document@ == DocumentView::Text(value@),
    {
        Document::Text(value.to_string())
    }

    /// A list of `items`.
    pub fn list(items: Vec<Document>) -> (document: Document)
        ensures
            document@ == DocumentView::List(items_view(items@)),
    {
        let document = Document::List(items);
        proof {
            lemma_view_of_items_and_fields(document);
        }
        document
    }

    /// A record of `fields`.
    pub fn record(fields: Vec<(String, Document)>) -> (document: Document)
        ensures
            document@ == DocumentView::Record(fields_view(fields@)),
    {
        let document = Document::Record(fields);
        proof {
            lemma_view_of_items_and_fields(document);
        }
        document
    }

    /// The items of a list.
    pub fn as_list(&self) -> (items: Option<&Vec<Document>>)
        ensures
            match items {
                Some(items) => self@ == DocumentView::List(items_view(items@)),
                None => !(self@ is List),
            },
    {
        proof {
            lemma_view_of_items_and_fields(*self);
        }
        match self {
            Document::List(items) => Some(items),
            _ => None,
        }
    }

    /// The fields of a record.
    pub fn as_record(&self) -> (fields: Option<&Vec<(String, Document)>>)
        ensures
            match fields {
                Some(fields) => self@ == DocumentView::Record(fields_view(fields@)),
                None => !(self@ is Record),
            },
    {
        proof {
            lemma_view_of_items_and_fields(*self);
        }
        match self {
            Document::Record(fields) => Some(fields),
            _ => None,
        }
    }

    /// Tag and value of a document that stands for one of several alternatives.
    pub fn as_tagged(&self) -> (tagged: Option<(&String, &Document)>)
        ensures
            match tagged {
                Some((tag, value)) => tagged_value(self@) == Some((tag@, value@)),
                None => tagged_value(self@) is None,
            },
    {
        match self {
            Document::Variant(tag, value) => Some((tag, &**value)),
            Document::Record(fields) => {
                if fields.len() == 1 {
                    Some((&fields[0].0, &fields[0].1))
                } else {
                    None
                }
            },
            _ => None,
        }
    }
}

/// The value of the first of `fields` that is called `name`.
pub fn find_field<'a>(fields: &'a Vec<(String, Document)>, name: &str) -> (found: Option<
    &'a Document,
>)
    ensures
        match found {
            Some(value) => field(fields_view(fields@), name@) == Some(value@),
            None => field(fields_view(fields@), name@) is None,
        },
{
    let ghost all = fields_view(fields@);
    let mut index: usize = 0;
    proof {
        assert(all.skip(0) =~= all);
    }
    while index < fields.len()
        invariant
            index <= fields@.len(),
            all == fields_view(fields@),
            field(all, name@) == field(all.skip(index as int), name@),
        decreases fields@.len() - index,
    {
        proof {
            let rest = all.skip(index as int);
            assert(rest.drop_first() =~= all.skip(index + 1));
        }
        if same_text(fields[index].0.as_str(), name) {
            return Some(&fields[index].1);
        }
        index += 1;
    }
    None
}

} // verus!
