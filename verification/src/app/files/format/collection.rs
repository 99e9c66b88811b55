//! How a collection stands in its file: a record of its name and its
//! requests. Where it is saved, and in which format, is not written.

use crate::app::files::document::{
    fields_view,
    items_view,
    lemma_field_found,
    Document,
    DocumentView,
};
use crate::app::files::format::request::{
    lemma_request_round_trip,
    request_document,
    request_of,
};
use crate::app::files::format::{
    read_required,
    read_required_text,
    required,
    required_text,
    FormatError,
    FormatErrorView,
};
use crate::request::collection::{Collection, CollectionFileFormat, RequestHandle};
use crate::request::request::{Request, RequestView};
use crate::utils::shared::{read_with, share};
use vstd::prelude::*;
use vstd::string::*;

verus! {

/// What a sequence of requests holds, one by one.
pub open spec fn requests_view(requests: Seq<Request>) -> Seq<RequestView> {
    Seq::new(requests.len(), |i: int| requests[i]@)
}

/// The requests as they are saved, one by one.
pub open spec fn persisted(requests: Seq<RequestView>) -> Seq<RequestView> {
    Seq::new(requests.len(), |i: int| requests[i].persisted())
}

/// Requests as they are written in a file of `file_format`: a list of them,
/// in their order.
pub open spec fn requests_document(
    requests: Seq<RequestView>,
    file_format: CollectionFileFormat,
) -> DocumentView {
    DocumentView::List(
        Seq::new(requests.len(), |i: int| request_document(requests[i], file_format)),
    )
}

/// The requests that `items` stand for, in their order. The first item that
/// stands for no request decides the error.
pub open spec fn each_request_of(items: Seq<DocumentView>) -> Result<
    Seq<RequestView>,
    FormatErrorView,
>
    decreases items.len(),
{
    if items.len() == 0 {
        Ok(Seq::empty())
    } else {
        match each_request_of(items.drop_last()) {
            Ok(requests) => match request_of(items.last()) {
                Ok(request) => Ok(requests.push(request)),
                Err(error) => Err(error),
            },
            Err(error) => Err(error),
        }
    }
}

/// A collection as it is written in a file of `file_format`: a record of its
/// name and its requests.
pub open spec fn collection_document(
    name: Seq<char>,
    requests: Seq<RequestView>,
    file_format: CollectionFileFormat,
) -> DocumentView {
    DocumentView::Record(
        seq![
            ("name"@, DocumentView::Text(name)),
            ("requests"@, requests_document(requests, file_format)),
        ],
    )
}

/// Name and requests of the collection that `document` stands for.
pub open spec fn collection_of(document: DocumentView) -> Result<
    (Seq<char>, Seq<RequestView>),
    FormatErrorView,
> {
    match document {
        DocumentView::Record(fields) => match required_text(fields, "name"@) {
            Ok(name) => match required(fields, "requests"@) {
                Ok(DocumentView::List(items)) => match each_request_of(items) {
                    Ok(requests) => Ok((name, requests)),
                    Err(error) => Err(error),
                },
                Ok(_) => Err(FormatErrorView::Unexpected("requests"@)),
                Err(error) => Err(error),
            },
            Err(error) => Err(error),
        },
        _ => Err(FormatErrorView::Unexpected("collection"@)),
    }
}

/// Requests that are written, in either format, are read back as they were
/// written: each with everything but the outcome of its execution.
pub proof fn lemma_requests_round_trip(
    requests: Seq<RequestView>,
    file_format: CollectionFileFormat,
)
    ensures
        each_request_of(requests_document(requests, file_format)->List_0) == Ok::<
            Seq<RequestView>,
            FormatErrorView,
        >(persisted(requests)),
    decreases requests.len(),
{
    let items = requests_document(requests, file_format)->List_0;
    if requests.len() == 0 {
        assert(persisted(requests) =~= Seq::empty());
    } else {
        lemma_requests_round_trip(requests.drop_last(), file_format);
        assert(items.drop_last() =~= requests_document(requests.drop_last(), file_format)->List_0);
        lemma_request_round_trip(requests.last(), file_format);
        assert(persisted(requests.drop_last()).push(requests.last().persisted()) =~= persisted(
            requests,
        ));
    }
}

/// Saving and loading give back what was saved: a collection that is written
/// to a file, in either format, is read back with its name and, in their
/// order, its requests, each with everything that it holds but the outcome of
/// its execution, which is empty, and no execution under way.
pub proof fn lemma_collection_round_trip(
    name: Seq<char>,
    requests: Seq<RequestView>,
    file_format: CollectionFileFormat,
)
    ensures
        collection_of(collection_document(name, requests, file_format)) == Ok::<
            (Seq<char>, Seq<RequestView>),
            FormatErrorView,
        >((name, persisted(requests))),
{
    reveal_strlit("name");
    reveal_strlit("requests");
    assert("name"@.len() != "requests"@.len());
    let fields = collection_document(name, requests, file_format)->Record_0;
    lemma_field_found(fields, "name"@, 0);
    lemma_field_found(fields, "requests"@, 1);
    lemma_requests_round_trip(requests, file_format);
}

/// Where the items before `index` stand for requests and the one at `index`
/// does not, its error is the error of the whole.
proof fn lemma_first_bad_request_decides(items: Seq<DocumentView>, index: int)
    requires
        0 <= index < items.len(),
        each_request_of(items.take(index)) is Ok,
        request_of(items[index]) is Err,
    ensures
        each_request_of(items) == Err::<Seq<RequestView>, FormatErrorView>(
            request_of(items[index])->Err_0,
        ),
    decreases items.len(),
{
    if index < items.len() - 1 {
        assert(items.drop_last().take(index) =~= items.take(index));
        lemma_first_bad_request_decides(items.drop_last(), index);
    }
}

/// A collection called `name` that holds `requests`, as it is written in a
/// file of `file_format`.
pub fn collection_to_document(
    name: &str,
    requests: &Vec<Request>,
    file_format: CollectionFileFormat,
) -> (document: Document)
    ensures
        document@ == collection_document(name@, requests_view(requests@), file_format),
{
    let mut items: Vec<Document> = Vec::new();
    for index in 0..requests.len()
        invariant
            items@.len() == index,
            forall|i: int|
                0 <= i < index ==> (#[trigger] items@[i])@ == request_document(
                    requests@[i]@,
                    file_format,
                ),
    {
        items.push(requests[index].to_document(file_format));
    }
    let items = Document::list(items);
    assert(items@->List_0 =~= requests_document(requests_view(requests@), file_format)->List_0);
    let mut fields: Vec<(String, Document)> = Vec::new();
    fields.push(("name".to_string(), Document::text(name)));
    fields.push(("requests".to_string(), items));
    let document = Document::record(fields);
    assert(document@->Record_0 =~= collection_document(
        name@,
        requests_view(requests@),
        file_format,
    )->Record_0);
    document
}

/// What a result of reading a collection holds: its name and what its
/// requests hold, or the error.
pub open spec fn collection_result(result: Result<(String, Vec<Request>), FormatError>) -> Result<
    (Seq<char>, Seq<RequestView>),
    FormatErrorView,
> {
    match result {
        Ok((name, requests)) => Ok((name@, requests_view(requests@))),
        Err(error) => Err(error@),
    }
}

/// Name and requests of the collection that `document` stands for.
pub fn collection_from_document(document: &Document) -> (collection: Result<
    (String, Vec<Request>),
    FormatError,
>)
    ensures
        collection_result(collection) == collection_of(document@),
{
    let fields = match document.as_record() {
        Some(fields) => fields,
        None => {
            return Err(FormatError::Unexpected("collection".to_string()));
        },
    };
    let name = read_required_text(fields, "name")?;
    let items = match read_required(fields, "requests")?.as_list() {
        Some(items) => items,
        None => {
            return Err(FormatError::Unexpected("requests".to_string()));
        },
    };
    let mut requests: Vec<Request> = Vec::new();
    proof {
        assert(requests_view(requests@) =~= Seq::empty());
    }
    for index in 0..items.len()
        invariant
            document@ == DocumentView::Record(fields_view(fields@)),
            required_text(fields_view(fields@), "name"@) == Ok::<Seq<char>, FormatErrorView>(
                name@,
            ),
            required(fields_view(fields@), "requests"@) == Ok::<DocumentView, FormatErrorView>(
                DocumentView::List(items_view(items@)),
            ),
            each_request_of(items_view(items@).take(index as int)) == Ok::<
                Seq<RequestView>,
                FormatErrorView,
            >(requests_view(requests@)),
    {
        proof {
            let all = items_view(items@);
            assert(all.take(index + 1).drop_last() =~= all.take(index as int));
        }
        match Request::from_document(&items[index]) {
            Ok(request) => {
                let ghost before = requests_view(requests@);
                requests.push(request);
                assert(requests_view(requests@) =~= before.push(request@));
            },
            Err(error) => {
                proof {
                    lemma_first_bad_request_decides(items_view(items@), index as int);
                }
                return Err(error);
            },
        }
    }
    proof {
        assert(items_view(items@).take(items@.len() as int) =~= items_view(items@));
    }
    Ok((name, requests))
}

impl Collection {
    /// The requests of the collection as they are at this moment, each read
    /// on its own while no holder can change it.
    pub fn snapshot(&self) -> (requests: Vec<Request>)
        ensures
            requests@.len() == self.requests@.len(),
    {
        let mut requests: Vec<Request> = Vec::new();
        for index in 0..self.requests.len()
            invariant
                requests@.len() == index,
        {
            let copy_of = |request: &Request| -> (copy: Request)
                ensures copy@ == request@
            { request.clone() };
            requests.push(read_with(&self.requests[index], copy_of));
        }
        requests
    }

    /// The collection as it is written in a file of its format, with its
    /// requests as they are at this moment.
    pub fn to_document(&self) -> (document: Document)
        ensures
            exists|requests: Seq<RequestView>|
                requests.len() == self@.requests.len() && document@ == collection_document(
                    self@.name,
                    requests,
                    self@.file_format,
                ),
    {
        let requests = self.snapshot();
        let document = collection_to_document(self.name.as_str(), &requests, self.file_format);
        proof {
            let witness = requests_view(requests@);
            assert(witness.len() == self@.requests.len() && document@ == collection_document(
                self@.name,
                witness,
                self@.file_format,
            ));
        }
        document
    }

    /// The collection that `document` stands for, with every request shared
    /// anew. Where it is saved, and in which format, is left for the caller
    /// to say.
    pub fn from_document(document: &Document) -> (collection: Result<Collection, FormatError>)
        ensures
            match collection_of(document@) {
                Ok((name, requests)) => collection matches Ok(collection) && collection@.name
                    == name && collection@.requests.len() == requests.len()
                    && collection@.path.len() == 0 && collection@.file_format
                    == CollectionFileFormat::Json,
                Err(error) => collection matches Err(found) && found@ == error,
            },
    {
        let (name, requests) = collection_from_document(document)?;
        let count = requests.len();
        let mut handles: Vec<RequestHandle> = Vec::new();
        for request in all: requests
            invariant
                handles@.len() == all.index(),
                all.seq().len() == count,
        {
            handles.push(share(request));
        }
        Ok(
            Collection {
                name,
                requests: handles,
                path: String::new(),
                file_format: CollectionFileFormat::Json,
            },
        )
    }
}

} // verus!
