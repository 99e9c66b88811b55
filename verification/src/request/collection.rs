//! A collection: a named, ordered set of requests that is saved in one file.

use crate::request::request::Request;
use parking_lot::RwLock;
use std::sync::Arc;
use vstd::prelude::*;

verus! {

/// The format in which a collection is saved.
#[derive(Debug, Clone, Copy, PartialEq, Eq, Structural)]
pub enum CollectionFileFormat {
    Json,
    Yaml,
}

impl Default for CollectionFileFormat {
    fn default() -> (format: CollectionFileFormat)
        ensures
            format == CollectionFileFormat::Json,
    {
        CollectionFileFormat::Json
    }
}

impl CollectionFileFormat {
    /// The file extension of the format.
    pub open spec fn extension(self) -> Seq<char> {
        match self {
            CollectionFileFormat::Json => "json"@,
            CollectionFileFormat::Yaml => "yaml"@,
        }
    }

    /// The name of the format, which is also its file extension.
    pub fn to_string(&self) -> (name: String)
        ensures
            name@ == self.extension(),
    {
        match self {
            CollectionFileFormat::Json => "json".to_string(),
            CollectionFileFormat::Yaml => "yaml".to_string(),
        }
    }
}

/// A request as the collection that owns it, the editor and a running
/// execution share it.
pub type RequestHandle = Arc<RwLock<Request>>;

#[derive(Debug)]
pub struct Collection {
    /// No two collections that are loaded together have the same name.
    pub name: String,
    pub requests: Vec<RequestHandle>,
    /// Where the collection is saved. Not part of what is saved.
    pub path: String,
    /// How the collection is saved. Not part of what is saved.
    pub file_format: CollectionFileFormat,
}

/// What a [`Collection`] holds: its texts, and its requests as the shared
/// values that they are.
pub struct CollectionView {
    pub name: Seq<char>,
    pub requests: Seq<RequestHandle>,
    pub path: Seq<char>,
    pub file_format: CollectionFileFormat,
}

impl View for Collection {
    type V = CollectionView;

    open spec fn view(&self) -> CollectionView {
        CollectionView {
            name: self.name@,
            requests: self.requests@,
            path: self.path@,
            file_format: self.file_format,
        }
    }
}

/// What a sequence of collections holds, one by one.
pub open spec fn collections_view(collections: Seq<Collection>) -> Seq<CollectionView> {
    Seq::new(collections.len(), |i: int| collections[i]@)
}

impl Default for Collection {
    fn default() -> (collection: Collection)
        ensures
            collection@ == (CollectionView {
                name: Seq::empty(),
                requests: Seq::empty(),
                path: Seq::empty(),
                file_format: CollectionFileFormat::Json,
            }),
    {
        Collection {
            name: String::new(),
            requests: Vec::new(),
            path: String::new(),
            file_format: CollectionFileFormat::Json,
        }
    }
}

impl Clone for Collection {
    /// The copy holds the same shared requests as this collection.
    fn clone(&self) -> (copy: Collection)
        ensures
            copy@ == self@,
    {
        let mut requests: Vec<RequestHandle> = Vec::new();
        for i in 0..self.requests.len()
            invariant
                requests@ == self.requests@.take(i as int),
        {
            requests.push(self.requests[i].clone());
        }
        assert(self.requests@.take(self.requests@.len() as int) =~= self.requests@);
        Collection {
            name: self.name.clone(),
            requests,
            path: self.path.clone(),
            file_format: self.file_format,
        }
    }
}

} // verus!
