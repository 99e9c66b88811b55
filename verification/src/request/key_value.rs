//! Ordered key/value rows: query parameters, headers and form fields.

use vstd::prelude::*;

verus! {

/// One row of a table of parameters, headers or form fields. Rows may repeat a
/// key, and their order matters.
#[derive(Debug, PartialEq, Eq)]
pub struct KeyValue {
    /// The key, then the value.
    pub data: (String, String),
    pub enabled: bool,
}

/// What a [`KeyValue`] holds, as plain text.
pub struct KeyValueView {
    pub key: Seq<char>,
    pub value: Seq<char>,
    pub enabled: bool,
}

impl View for KeyValue {
    type V = KeyValueView;

    open spec fn view(&self) -> KeyValueView {
        KeyValueView { key: self.data.0@, value: self.data.1@, enabled: self.enabled }
    }
}

impl Default for KeyValue {
    fn default() -> (row: KeyValue)
        ensures
            row@ == (KeyValueView { key: Seq::empty(), value: Seq::empty(), enabled: false }),
    {
        KeyValue { data: (String::new(), String::new()), enabled: false }
    }
}

impl Clone for KeyValue {
    fn clone(&self) -> (copy: KeyValue)
        ensures
            copy@ == self@,
    {
        KeyValue { data: (self.data.0.clone(), self.data.1.clone()), enabled: self.enabled }
    }
}

impl KeyValue {
    /// An enabled row.
    pub fn new(key: &str, value: &str) -> (row: KeyValue)
        ensures
            row@ == (KeyValueView { key: key@, value: value@, enabled: true }),
    {
        KeyValue { data: (key.to_string(), value.to_string()), enabled: true }
    }
}

/// What a sequence of rows holds, row by row.
pub open spec fn rows_view(rows: Seq<KeyValue>) -> Seq<KeyValueView> {
    Seq::new(rows.len(), |i: int| rows[i]@)
}

/// A copy of `rows`, in the same order.
pub fn clone_rows(rows: &Vec<KeyValue>) -> (copy: Vec<KeyValue>)
    ensures
        rows_view(copy@) == rows_view(rows@),
{
    let mut copy: Vec<KeyValue> = Vec::new();
    for i in 0..rows.len()
        invariant
            copy@.len() == i,
            forall|j: int| 0 <= j < i ==> copy@[j]@ == rows@[j]@,
    {
        copy.push(rows[i].clone());
    }
    copy
}

} // verus!
