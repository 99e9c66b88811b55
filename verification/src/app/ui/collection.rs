//! The tree of collections and requests as it is shown: what each node is
//! labelled with. Colours and symbols are left to whoever draws it.

use crate::request::collection::Collection;
use crate::request::request::{Request, RequestView};
use vstd::prelude::*;
use vstd::string::*;

verus! {

/// A node of the tree: a collection with its requests below it, or a request.
#[derive(Debug, PartialEq, Eq)]
pub struct TreeItem {
    /// The index of the node among its siblings.
    pub identifier: usize,
    pub text: String,
    pub children: Vec<TreeItem>,
}

/// What a [`TreeItem`] holds, as plain values.
pub struct TreeItemView {
    pub identifier: usize,
    pub text: Seq<char>,
    pub children: Seq<TreeItemView>,
}

/// What `item` holds.
pub open spec fn tree_item_view(item: TreeItem) -> TreeItemView
    decreases item,
{
    TreeItemView {
        identifier: item.identifier,
        text: item.text@,
        children: Seq::new(
            item.children@.len(),
            |i: int|
                if 0 <= i < item.children@.len() {
                    tree_item_view(item.children@[i])
                } else {
                    TreeItemView { identifier: 0, text: Seq::empty(), children: Seq::empty() }
                },
        ),
    }
}

impl View for TreeItem {
    type V = TreeItemView;

    open spec fn view(&self) -> TreeItemView {
        tree_item_view(*self)
    }
}

/// A digit as text.
pub open spec fn digit(value: nat) -> Seq<char> {
    if value == 0 {
        "0"@
    } else if value == 1 {
        "1"@
    } else if value == 2 {
        "2"@
    } else if value == 3 {
        "3"@
    } else if value == 4 {
        "4"@
    } else if value == 5 {
        "5"@
    } else if value == 6 {
        "6"@
    } else if value == 7 {
        "7"@
    } else if value == 8 {
        "8"@
    } else {
        "9"@
    }
}

/// A number in decimal digits, without leading zeros.
pub open spec fn decimal(value: nat) -> Seq<char>
    decreases value,
{
    if value < 10 {
        digit(value)
    } else {
        decimal(value / 10) + digit(value % 10)
    }
}

/// The label of a request: its name.
pub open spec fn request_item(request: RequestView, identifier: usize) -> TreeItemView {
    TreeItemView { identifier: identifier, text: request.name, children: Seq::empty() }
}

/// The label of a collection: its name and, in brackets, the number of its
/// requests.
pub open spec fn collection_label(name: Seq<char>, requests: nat) -> Seq<char> {
    name + " ("@ + decimal(requests) + ")"@
}

/// The node of a collection called `name` whose requests hold `requests`:
/// below it one node for each request, numbered from 0.
pub open spec fn collection_item(
    name: Seq<char>,
    requests: Seq<RequestView>,
    identifier: usize,
) -> TreeItemView {
    TreeItemView {
        identifier: identifier,
        text: collection_label(name, requests.len()),
        children: Seq::new(requests.len(), |i: int| request_item(requests[i], i as usize)),
    }
}

/// A digit as text.
fn digit_text(value: usize) -> (text: &'static str)
    requires
        value < 10,
    ensures
        text@ == digit(value as nat),
{
    match value {
        0 => "0",
        1 => "1",
        2 => "2",
        3 => "3",
        4 => "4",
        5 => "5",
        6 => "6",
        7 => "7",
        8 => "8",
        _ => "9",
    }
}

/// `value` in decimal digits.
pub fn decimal_text(value: usize) -> (text: String)
    ensures
        text@ == decimal(value as nat),
{
    let mut text = digit_text(value % 10).to_string();
    let mut rest = value / 10;
    while rest > 0
        invariant
            decimal(value as nat) == if rest > 0 {
                decimal(rest as nat) + text@
            } else {
                text@
            },
        decreases rest,
    {
        let mut longer = digit_text(rest % 10).to_string();
        longer.append(text.as_str());
        text = longer;
        rest = rest / 10;
    }
    text
}

/// The node of `request` in the tree.
pub fn request_to_tree_item(request: &Request, identifier: usize) -> (item: TreeItem)
    ensures
        item@ == request_item(request@, identifier),
{
    let item = TreeItem { identifier, text: request.name.clone(), children: Vec::new() };
    assert(item@.children =~= Seq::empty());
    item
}

/// The node of `collection` in the tree, with its requests as they are at
/// this moment below it.
pub fn collection_to_tree_item(collection: &Collection, identifier: usize) -> (item: TreeItem)
    ensures
        exists|requests: Seq<RequestView>|
            requests.len() == collection@.requests.len() && item@ == collection_item(
                collection@.name,
                requests,
                identifier,
            ),
{
    let requests = collection.snapshot();
    let mut text = collection.name.clone();
    text.append(" (");
    text.append(decimal_text(requests.len()).as_str());
    text.append(")");

    let mut children: Vec<TreeItem> = Vec::new();
    for request_index in 0..requests.len()
        invariant
            children@.len() == request_index,
            forall|i: int|
                0 <= i < request_index ==> (#[trigger] children@[i])@ == request_item(
                    requests@[i]@,
                    i as usize,
                ),
    {
        children.push(request_to_tree_item(&requests[request_index], request_index));
    }
    let item = TreeItem { identifier, text, children };
    proof {
        let witness = Seq::new(requests@.len(), |i: int| requests@[i]@);
        assert(item@.children =~= collection_item(collection@.name, witness, identifier).children);
        assert(item@ == collection_item(collection@.name, witness, identifier));
    }
    item
}

} // verus!
