//! The tree of collections and requests: where its cursor stands, which
//! collections are unfolded, and which request is open.

use vstd::prelude::*;

verus! {

/// Where the cursor of the tree stands.
#[derive(Debug, Clone, Copy, PartialEq, Eq, Structural)]
pub enum TreeSelection {
    Unselected,
    /// On the collection with this index.
    Collection(usize),
    /// On a request: the index of its collection, then its index in it.
    Request(usize, usize),
}

impl TreeSelection {
    /// The index of the collection on which, or in which, the cursor stands.
    pub open spec fn collection(self) -> Option<usize> {
        match self {
            TreeSelection::Unselected => None,
            TreeSelection::Collection(collection) => Some(collection),
            TreeSelection::Request(collection, _) => Some(collection),
        }
    }
}

#[derive(Debug, PartialEq, Eq)]
pub struct TreeState {
    pub selected: TreeSelection,
    /// The indices of the collections that are unfolded, each one once.
    pub opened: Vec<usize>,
}

#[derive(Debug, PartialEq, Eq)]
pub struct StatefulTree {
    pub state: TreeState,
    /// The request that is open for editing: the index of its collection,
    /// then its index in it.
    pub selected: Option<(usize, usize)>,
}

/// What a [`StatefulTree`] holds.
pub struct StatefulTreeView {
    pub cursor: TreeSelection,
    pub opened: Seq<usize>,
    pub selected: Option<(usize, usize)>,
}

impl View for StatefulTree {
    type V = StatefulTreeView;

    open spec fn view(&self) -> StatefulTreeView {
        StatefulTreeView {
            cursor: self.state.selected,
            opened: self.state.opened@,
            selected: self.selected,
        }
    }
}

/// The position of the first occurrence of `value`, or the length of
/// `values` where there is none.
pub open spec fn first_position(values: Seq<usize>, value: usize) -> int
    decreases values.len(),
{
    if values.len() == 0 {
        0
    } else if values[0] == value {
        0
    } else {
        1 + first_position(values.drop_first(), value)
    }
}

/// The unfolded collections after the one with index `collection` was
/// folded or unfolded: without its first occurrence if it was there, with it
/// at the end if it was not.
pub open spec fn toggled(opened: Seq<usize>, collection: usize) -> Seq<usize> {
    let position = first_position(opened, collection);
    if position < opened.len() {
        opened.remove(position)
    } else {
        opened.push(collection)
    }
}

impl Default for StatefulTree {
    fn default() -> (tree: StatefulTree)
        ensures
            tree@ == (StatefulTreeView {
                cursor: TreeSelection::Unselected,
                opened: Seq::empty(),
                selected: None,
            }),
    {
        StatefulTree {
            state: TreeState { selected: TreeSelection::Unselected, opened: Vec::new() },
            selected: None,
        }
    }
}

impl TreeState {
    /// Moves the cursor.
    pub fn select(&mut self, selection: TreeSelection)
        ensures
            final(self).selected == selection,
            final(self).opened == old(self).opened,
    {
        self.selected = selection;
    }

    /// Folds the collection under the cursor if it is unfolded, and unfolds it
    /// if it is folded. Does nothing where the cursor stands on no collection.
    pub fn toggle_selected(&mut self)
        ensures
            final(self).selected == old(self).selected,
            final(self).opened@ == match old(self).selected {
                TreeSelection::Collection(collection) => toggled(old(self).opened@, collection),
                _ => old(self).opened@,
            },
    {
        if let TreeSelection::Collection(collection) = self.selected {
            let mut index: usize = 0;
            proof {
                assert(self.opened@.skip(0) =~= self.opened@);
            }
            while index < self.opened.len()
                invariant
                    *self == *old(self),
                    self.selected == TreeSelection::Collection(collection),
                    index <= self.opened@.len(),
                    first_position(self.opened@, collection) == index + first_position(
                        self.opened@.skip(index as int),
                        collection,
                    ),
                decreases self.opened@.len() - index,
            {
                proof {
                    let rest = self.opened@.skip(index as int);
                    assert(rest.drop_first() =~= self.opened@.skip(index + 1));
                }
                if self.opened[index] == collection {
                    self.opened.remove(index);
                    return ;
                }
                index += 1;
            }
            self.opened.push(collection);
        }
    }
}

impl StatefulTree {
    /// Opens the request under the cursor.
    pub fn set_selected(&mut self)
        ensures
            final(self).state == old(self).state,
            final(self).selected == match old(self).state.selected {
                TreeSelection::Request(collection, request) => Some((collection, request)),
                _ => old(self).selected,
            },
    {
        if let TreeSelection::Request(collection, request) = self.state.selected {
            self.selected = Some((collection, request));
        }
    }

    /// Closes the open request.
    pub fn set_unselected(&mut self)
        ensures
            final(self).state == old(self).state,
            final(self).selected is None,
    {
        self.selected = None;
    }
}

} // verus!
