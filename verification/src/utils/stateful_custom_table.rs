//! A table of key/value rows with one selected cell under edit.

use crate::request::key_value::{rows_view, KeyValue, KeyValueView};
use crate::utils::text_input::{TextInput, TextInputView};
use vstd::prelude::*;

verus! {

#[derive(Debug, PartialEq, Eq)]
pub struct StatefulCustomTable {
    pub rows: Vec<KeyValue>,
    /// Row and column of the selected cell: column 0 is the key, column 1 the value.
    pub selection: Option<(usize, usize)>,
    /// The text of the selected cell, under edit.
    pub selection_text_input: TextInput,
}

/// What a [`StatefulCustomTable`] holds.
pub struct StatefulCustomTableView {
    pub rows: Seq<KeyValueView>,
    pub selection: Option<(usize, usize)>,
    pub selection_text_input: TextInputView,
}

impl View for StatefulCustomTable {
    type V = StatefulCustomTableView;

    open spec fn view(&self) -> StatefulCustomTableView {
        StatefulCustomTableView {
            rows: rows_view(self.rows@),
            selection: self.selection,
            selection_text_input: self.selection_text_input@,
        }
    }
}

/// The selection that a table gets when a request is selected: the key of the
/// first row, or nothing where there is no row.
pub open spec fn first_cell(rows: Seq<KeyValueView>) -> Option<(usize, usize)> {
    if rows.len() > 0 {
        Some((0usize, 0usize))
    } else {
        None
    }
}

/// The text of the selected cell. Empty where no cell is selected and where
/// the selection points at no cell of `rows`.
pub open spec fn cell_text(rows: Seq<KeyValueView>, selection: Option<(usize, usize)>) -> Seq<
    char,
> {
    match selection {
        Some((row, column)) => if row < rows.len() && column == 0 {
            rows[row as int].key
        } else if row < rows.len() && column == 1 {
            rows[row as int].value
        } else {
            Seq::empty()
        },
        None => Seq::empty(),
    }
}

impl Default for StatefulCustomTable {
    fn default() -> (table: StatefulCustomTable)
        ensures
            table@ == (StatefulCustomTableView {
                rows: Seq::empty(),
                selection: None,
                selection_text_input: TextInputView::empty(),
            }),
    {
        let table = StatefulCustomTable {
            rows: Vec::new(),
            selection: None,
            selection_text_input: TextInput::default(),
        };
        assert(table@.rows =~= Seq::empty());
        table
    }
}

/// The text of the selected cell of `rows`.
pub fn selected_cell_text(rows: &Vec<KeyValue>, selection: Option<(usize, usize)>) -> (text:
    String)
    ensures
        text@ == cell_text(rows_view(rows@), selection),
{
    match selection {
        Some((row, column)) => {
            if row < rows.len() && column == 0 {
                rows[row].data.0.clone()
            } else if row < rows.len() && column == 1 {
                rows[row].data.1.clone()
            } else {
                String::new()
            }
        },
        None => String::new(),
    }
}

} // verus!
