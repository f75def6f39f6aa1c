//! Selection state for the two view styles: a single-column menu list and a
//! multi-column table. Each holds at most one selected row index; the
//! cursor rules that move it live with the collections that own it.
use vstd::prelude::*;

verus! {

/// Selection state of a menu-style list: the index of the highlighted row,
/// if any.
#[derive(Clone, Copy, Debug)]
pub struct ListState {
    pub selected: Option<usize>,
}

impl ListState {
    /// Reads the selected row index.
    pub fn selected(&self) -> (r: Option<usize>)
        ensures
            r == self.selected,
    {
        self.selected
    }

    /// Moves the selection to the given row index, or clears it.
    pub fn select(&mut self, s: Option<usize>)
        ensures
            final(self).selected == s,
    {
        self.selected = s;
    }
}

impl Default for ListState {
    /// A fresh list state selects nothing.
    fn default() -> (r: Self)
        ensures
            r.selected.is_none(),
    {
        ListState { selected: None }
    }
}

/// Selection state of a table-style view: the index of the highlighted row,
/// if any.
#[derive(Clone, Copy, Debug)]
pub struct TableState {
    pub selected: Option<usize>,
}

impl TableState {
    /// Reads the selected row index.
    pub fn selected(&self) -> (r: Option<usize>)
        ensures
            r == self.selected,
    {
        self.selected
    }

    /// Moves the selection to the given row index, or clears it.
    pub fn select(&mut self, s: Option<usize>)
        ensures
            final(self).selected == s,
    {
        self.selected = s;
    }
}

impl Default for TableState {
    /// A fresh table state selects nothing.
    fn default() -> (r: Self)
        ensures
            r.selected.is_none(),
    {
        TableState { selected: None }
    }
}

} // verus!
