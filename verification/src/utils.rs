//! The stateful-collection interfaces shared by the menu list and the event
//! table, and a small text helper for the full-text panel.
use vstd::prelude::*;
use crate::selection::{ListState, TableState};
use vstd::string::StrSliceExecFns;
use vstd::string::StringExecFns;

verus! {

/// A menu-style collection: rows of labels with a wrapping cursor.
pub trait StatefulList {
    /// The visible row labels.
    fn get_labels(&self) -> Vec<String>;

    /// Reads the selection state, if the collection carries one.
    fn get_state(&mut self) -> Option<ListState>;

    /// Replaces the selection state.
    fn set_state(&mut self, new_state: ListState);

    /// Moves the cursor one row down, wrapping past the last row.
    fn next(&mut self);

    /// Moves the cursor one row up, wrapping past the first row.
    fn previous(&mut self);
}

/// A table-style collection: rows of cells with a clamping cursor that
/// reports when more rows should be fetched.
pub trait StatefulTable {
    /// The visible rows, each a row of cell texts.
    fn get_labels(&self) -> Vec<Vec<String>>;

    /// Reads the selection state, if the collection carries one.
    fn get_state(&mut self) -> Option<TableState>;

    /// Replaces the selection state.
    fn set_state(&mut self, new_state: TableState);

    /// Moves the cursor one row down, clamping at the last row; reports
    /// whether the caller should fetch another page.
    fn next(&mut self) -> bool;

    /// Moves the cursor one row up, clamping at the first row.
    fn previous(&mut self);

    /// Moves the cursor `size` rows down, clamping at the last row; reports
    /// whether the caller should fetch another page.
    fn next_by(&mut self, size: usize) -> bool;

    /// Moves the cursor `size` rows up, clamping at the first row.
    fn previous_by(&mut self, size: usize);
}

/// `s` with a newline inserted after every `at` characters.
pub open spec fn with_newlines(s: Seq<char>, at: int) -> Seq<char>
    decreases s.len(),
{
    if at < 1 || s.len() <= at {
        s
    } else {
        s.take(at) + seq!['\n'] + with_newlines(s.skip(at), at)
    }
}

/// Breaks a string into lines of `at` characters, for the full-text panel.
pub fn insert_new_line_at(at: usize, string: &str) -> (r: String)
    requires
        at >= 1,
    ensures
        r@ == with_newlines(string@, at as int),
    decreases string@.len(),
{
    let n = string.unicode_len();
    if n <= at {
        string.to_owned()
    } else {
        let head = string.substring_char(0, at);
        let tail = string.substring_char(at, n);
        let mut r = head.to_owned();
        r.append("\n");
        let rest = insert_new_line_at(at, tail);
        r.append(rest.as_str());
        proof {
            reveal_strlit("\n");
            assert("\n"@ =~= seq!['\n']);
            assert(r@ =~= with_newlines(string@, at as int));
        }
        r
    }
}

} // verus!
