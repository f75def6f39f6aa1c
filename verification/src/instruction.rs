//! The fetch command protocol: the one-way, ordered commands the UI thread
//! hands to background workers. A worker answers a command only by writing
//! into the shared state store, never by talking back to the UI.
use vstd::prelude::*;

verus! {

/// One fetch command.
///
/// `FetchLogGroups` carries no payload: the worker pages through all log
/// groups, merging after every page, until the store's token runs out.
/// `FetchLogEvents` carries the log group name, the filter text and the
/// `[start, end)` window in milliseconds (`0` standing for "unbounded");
/// the worker fetches exactly one page per command, so paging further takes
/// another command.
#[derive(Debug, PartialEq)]
pub enum Instruction {
    FetchLogGroups,
    FetchLogEvents(String, String, i64, i64),
}

impl Clone for Instruction {
    /// A clone reads the same.
    fn clone(&self) -> (r: Self)
        ensures
            r@ == self@,
    {
        match self {
            Instruction::FetchLogGroups => Instruction::FetchLogGroups,
            Instruction::FetchLogEvents(g, f, s, e) => Instruction::FetchLogEvents(
                g.clone(),
                f.clone(),
                *s,
                *e,
            ),
        }
    }
}

/// The mathematical reading of a fetch command.
pub enum InstructionV {
    FetchLogGroups,
    FetchLogEvents(Seq<char>, Seq<char>, i64, i64),
}

impl View for Instruction {
    type V = InstructionV;

    open spec fn view(&self) -> InstructionV {
        match self {
            Instruction::FetchLogGroups => InstructionV::FetchLogGroups,
            Instruction::FetchLogEvents(g, f, s, e) => InstructionV::FetchLogEvents(g@, f@, *s, *e),
        }
    }
}

/// The reading of an optional fetch command.
pub open spec fn opt_instr_view(o: Option<Instruction>) -> Option<InstructionV> {
    match o {
        Option::Some(i) => Option::Some(i@),
        Option::None => Option::None,
    }
}

/// A fetch request's unbounded time marker: the protocol sends `0` where no
/// bound is meant, and the worker turns it into an absent bound.
pub fn optional_time(t: i64) -> (r: Option<i64>)
    ensures
        r == (if t == 0 {
            Option::<i64>::None
        } else {
            Option::<i64>::Some(t)
        }),
{
    if t == 0 {
        None
    } else {
        Some(t)
    }
}

} // verus!
