//! Helpers over optional strings and character sequences that the rest of
//! the crate shares: identity comparison of optional strings, substring
//! search, and appending single characters to a `String`.
use vstd::prelude::*;
use vstd::string::StrSliceExecFns;

verus! {

/// The character-sequence reading of an optional string.
pub open spec fn opt_str_view(o: Option<String>) -> Option<Seq<char>> {
    match o {
        Option::Some(s) => Option::Some(s@),
        Option::None => Option::None,
    }
}

/// Decides whether two optional strings carry the same text (or are both
/// absent). This is the identity comparison the merge engine runs on.
pub fn opt_string_eq(a: &Option<String>, b: &Option<String>) -> (r: bool)
    ensures
        r == (opt_str_view(*a) == opt_str_view(*b)),
{
    match (a, b) {
        (Some(x), Some(y)) => *x == *y,
        (None, None) => true,
        _ => false,
    }
}

/// Clones an optional string, keeping its text.
pub fn clone_opt_string(o: &Option<String>) -> (r: Option<String>)
    ensures
        opt_str_view(r) == opt_str_view(*o),
{
    match o {
        Some(s) => Some(s.clone()),
        None => None,
    }
}

/// The character-sequence reading of a string vector.
pub open spec fn strings_view(s: Seq<String>) -> Seq<Seq<char>> {
    s.map_values(|x: String| x@)
}

/// The character-sequence reading of a vector of rows of strings.
pub open spec fn rows_view(s: Seq<Vec<String>>) -> Seq<Seq<Seq<char>>> {
    s.map_values(|row: Vec<String>| strings_view(row@))
}

/// Relies on `String::push`: appends one character to the end of the string.
#[verifier::external_body]
pub fn string_push_char(s: &mut String, c: char)
    ensures
        final(s)@ == old(s)@.push(c),
{
    s.push(c)
}

/// `sub` occurs in `s` starting at position `k`.
pub open spec fn is_substring_at(s: Seq<char>, sub: Seq<char>, k: int) -> bool {
    0 <= k && k + sub.len() <= s.len() && s.subrange(k, k + sub.len()) == sub
}

/// `sub` occurs somewhere in `s` (anywhere, including the empty occurrence).
pub open spec fn contains_substring(s: Seq<char>, sub: Seq<char>) -> bool {
    exists|k: int| is_substring_at(s, sub, k)
}

/// The string with its last character taken off; empty stays empty.
pub fn string_drop_last(s: &String) -> (r: String)
    ensures
        r@ == (if s@.len() == 0 {
            s@
        } else {
            s@.drop_last()
        }),
{
    let n = s.as_str().unicode_len();
    if n == 0 {
        s.clone()
    } else {
        s.as_str().substring_char(0, n - 1).to_owned()
    }
}

/// Relies on `str::contains`: true iff the pattern matches a sub-slice of
/// the string.
#[verifier::external_body]
pub fn str_contains(s: &str, sub: &str) -> (r: bool)
    ensures
        r == contains_substring(s@, sub@),
{
    s.contains(sub)
}

} // verus!
