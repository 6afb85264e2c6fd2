//! How a constructor or a check reports its outcome.
//!
//! Every one of them returns the tree or a diagnostic, a string. A contract
//! states the outcome with the diagnostic as a sequence of characters, and
//! `agrees` relates the two.

use vstd::prelude::*;

verus! {

/// `r` is the outcome `expected`: the same value, or an error whose text is
/// the expected diagnostic.
pub open spec fn agrees<T>(r: Result<T, String>, expected: Result<T, Seq<char>>) -> bool {
    match expected {
        Ok(v) => r == Ok::<T, String>(v),
        Err(text) => r is Err && r->Err_0@ == text,
    }
}

/// The diagnostic `text`, as an error.
pub fn fail<T>(text: &str) -> (r: Result<T, String>)
    ensures
        r is Err,
        r->Err_0@ == text@,
{
    Err(String::from_str(text))
}

/// `head`, `mid` and `tail` in a row.
pub fn join3(head: &str, mid: &str, tail: &str) -> (r: String)
    ensures
        r@ == head@ + mid@ + tail@,
{
    let mut s = String::from_str(head);
    s.append(mid);
    s.append(tail);
    s
}

/// Five pieces in a row.
pub fn join5(a: &str, b: &str, c: &str, d: &str, e: &str) -> (r: String)
    ensures
        r@ == a@ + b@ + c@ + d@ + e@,
{
    let mut s = String::from_str(a);
    s.append(b);
    s.append(c);
    s.append(d);
    s.append(e);
    s
}

} // verus!
