//! Building text from pieces.

use vstd::prelude::*;

verus! {

/// Appends `tail` to `text`.
///
/// Trusted: the body calls `String::push_str` of the standard library. The
/// contract claims what its documentation says: afterwards the string is the
/// old string followed by `tail`.
#[verifier::external_body]
pub(crate) fn push_str(text: &mut String, tail: &str)
    ensures
        final(text)@ == old(text)@ + tail@,
{
    text.push_str(tail)
}

/// The two pieces, one after the other.
pub fn concat2(a: &str, b: &str) -> (joined: String)
    ensures
        joined@ == a@ + b@,
{
    let mut joined = String::new();
    push_str(&mut joined, a);
    push_str(&mut joined, b);
    assert(joined@ =~= a@ + b@);
    joined
}

/// The three pieces, one after the other.
pub fn concat3(a: &str, b: &str, c: &str) -> (joined: String)
    ensures
        joined@ == a@ + b@ + c@,
{
    let mut joined = String::new();
    push_str(&mut joined, a);
    push_str(&mut joined, b);
    push_str(&mut joined, c);
    assert(joined@ =~= a@ + b@ + c@);
    joined
}

/// The five pieces, one after the other.
pub fn concat5(a: &str, b: &str, c: &str, d: &str, e: &str) -> (joined: String)
    ensures
        joined@ == a@ + b@ + c@ + d@ + e@,
{
    let mut joined = String::new();
    push_str(&mut joined, a);
    push_str(&mut joined, b);
    push_str(&mut joined, c);
    push_str(&mut joined, d);
    push_str(&mut joined, e);
    assert(joined@ =~= a@ + b@ + c@ + d@ + e@);
    joined
}

} // verus!
