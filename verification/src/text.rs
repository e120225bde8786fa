//! Comparison of names.

use vstd::prelude::*;

verus! {

/// Compares two names character by character.
pub fn same_name(a: &str, b: &str) -> (eq: bool)
    ensures
        eq == (a@ == b@),
{
    let x: String = a.to_owned();
    let y: String = b.to_owned();
    x == y
}

} // verus!
