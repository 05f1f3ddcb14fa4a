//! Comparing texts.

use vstd::prelude::*;
use vstd::string::*;

verus! {

/// Whether `a` and `b` hold the same characters.
pub fn same_text(a: &str, b: &str) -> (same: bool)
    ensures
        same == (a@ == b@),
{
    // vstd specifies equality on `String`, not on `str`.
    let left = a.to_owned();
    let right = b.to_owned();
    left == right
}

} // verus!
