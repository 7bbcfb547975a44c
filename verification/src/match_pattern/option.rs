//! A value that may be missing.

use vstd::prelude::*;

verus! {

/// Gives the number inside, or zero where there is none.
pub fn plus_one(x: Option<i32>) -> (r: i32)
    ensures
        r == match x {
            None => 0,
            Some(i) => i,
        },
{
    match x {
        None => 0,
        Some(i) => i,
    }
}

} // verus!
