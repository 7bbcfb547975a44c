//! One case told apart from all the others.

use vstd::prelude::*;

verus! {

/// Gives 1 for the number three and 10 for every other number.
pub fn func(n: i32) -> (result: i32)
    ensures
        result == if n == 3 {
            1int
        } else {
            10int
        },
{
    if 3 == n {
        1
    } else {
        10
    }
}

/// The result for the number four.
pub fn run() -> (result: i32)
    ensures
        result == 10,
{
    let n: i32 = 4;
    func(n)
}

} // verus!
