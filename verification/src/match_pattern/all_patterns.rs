//! The forms a pattern can take.

use vstd::prelude::*;

verus! {

/// A point of the plane.
pub struct Point {
    pub x: i32,
    pub y: i32,
}

/// Takes a struct apart, with new names for the fields and with the
/// fields' own names. The parts are the values the struct was built from.
pub fn e() {
    let p = Point { x: 0, y: 7 };

    let Point { x: a, y: b } = p;
    assert(0 == a);
    assert(7 == b);

    let Point { x, y } = p;
    assert(0 == x);
    assert(7 == y);
}

/// Takes an array and slices apart: both elements of an array of two, the
/// first and the last element of a slice of two, and a slice without
/// elements, which has no first one.
pub fn i() {
    let arr: [u16; 2] = [114, 514];
    let x = arr[0];
    let y = arr[1];
    assert(x == 114);
    assert(y == 514);

    let arr: &[u16] = &[114, 514];

    if arr.len() >= 1 {
        let x = &arr[0];
        assert(x == &114u16);
    }

    if arr.len() >= 1 {
        let y = arr[arr.len() - 1];
        assert(y == 514);
    }

    let arr: &[u16] = &[];

    assert(arr@.len() >= 0);
    assert(!(arr@.len() >= 1));
}

} // verus!
