//! `self` is the value a method is called on, `Self` the type that
//! implements the trait.

use vstd::prelude::*;

verus! {

/// Something that draws itself as a value of its own type.
pub trait Draw {
    /// Gives a copy of the value.
    fn draw(&self) -> (copy: Self) where Self: Sized
        ensures
            copy == *self,
    ;
}

/// A button without any data.
#[derive(Clone, Debug)]
pub struct Button;

impl Draw for Button {
    fn draw(&self) -> (copy: Self) {
        Button
    }
}

/// Draws a button and gives the copy.
pub fn run() -> (new_b: Button)
    ensures
        new_b == Button,
{
    let button = Button;
    button.draw()
}

} // verus!
