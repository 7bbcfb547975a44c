//! A rectangle with a constructor, a getter named like its field, and
//! methods that take one or two rectangles.

use crate::decimal::{decimal_text, u32_to_string};
use vstd::prelude::*;

verus! {

/// A rectangle with sides parallel to the axes.
#[derive(Debug)]
pub struct Rectangle {
    pub width: u32,
    pub height: u32,
}

impl Rectangle {
    /// A rectangle of the given width and height.
    pub fn new(width: u32, height: u32) -> (r: Self)
        ensures
            r.width == width,
            r.height == height,
    {
        Rectangle { width, height }
    }

    /// The width in base ten, followed by the unit `px`.
    pub fn width(&self) -> (text: String)
        ensures
            text@ == decimal_text(self.width as nat) + "px"@,
    {
        u32_to_string(self.width).concat("px")
    }

    /// The area of a rectangle whose area fits in 32 bits.
    pub fn area(&self) -> (a: u32)
        requires
            self.width * self.height <= u32::MAX,
        ensures
            a == self.width * self.height,
    {
        self.width * self.height
    }

    /// Whether `other` fits into this rectangle with room to spare: it
    /// must be both narrower and lower.
    pub fn can_hold(&self, other: &Rectangle) -> (r: bool)
        ensures
            r == (self.width > other.width && self.height > other.height),
    {
        self.width > other.width && self.height > other.height
    }
}

} // verus!
