//! Trait objects in parameters and in a collection: things that draw
//! themselves as a line of text.

use crate::decimal::{decimal_text, u8_to_string};
use vstd::prelude::*;
use vstd::string::StringExecFns;

verus! {

/// Something that can draw itself as a line of text.
pub trait Draw {
    /// The text that is drawn.
    spec fn drawing(&self) -> Seq<char>;

    /// Draws the value.
    fn draw(&self) -> (text: String)
        ensures
            text@ == self.drawing(),
    ;
}

impl Draw for u8 {
    /// The type, then the number in base ten.
    open spec fn drawing(&self) -> Seq<char> {
        "u8: "@ + decimal_text(*self as nat)
    }

    fn draw(&self) -> (text: String) {
        String::from_str("u8: ").concat(u8_to_string(*self).as_str())
    }
}

/// A button with a label.
pub struct Button {
    pub width: u32,
    pub height: u32,
    pub label: String,
}

impl Draw for Button {
    open spec fn drawing(&self) -> Seq<char> {
        "Button Draw"@
    }

    fn draw(&self) -> (text: String) {
        String::from_str("Button Draw")
    }
}

/// A box that offers a list of options.
pub struct SelectBox {
    pub width: u32,
    pub height: u32,
    pub options: Vec<String>,
}

impl Draw for SelectBox {
    open spec fn drawing(&self) -> Seq<char> {
        "SelectBox Draw"@
    }

    fn draw(&self) -> (text: String) {
        String::from_str("SelectBox Draw")
    }
}

/// Draws a boxed trait object.
pub fn draw1(x: Box<dyn Draw>) -> (text: String)
    ensures
        text@ == x.drawing(),
{
    x.draw()
}

/// Draws a borrowed trait object.
pub fn draw2(x: &dyn Draw) -> (text: String)
    ensures
        text@ == x.drawing(),
{
    x.draw()
}

/// A screen: components of whatever types, each able to draw itself.
pub struct Screen {
    pub components: Vec<Box<dyn Draw>>,
}

impl Screen {
    /// What the components draw, in their order.
    pub open spec fn drawings(&self) -> Seq<Seq<char>> {
        Seq::new(self.components@.len(), |i: int| self.components@[i].drawing())
    }

    /// Draws every component, in order.
    pub fn run(&self) -> (lines: Vec<String>)
        ensures
            lines@.len() == self.components@.len(),
            forall|i: int| 0 <= i < lines@.len() ==> (#[trigger] lines@[i])@ == self.drawings()[i],
    {
        let mut lines: Vec<String> = Vec::new();
        let mut at: usize = 0;
        while at < self.components.len()
            invariant
                at <= self.components@.len(),
                lines@.len() == at,
                forall|i: int| 0 <= i < at ==> (#[trigger] lines@[i])@ == self.drawings()[i],
            decreases self.components@.len() - at,
        {
            let text = self.components[at].draw();
            lines.push(text);
            at += 1;
        }
        lines
    }
}

/// Builds a screen with a box of three options and a button, and draws
/// it: two lines, one for each component.
pub fn run_2() -> (lines: Vec<String>)
    ensures
        lines@.len() == 2,
{
    let mut options: Vec<String> = Vec::new();
    options.push(String::from_str("Yes"));
    options.push(String::from_str("Maybe"));
    options.push(String::from_str("No"));
    let select: Box<dyn Draw> = Box::new(SelectBox { width: 75, height: 10, options });
    let button: Box<dyn Draw> = Box::new(
        Button { width: 50, height: 10, label: String::from_str("OK") },
    );
    let screen = Screen { components: vec![select, button] };
    screen.run()
}

} // verus!
