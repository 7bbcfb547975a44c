//! A trait implemented at once for every type that meets a bound.

use crate::generic_and_traits::trait_test::read_more;
use std::fmt::Display;
use vstd::prelude::*;
use vstd::string::StringExecFns;

verus! {

/// Something that is summed up as `read_more` unless its type gives a
/// summary of its own. Every type that can be displayed has this trait.
pub trait Summary2 {
    /// The text of the summary.
    open spec fn summary(&self) -> Seq<char> {
        read_more()
    }

    /// Gives the summary: the type's own, or `read_more`.
    fn summarize(&self) -> (text: String)
        ensures
            text@ == self.summary() || text@ == read_more(),
    {
        String::from_str("(Read more...)")
    }
}

impl<T: Display> Summary2 for T {
    fn summarize(&self) -> (text: String)
        ensures
            text@ == read_more(),
    {
        String::from_str("(Read more...)")
    }
}

/// Gives a text behind the trait alone: the caller learns that it has a
/// summary, and not that it is a text.
pub fn func() -> (item: impl Summary2) {
    "文本"
}

} // verus!
