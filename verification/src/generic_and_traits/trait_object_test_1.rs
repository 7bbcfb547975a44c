//! Trait objects: one of two types behind a `Box<dyn Summary>`, chosen at
//! run time.

use vstd::prelude::*;
use vstd::string::StringExecFns;

verus! {

/// An article.
pub struct Post {}

/// A short public message.
pub struct Weibo {}

/// Something that can be summed up in one line of text.
pub trait Summary {
    /// The text of the summary.
    open spec fn summary(&self) -> Seq<char> {
        "Summary Default.summarize"@
    }

    /// Gives the summary: the type's own, or that of the trait.
    fn summarize(&self) -> (text: String)
        ensures
            text@ == self.summary() || text@ == "Summary Default.summarize"@,
    {
        String::from_str("Summary Default.summarize")
    }
}

impl Summary for Post {
    open spec fn summary(&self) -> Seq<char> {
        "Summary Post.summarize"@
    }

    fn summarize(&self) -> (text: String)
        ensures
            text@ == self.summary(),
    {
        String::from_str("Summary Post.summarize")
    }
}

impl Summary for Weibo {
    open spec fn summary(&self) -> Seq<char> {
        "Summary Weibo.summarize"@
    }

    fn summarize(&self) -> (text: String)
        ensures
            text@ == self.summary(),
    {
        String::from_str("Summary Weibo.summarize")
    }
}

/// Gives an article where `switch` is set and a message where it is not,
/// either as a trait object: what it sums up as is the summary of the
/// type that was chosen.
pub fn returns_summarizable(switch: bool) -> (item: Box<dyn Summary>)
    ensures
        switch ==> item.summary() == (Post {  }).summary(),
        !switch ==> item.summary() == (Weibo {  }).summary(),
{
    if switch {
        return Box::new(Post {  });
    }
    return Box::new(Weibo {  });
}

} // verus!
