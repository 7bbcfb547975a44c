//! Borrowing part of a text: the first word of a sentence.

use vstd::prelude::*;

verus! {

/// Whether `word` is the first word of `s`: what stands before the first
/// space of `s`, or all of `s` where it has no space.
pub open spec fn is_first_word(s: Seq<char>, word: Seq<char>) -> bool {
    &&& word.len() <= s.len()
    &&& word == s.take(word.len() as int)
    &&& !word.contains(' ')
    &&& word.len() < s.len() ==> s[word.len() as int] == ' '
}

/// Gives the first word of `s`, borrowed from it.
pub fn first_word(s: &str) -> (word: &str)
    ensures
        is_first_word(s@, word@),
{
    let len = s.unicode_len();
    let mut at: usize = 0;
    while at < len
        invariant
            at <= len,
            len == s@.len(),
            forall|i: int| 0 <= i < at ==> s@[i] != ' ',
        decreases len - at,
    {
        if s.get_char(at) == ' ' {
            let word = s.substring_char(0, at);
            proof {
                assert(word@ =~= s@.take(at as int));
            }
            return word;
        }
        at += 1;
    }
    proof {
        assert(s@ =~= s@.take(len as int));
    }
    s
}

/// A text has one first word only.
pub proof fn lemma_first_word_is_unique(s: Seq<char>, a: Seq<char>, b: Seq<char>)
    requires
        is_first_word(s, a),
        is_first_word(s, b),
    ensures
        a == b,
{
    if a.len() < b.len() {
        assert(b[a.len() as int] == ' ');
        assert(b.contains(' '));
    } else if b.len() < a.len() {
        assert(a[b.len() as int] == ' ');
        assert(a.contains(' '));
    }
}

} // verus!
