//! Values shown side by side: a list written as one line, its items
//! separated by commas.

use std::fmt::Display;
use vstd::prelude::*;
use vstd::string::to_string_from_display_ensures;

verus! {

/// The parts written one after the other with `sep` between each two.
pub open spec fn joined(parts: Seq<Seq<char>>, sep: Seq<char>) -> Seq<char>
    decreases parts.len(),
{
    if parts.len() == 0 {
        Seq::empty()
    } else if parts.len() == 1 {
        parts[0]
    } else {
        joined(parts.drop_last(), sep) + sep + parts.last()
    }
}

/// The text of each of the strings.
pub open spec fn texts_of(parts: Seq<String>) -> Seq<Seq<char>> {
    parts.map_values(|part: String| part@)
}

/// Whether `parts` holds, item by item, what the items of `array` are
/// displayed as.
pub open spec fn displays<T: Display>(array: Seq<T>, parts: Seq<String>) -> bool {
    &&& parts.len() == array.len()
    &&& forall|i: int|
        0 <= i < array.len() ==> to_string_from_display_ensures::<T>(
            &#[trigger] array[i],
            parts[i],
        )
}

/// Writes the strings on one line, separated by commas.
pub fn join_csv(parts: &Vec<String>) -> (csv: String)
    ensures
        csv@ == joined(texts_of(parts@), ","@),
{
    let mut csv = String::new();
    let mut at: usize = 0;
    let ghost all = texts_of(parts@);
    proof {
        assert(all.take(0) =~= Seq::<Seq<char>>::empty());
    }
    while at < parts.len()
        invariant
            at <= parts.len(),
            all == texts_of(parts@),
            csv@ == joined(all.take(at as int), ","@),
        decreases parts.len() - at,
    {
        proof {
            assert(all.take(at + 1).drop_last() =~= all.take(at as int));
            assert(all.take(at + 1).last() == parts@[at as int]@);
            if at == 0 {
                assert(csv@ + parts@[0]@ =~= parts@[0]@);
            }
        }
        if at > 0 {
            csv.append(",");
        }
        csv.append(parts[at].as_str());
        at += 1;
    }
    proof {
        assert(all.take(at as int) =~= all);
    }
    csv
}

/// Writes the items of a list on one line, each as it is displayed,
/// separated by commas.
pub fn array_to_csv<T: Display>(array: &[T]) -> (csv: String)
    ensures
        exists|parts: Seq<String>|
            displays(array@, parts) && csv@ == joined(texts_of(parts), ","@),
{
    let mut parts: Vec<String> = Vec::new();
    let mut at: usize = 0;
    while at < array.len()
        invariant
            at <= array@.len(),
            displays(array@.take(at as int), parts@),
        decreases array@.len() - at,
    {
        let part = array[at].to_string();
        parts.push(part);
        at += 1;
    }
    proof {
        assert(array@.take(at as int) =~= array@);
    }
    join_csv(&parts)
}

} // verus!
