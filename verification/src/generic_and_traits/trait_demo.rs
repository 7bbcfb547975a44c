//! Generic functions bound by the standard traits for order and addition.

use vstd::prelude::*;
use vstd::std_specs::cmp::{PartialOrdIs, PartialOrdSpec};
use core::ops::Add;
use vstd::std_specs::ops::{AddSpec, AddSpecImpl};
use vstd::string::StringExecFns;

verus! {

/// Whether the comparison operators of `T` follow the order that the type
/// declares for its values.
pub open spec fn follows_order<T: PartialOrd>() -> bool {
    T::obeys_partial_cmp_spec()
}

/// The value that a scan of `list` ends with when it begins with `best`
/// and, element by element, takes each one that is greater than what it
/// holds.
pub open spec fn scan_largest<T: PartialOrd + Copy>(best: T, list: Seq<T>) -> T
    decreases list.len(),
{
    if list.len() == 0 {
        best
    } else {
        let so_far = scan_largest(best, list.drop_last());
        if list.last().is_gt(&so_far) {
            list.last()
        } else {
            so_far
        }
    }
}

/// The largest element of a list that is not empty: the result of a scan
/// that begins with the first element.
pub open spec fn largest_of<T: PartialOrd + Copy>(list: Seq<T>) -> T
    recommends
        list.len() > 0,
{
    scan_largest(list[0], list)
}

/// Finds the largest element of a list that is not empty.
pub fn largest<T: PartialOrd + Copy>(list: &[T]) -> (r: T)
    requires
        list@.len() > 0,
    ensures
        follows_order::<T>() ==> r == largest_of(list@),
        exists|i: int| 0 <= i < list@.len() && list@[i] == r,
{
    let mut largest = list[0];
    let mut at: usize = 0;
    proof {
        assert(list@.take(0) =~= Seq::<T>::empty());
    }
    while at < list.len()
        invariant
            at <= list@.len(),
            list@.len() > 0,
            follows_order::<T>() ==> largest == scan_largest(list@[0], list@.take(at as int)),
            exists|i: int| 0 <= i < list@.len() && list@[i] == largest,
        decreases list@.len() - at,
    {
        let item = list[at];
        proof {
            assert(list@.take(at + 1).drop_last() =~= list@.take(at as int));
            assert(list@.take(at + 1).last() == item);
        }
        if item > largest {
            largest = item;
        }
        at += 1;
    }
    proof {
        assert(list@.take(at as int) =~= list@);
    }
    largest
}

/// Among integers the scan ends with an element that none exceeds.
pub proof fn lemma_largest_is_maximum(list: Seq<i32>)
    requires
        list.len() > 0,
    ensures
        list.contains(largest_of(list)),
        forall|i: int| 0 <= i < list.len() ==> list[i] <= largest_of(list),
{
    lemma_scan_is_maximum(list[0], list);
}

/// Among integers a scan ends with its first value or an element of the
/// list, and with a value that neither that first value nor any element
/// exceeds.
pub proof fn lemma_scan_is_maximum(best: i32, list: Seq<i32>)
    ensures
        scan_largest(best, list) == best || list.contains(scan_largest(best, list)),
        best <= scan_largest(best, list),
        forall|i: int| 0 <= i < list.len() ==> list[i] <= scan_largest(best, list),
    decreases list.len(),
{
    if list.len() > 0 {
        let shorter = list.drop_last();
        lemma_scan_is_maximum(best, shorter);
        let so_far = scan_largest(best, shorter);
        if shorter.contains(so_far) {
            let i = choose|i: int| 0 <= i < shorter.len() && shorter[i] == so_far;
            assert(list[i] == so_far);
        }
        assert(list[list.len() - 1] == list.last());
        assert forall|i: int| 0 <= i < list.len() implies list[i] <= scan_largest(
            best,
            list,
        ) by {
            if i < shorter.len() {
                assert(shorter[i] == list[i]);
            }
        }
    }
}

/// A point whose coordinates can be added.
#[derive(Debug)]
#[verifier::reject_recursive_types(T)]
pub struct Point<T: Add<T, Output = T>> {
    pub x: T,
    pub y: T,
}

impl<T: Add<T, Output = T>> AddSpecImpl for Point<T> {
    /// Points are added as their coordinates are.
    open spec fn obeys_add_spec() -> bool {
        T::obeys_add_spec()
    }

    /// Two points can be added where both pairs of coordinates can.
    open spec fn add_req(self, p: Point<T>) -> bool {
        self.x.add_req(p.x) && self.y.add_req(p.y)
    }

    /// The sum of two points: the sums of their coordinates.
    open spec fn add_spec(self, p: Point<T>) -> Point<T> {
        Point { x: self.x.add_spec(p.x), y: self.y.add_spec(p.y) }
    }
}

impl<T: Add<T, Output = T>> Add for Point<T> {
    type Output = Point<T>;

    /// Adds two points coordinate by coordinate.
    fn add(self, p: Point<T>) -> Point<T> {
        Point { x: self.x + p.x, y: self.y + p.y }
    }
}

/// Adds two values of a type that can be added.
pub fn add<T: Add<T, Output = T>>(a: T, b: T) -> (r: T)
    requires
        a.add_req(b),
    ensures
        T::obeys_add_spec() ==> r == a.add_spec(b),
{
    a + b
}

/// Whether a file is open.
pub enum FileState {
    Open,
    Closed,
}

/// A named file with its contents and its state.
pub struct File {
    pub name: String,
    pub data: Vec<u8>,
    pub state: FileState,
}

impl FileState {
    /// The state in capitals.
    pub open spec fn text(&self) -> Seq<char> {
        match self {
            FileState::Open => "OPEN"@,
            FileState::Closed => "CLOSED"@,
        }
    }

    /// Gives the state as it is shown.
    pub fn to_text(&self) -> (text: String)
        ensures
            text@ == self.text(),
    {
        match self {
            FileState::Open => String::from_str("OPEN"),
            FileState::Closed => String::from_str("CLOSED"),
        }
    }
}

impl File {
    /// A closed file without contents.
    pub fn new(name: &str) -> (file: File)
        ensures
            file.name@ == name@,
            file.data@ == Seq::<u8>::empty(),
            file.state is Closed,
    {
        File { name: String::from_str(name), data: Vec::new(), state: FileState::Closed }
    }

    /// The name of the file and, in brackets, its state.
    pub open spec fn text(&self) -> Seq<char> {
        "Display: <"@ + self.name@ + " ("@ + self.state.text() + ")>"@
    }

    /// The same under the heading for debugging.
    pub open spec fn debug_text(&self) -> Seq<char> {
        "Debug: <"@ + self.name@ + " ("@ + self.state.text() + ")>"@
    }

    /// Gives the file as it is shown to a user.
    pub fn to_text(&self) -> (text: String)
        ensures
            text@ == self.text(),
    {
        let state = self.state.to_text();
        String::from_str("Display: <").concat(self.name.as_str()).concat(" (").concat(
            state.as_str(),
        ).concat(")>")
    }

    /// Gives the file as it is shown for debugging.
    pub fn to_debug_text(&self) -> (text: String)
        ensures
            text@ == self.debug_text(),
    {
        let state = self.state.to_text();
        String::from_str("Debug: <").concat(self.name.as_str()).concat(" (").concat(
            state.as_str(),
        ).concat(")>")
    }
}

} // verus!
