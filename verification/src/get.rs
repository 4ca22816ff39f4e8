//! The indexing capability.

use crate::chain::Chain;
use crate::iter::Iter;
use vstd::prelude::*;

verus! {

/// What a sequence holds at position `i`: the element there, or nothing when
/// `i` lies outside the sequence.
pub open spec fn element_at<T>(s: Seq<T>, i: int) -> Option<T> {
    if 0 <= i < s.len() {
        Some(s[i])
    } else {
        None
    }
}

/// A container whose elements can be fetched by value at a position.
///
/// The container is modelled by the sequence of its elements, `elems()`.
/// Every position below the length holds an element, and none beyond it.
pub trait Get {
    type Output;

    /// The elements of the container, in order.
    spec fn elems(&self) -> Seq<Self::Output>;

    /// The element at `index`, or `None` when `index` is past the end.
    fn get_move(&self, index: usize) -> (r: Option<Self::Output>)
        ensures
            r == element_at(self.elems(), index as int),
    ;

    /// The number of elements.
    fn len(&self) -> (n: usize)
        ensures
            n == self.elems().len(),
    ;

    /// Whether the container holds no element.
    fn is_empty(&self) -> (r: bool)
        ensures
            r == (self.elems().len() == 0),
    {
        self.len() == 0
    }

    /// The element at `index`, for a caller that has checked the range.
    fn index_move(&self, index: usize) -> (r: Self::Output)
        requires
            index < self.elems().len(),
        ensures
            r == self.elems()[index as int],
    {
        self.get_move(index).unwrap()
    }
}

/// What every container has on top of [`Get`]: iteration and chaining.
pub trait GetExt: Get + Sized {
    /// A double-ended iterator over all elements, positioned at both ends.
    fn iter<'a>(&'a self) -> (it: Iter<'a, Self>)
        ensures
            it.wf(),
            it.source() == self.elems(),
            it.front() == 0,
            it.back() == self.elems().len(),
            it@ == self.elems(),
    ;

    /// This container followed by `other`, as one container.
    fn chain<B: Get<Output = Self::Output>>(self, other: B) -> (c: Chain<Self, B>)
        requires
            self.elems().len() + other.elems().len() <= usize::MAX,
        ensures
            c.first() == self,
            c.second() == other,
            c.elems() == self.elems() + other.elems(),
    ;
}

impl<G: Get> GetExt for G {
    fn iter<'a>(&'a self) -> (it: Iter<'a, Self>) {
        Iter::new(self)
    }

    fn chain<B: Get<Output = Self::Output>>(self, other: B) -> (c: Chain<Self, B>) {
        Chain::new(self, other)
    }
}

} // verus!
