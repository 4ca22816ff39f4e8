//! Two containers presented as one.

use crate::get::{element_at, Get};
use vstd::prelude::*;

verus! {

/// Two containers in sequence, read as a single container.
///
/// The combined length always fits in `usize`.
#[derive(Debug)]
pub struct Chain<A: Get, B: Get<Output = A::Output>> {
    a: A,
    b: B,
}

impl<A: Get, B: Get<Output = A::Output>> Chain<A, B> {
    #[verifier::type_invariant]
    spec fn fits(self) -> bool {
        self.a.elems().len() + self.b.elems().len() <= usize::MAX
    }

    /// The container that comes first.
    pub closed spec fn first(self) -> A {
        self.a
    }

    /// The container that comes second.
    pub closed spec fn second(self) -> B {
        self.b
    }

    /// Puts `b` behind `a`.
    pub fn new(a: A, b: B) -> (c: Self)
        requires
            a.elems().len() + b.elems().len() <= usize::MAX,
        ensures
            c.first() == a,
            c.second() == b,
            c.elems() == a.elems() + b.elems(),
    {
        Self { a, b }
    }
}

impl<A: Get, B: Get<Output = A::Output>> Get for Chain<A, B> {
    type Output = A::Output;

    open spec fn elems(&self) -> Seq<A::Output> {
        self.first().elems() + self.second().elems()
    }

    /// Positions below the first container's length belong to it; the
    /// position equal to that length is the second container's first.
    fn get_move(&self, index: usize) -> (r: Option<A::Output>)
        ensures
            index < self.first().elems().len() ==> r == element_at(
                self.first().elems(),
                index as int,
            ),
            index >= self.first().elems().len() ==> r == element_at(
                self.second().elems(),
                index - self.first().elems().len(),
            ),
    {
        let al = self.a.len();
        if index >= al {
            self.b.get_move(index - al)
        } else {
            self.a.get_move(index)
        }
    }

    fn len(&self) -> (n: usize)
        ensures
            n == self.first().elems().len() + self.second().elems().len(),
    {
        proof {
            use_type_invariant(self);
        }
        self.a.len() + self.b.len()
    }
}

/// Puts `b` behind `a`: the free-standing form of [`Chain::new`].
pub fn chain<A: Get, B: Get<Output = A::Output>>(a: A, b: B) -> (c: Chain<A, B>)
    requires
        a.elems().len() + b.elems().len() <= usize::MAX,
    ensures
        c.first() == a,
        c.second() == b,
        c.elems() == a.elems() + b.elems(),
{
    Chain::new(a, b)
}

} // verus!
