//! A cursor pair over a container.

use crate::get::{element_at, Get};
use vstd::prelude::*;

verus! {

/// What a forward step yields from the remaining elements `s`.
pub open spec fn first_of<T>(s: Seq<T>) -> Option<T> {
    element_at(s, 0)
}

/// What remains of `s` after a forward step.
pub open spec fn without_first<T>(s: Seq<T>) -> Seq<T> {
    if s.len() > 0 {
        s.subrange(1, s.len() as int)
    } else {
        s
    }
}

/// What a backward step yields from the remaining elements `s`.
pub open spec fn last_of<T>(s: Seq<T>) -> Option<T> {
    element_at(s, s.len() - 1)
}

/// What remains of `s` after a backward step.
pub open spec fn without_last<T>(s: Seq<T>) -> Seq<T> {
    if s.len() > 0 {
        s.subrange(0, s.len() - 1)
    } else {
        s
    }
}

/// A double-ended, exact-length iterator over a borrowed container.
///
/// It covers the positions from `front()` up to, not including, `back()`.
#[derive(Debug)]
pub struct Iter<'a, G: Get> {
    inner: &'a G,
    start: usize,
    end: usize,
}

impl<'a, G: Get> Clone for Iter<'a, G> {
    /// A snapshot that can be resumed independently of this iterator.
    fn clone(&self) -> (it: Self)
        ensures
            it == *self,
    {
        proof {
            use_type_invariant(self);
        }
        Iter { inner: self.inner, start: self.start, end: self.end }
    }
}

impl<'a, G: Get> Copy for Iter<'a, G> {}

impl<'a, G: Get> Iter<'a, G> {
    #[verifier::type_invariant]
    spec fn in_bounds(self) -> bool {
        self.start <= self.end <= self.inner.elems().len()
    }

    /// The elements of the container that is walked.
    pub closed spec fn source(&self) -> Seq<G::Output> {
        self.inner.elems()
    }

    /// The position that the next forward step reads.
    pub closed spec fn front(&self) -> int {
        self.start as int
    }

    /// The position just behind the one that the next backward step reads.
    pub closed spec fn back(&self) -> int {
        self.end as int
    }

    /// The cursors are in order and inside the container.
    pub open spec fn wf(&self) -> bool {
        self.front() <= self.back() <= self.source().len()
    }

    /// The elements still to come, front to back.
    pub open spec fn view(&self) -> Seq<G::Output> {
        self.source().subrange(self.front(), self.back())
    }

    /// An iterator over all of `inner`.
    pub(crate) fn new(inner: &'a G) -> (it: Self)
        ensures
            it.wf(),
            it.source() == inner.elems(),
            it.front() == 0,
            it.back() == inner.elems().len(),
            it@ == inner.elems(),
    {
        let end: usize = inner.len();
        let it = Iter { inner, start: 0, end };
        assert(it@ =~= inner.elems());
        it
    }

    /// Whether nothing is left to yield.
    pub fn is_empty(&self) -> (r: bool)
        ensures
            self.wf(),
            r == (self.front() == self.back()),
            r == (self@.len() == 0),
    {
        proof {
            use_type_invariant(self);
        }
        self.start == self.end
    }

    /// Yields the element at the front and moves the front cursor past it.
    pub fn next(&mut self) -> (r: Option<G::Output>)
        ensures
            old(self).wf(),
            final(self).wf(),
            final(self).source() == old(self).source(),
            final(self).back() == old(self).back(),
            final(self).front() == if old(self).front() < old(self).back() {
                old(self).front() + 1
            } else {
                old(self).front()
            },
            r == first_of(old(self)@),
            final(self)@ == without_first(old(self)@),
    {
        proof {
            use_type_invariant(&*self);
        }
        if self.is_empty() {
            return None;
        }
        let v = self.inner.get_move(self.start);
        self.start += 1;
        assert(final(self)@ =~= without_first(old(self)@));
        v
    }

    /// The exact number of elements still to come.
    pub fn len(&self) -> (n: usize)
        ensures
            self.wf(),
            n == self.back() - self.front(),
            n == self@.len(),
    {
        proof {
            use_type_invariant(self);
        }
        self.end - self.start
    }

    /// Lower and upper bound of what is still to come: both are the exact
    /// length.
    pub fn size_hint(&self) -> (r: (usize, Option<usize>))
        ensures
            self.wf(),
            r.0 == self@.len(),
            r.1 == Some(r.0),
    {
        let l = self.len();
        (l, Some(l))
    }

    /// Skips `n` elements and yields the one after them.
    ///
    /// When fewer than `n + 1` elements are left, nothing is yielded and the
    /// iterator is left exhausted.
    pub fn nth(&mut self, n: usize) -> (r: Option<G::Output>)
        ensures
            old(self).wf(),
            final(self).wf(),
            final(self).source() == old(self).source(),
            final(self).back() == old(self).back(),
            final(self).front() == if n < old(self)@.len() {
                old(self).front() + n + 1
            } else {
                old(self).back()
            },
            r == element_at(old(self)@, n as int),
            final(self)@ == if n < old(self)@.len() {
                old(self)@.subrange(n + 1, old(self)@.len() as int)
            } else {
                Seq::empty()
            },
    {
        proof {
            use_type_invariant(&*self);
        }
        if self.len() < n {
            self.start = self.end;
            assert(final(self)@ =~= Seq::empty());
            None
        } else {
            self.start += n;
            let r = self.next();
            assert(final(self)@ =~= if n < old(self)@.len() {
                old(self)@.subrange(n + 1, old(self)@.len() as int)
            } else {
                Seq::empty()
            });
            r
        }
    }

    /// Yields the element at the back and moves the back cursor before it.
    pub fn next_back(&mut self) -> (r: Option<G::Output>)
        ensures
            old(self).wf(),
            final(self).wf(),
            final(self).source() == old(self).source(),
            final(self).front() == old(self).front(),
            final(self).back() == if old(self).front() < old(self).back() {
                old(self).back() - 1
            } else {
                old(self).back()
            },
            r == last_of(old(self)@),
            final(self)@ == without_last(old(self)@),
    {
        proof {
            use_type_invariant(&*self);
        }
        if self.end == self.start {
            None
        } else {
            self.end -= 1;
            let v = self.inner.get_move(self.end);
            assert(final(self)@ =~= without_last(old(self)@));
            v
        }
    }
}

} // verus!
