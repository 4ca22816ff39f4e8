//! The capability for arrays and borrowed slices.

use crate::get::{element_at, Get};
use vstd::prelude::*;

verus! {

impl<'a, T: Copy> Get for &'a [T] {
    type Output = T;

    open spec fn elems(&self) -> Seq<T> {
        self@
    }

    fn len(&self) -> (n: usize) {
        (*self).len()
    }

    fn get_move(&self, i: usize) -> (r: Option<T>) {
        if i < (*self).len() {
            Some((*self)[i])
        } else {
            None
        }
    }
}

impl<O: Copy, const N: usize> Get for [O; N] {
    type Output = O;

    open spec fn elems(&self) -> Seq<O> {
        self@
    }

    fn get_move(&self, index: usize) -> (r: Option<O>) {
        if index < N {
            Some(self[index])
        } else {
            None
        }
    }

    fn len(&self) -> (n: usize) {
        N
    }
}

} // verus!
