//! What holds of chains and iterators in general.

use crate::chain::Chain;
use crate::get::{element_at, Get};
use crate::iter::{without_first, without_last, first_of, last_of, Iter};
use vstd::prelude::*;

verus! {

/// The values that forward steps yield from the remaining elements `s`, one
/// after the other, until a step yields nothing.
pub open spec fn forward_run<T>(s: Seq<T>) -> Seq<T>
    decreases s.len(),
{
    match first_of(s) {
        Some(v) => seq![v] + forward_run(without_first(s)),
        None => Seq::empty(),
    }
}

/// The values that backward steps yield from the remaining elements `s`, one
/// after the other, until a step yields nothing.
pub open spec fn backward_run<T>(s: Seq<T>) -> Seq<T>
    decreases s.len(),
{
    match last_of(s) {
        Some(v) => seq![v] + backward_run(without_last(s)),
        None => Seq::empty(),
    }
}

/// A chain holds at each position what its first container holds there, and
/// from the first container's length on what its second container holds at
/// the position less that length; past both it holds nothing.
pub proof fn chain_indexing<A: Get, B: Get<Output = A::Output>>(c: Chain<A, B>, i: int)
    ensures
        i < c.first().elems().len() ==> element_at(c.elems(), i) == element_at(
            c.first().elems(),
            i,
        ),
        i >= c.first().elems().len() ==> element_at(c.elems(), i) == element_at(
            c.second().elems(),
            i - c.first().elems().len(),
        ),
        i >= c.first().elems().len() + c.second().elems().len() ==> element_at(c.elems(), i)
            is None,
{
}

/// A chain is as long as its two containers together.
pub proof fn chain_length<A: Get, B: Get<Output = A::Output>>(c: Chain<A, B>)
    ensures
        c.elems().len() == c.first().elems().len() + c.second().elems().len(),
{
}

/// Chaining three containers gives the same elements at the same positions,
/// whichever two are chained first.
pub proof fn chain_associative<
    A: Get,
    B: Get<Output = A::Output>,
    C: Get<Output = A::Output>,
>(left: Chain<Chain<A, B>, C>, right: Chain<A, Chain<B, C>>)
    requires
        left.first().first() == right.first(),
        left.first().second() == right.second().first(),
        left.second() == right.second().second(),
    ensures
        left.elems() == right.elems(),
        forall|i: int| element_at(left.elems(), i) == element_at(right.elems(), i),
{
    assert(left.elems() =~= right.elems());
}

/// Forward steps until nothing is left yield every remaining element once,
/// in the order of their positions.
pub proof fn forward_run_is_identity<T>(s: Seq<T>)
    ensures
        forward_run(s) == s,
    decreases s.len(),
{
    if s.len() > 0 {
        forward_run_is_identity(without_first(s));
        assert(seq![s[0]] + without_first(s) =~= s);
    } else {
        assert(s =~= Seq::empty());
    }
}

/// Backward steps until nothing is left yield the remaining elements in
/// reverse: the exact mirror of what forward steps yield.
pub proof fn backward_run_is_reverse<T>(s: Seq<T>)
    ensures
        backward_run(s) == s.reverse(),
        backward_run(s) == forward_run(s).reverse(),
    decreases s.len(),
{
    forward_run_is_identity(s);
    if s.len() > 0 {
        backward_run_is_reverse(without_last(s));
        assert(seq![s[s.len() - 1]] + without_last(s).reverse() =~= s.reverse());
    } else {
        assert(s.reverse() =~= Seq::empty());
    }
}

/// Walking a whole container forward yields as many values as it has
/// elements, the value at each position in turn; walking it backward yields
/// the same values in the opposite order.
pub proof fn iteration_matches_indexing<'a, G: Get>(c: G, it: Iter<'a, G>)
    requires
        it.wf(),
        it.source() == c.elems(),
        it.front() == 0,
        it.back() == c.elems().len(),
    ensures
        it@.len() == c.elems().len(),
        forward_run(it@).len() == c.elems().len(),
        forall|i: int|
            0 <= i < c.elems().len() ==> Some(#[trigger] forward_run(it@)[i]) == element_at(
                c.elems(),
                i,
            ),
        backward_run(it@).len() == c.elems().len(),
        forall|i: int|
            0 <= i < c.elems().len() ==> #[trigger] backward_run(it@)[i] == forward_run(
                it@,
            )[c.elems().len() - 1 - i],
{
    assert(it@ =~= c.elems());
    forward_run_is_identity(it@);
    backward_run_is_reverse(it@);
}

/// Each step that yields a value, from either end, leaves one element fewer;
/// a step on an exhausted iterator leaves it exhausted.
pub proof fn remaining_counts_down<T>(s: Seq<T>)
    ensures
        s.len() > 0 ==> without_first(s).len() == s.len() - 1 && without_last(s).len() == s.len() - 1
            && first_of(s) is Some && last_of(s) is Some,
        s.len() == 0 ==> without_first(s).len() == 0 && without_last(s).len() == 0 && first_of(s) is None
            && last_of(s) is None,
{
}

} // verus!
