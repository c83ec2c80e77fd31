//! The fixed-arity argument-list algebra: splitting a combined argument list
//! at a statically known position, and concatenating a one-element head onto
//! a leftover tail.
//!
//! An argument list is an ordered, fixed-length, heterogeneously typed tuple.
//! A composition's own argument list is the concatenation of the outer
//! callable's leftover arguments and the inner callable's full argument list;
//! every invocation splits it back apart at the fixed position and reassembles
//! the outer call by placing the inner result at the front. These operations
//! exist once per supported arity pair, exactly as a mechanically generated
//! family would provide them. Concatenation is delegated to the tuple
//! utilities of the `tupleops` crate; splitting is performed here, since no
//! splitting counterpart is available to call.
//!
//! `split_l_r` divides a list of `l + r` elements into its first `l` and its
//! last `r` elements; `concat_1_t` places a single-element list in front of a
//! list of `t` elements.

use vstd::prelude::*;

verus! {

/// Split a one-element list at position 0: nothing on the left, everything on
/// the right.
pub fn split_0_1<A1>(list: (A1,)) -> (r: ((), (A1,)))
    ensures
        r.1.0 == list.0,
{
    ((), (list.0,))
}

/// Split a two-element list at position 0: nothing on the left, everything on
/// the right.
pub fn split_0_2<A1, A2>(list: (A1, A2)) -> (r: ((), (A1, A2)))
    ensures
        r.1.0 == list.0,
        r.1.1 == list.1,
{
    ((), (list.0, list.1))
}

/// Split a two-element list at position 1: one element on the left, one on
/// the right.
pub fn split_1_1<T1, A1>(list: (T1, A1)) -> (r: ((T1,), (A1,)))
    ensures
        r.0.0 == list.0,
        r.1.0 == list.1,
{
    ((list.0,), (list.1,))
}

/// Split a three-element list at position 1: one element on the left, two on
/// the right.
pub fn split_1_2<T1, A1, A2>(list: (T1, A1, A2)) -> (r: ((T1,), (A1, A2)))
    ensures
        r.0.0 == list.0,
        r.1.0 == list.1,
        r.1.1 == list.2,
{
    ((list.0,), (list.1, list.2))
}

/// Split a three-element list at position 2: two elements on the left, one on
/// the right.
pub fn split_2_1<T1, T2, A1>(list: (T1, T2, A1)) -> (r: ((T1, T2), (A1,)))
    ensures
        r.0.0 == list.0,
        r.0.1 == list.1,
        r.1.0 == list.2,
{
    ((list.0, list.1), (list.2,))
}

/// Split a four-element list at position 2: two elements on the left, two on
/// the right.
pub fn split_2_2<T1, T2, A1, A2>(list: (T1, T2, A1, A2)) -> (r: ((T1, T2), (A1, A2)))
    ensures
        r.0.0 == list.0,
        r.0.1 == list.1,
        r.1.0 == list.2,
        r.1.1 == list.3,
{
    ((list.0, list.1), (list.2, list.3))
}

/// Relies on tupleops::concat_tuples: concatenating a one-element tuple with
/// the empty tuple yields the one-element tuple, in order.
#[verifier::external_body]
pub fn concat_1_0<H>(front: (H,), back: ()) -> (r: (H,))
    ensures
        r.0 == front.0,
{
    tupleops::concat_tuples(front, back)
}

/// Relies on tupleops::concat_tuples: concatenating two one-element tuples
/// yields the two-element tuple holding both, in order.
#[verifier::external_body]
pub fn concat_1_1<H, T1>(front: (H,), back: (T1,)) -> (r: (H, T1))
    ensures
        r.0 == front.0,
        r.1 == back.0,
{
    tupleops::concat_tuples(front, back)
}

/// Relies on tupleops::concat_tuples: concatenating a one-element tuple with
/// a two-element tuple yields the three-element tuple holding all three, in
/// order.
#[verifier::external_body]
pub fn concat_1_2<H, T1, T2>(front: (H,), back: (T1, T2)) -> (r: (H, T1, T2))
    ensures
        r.0 == front.0,
        r.1 == back.0,
        r.2 == back.1,
{
    tupleops::concat_tuples(front, back)
}

} // verus!
