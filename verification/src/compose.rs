//! Currying function composition: composing an outer callable `g` with an
//! inner callable `f` yields a callable `h` with `h(t..., x...) == g(f(x...), t...)`.
//!
//! The first argument of `g` is consumed by the result of `f`; the remaining
//! arguments of `g` (its leftover arguments, in their original order) come
//! first in the composition's own argument list, and the arguments of `f`
//! follow them, never interleaved. When `g` takes exactly one argument this
//! is plain composition, `h(x...) == g(f(x...))`.
//!
//! A `Composition` exclusively owns the two callables it was built from, and
//! supports a calling discipline exactly when both of its constituents do:
//! each discipline's trait is implemented under the bound that `g` and `f`
//! implement it too, so the weakest constituent determines what the
//! composition offers, and a composition with (say) a consuming-only inner
//! callable cannot be invoked repeatedly at all.
//!
//! The dispatch protocol is one algorithm per arity pair, stated over the
//! shape `XG` of `g`'s argument list and the shape `XF` of `f`'s: split the
//! supplied list at the statically fixed position (`g`'s arity minus one),
//! invoke `f` on the right part, place its result at the front of the left
//! part, and invoke `g` on the reassembled list. `f` is always invoked
//! before `g`.

use vstd::prelude::*;
use core::marker::PhantomData;
use crate::call::{Call, CallMut, CallOnce};
use crate::args::{split_0_1, split_0_2, split_1_1, split_1_2, split_2_1, split_2_2, concat_1_0, concat_1_1, concat_1_2};

verus! {

/// A callable value representing the composition of an outer callable `g`
/// (argument-list shape `XG`) with an inner callable `f` (argument-list
/// shape `XF`); it owns both exclusively.
pub struct Composition<G, F, XG, XF> {
    g: G,
    f: F,
    phantom: PhantomData<(XG, XF)>,
}

impl<G, F, XG, XF> Composition<G, F, XG, XF> {
    /// The outer callable this composition was built from.
    pub closed spec fn outer(self) -> G {
        self.g
    }

    /// The inner callable this composition was built from.
    pub closed spec fn inner(self) -> F {
        self.f
    }
}

/// Composing two callables: `self` is the outer callable `g`, `with` the
/// inner callable `f`. The composition takes ownership of both; building it
/// is its only effect, and it is possible exactly when `g` takes at least
/// one argument and the type of `g`'s first argument equals `f`'s result
/// type — a mismatch is not a run-time failure but an inexpressible program.
pub trait Compose<F, XG, XF>: Sized {
    /// Compose the callable with another, as `self ∘ with`.
    fn compose(self, with: F) -> (c: Composition<Self, F, XG, XF>)
        ensures
            c.outer() == self,
            c.inner() == with,
    ;
}

// g takes one argument, f takes one: h(x) == g(f(x)).
impl<G, F, B, A1> Compose<F, (B,), (A1,)> for G where
    G: CallOnce<(B,)>,
    F: CallOnce<(A1,), Output = B>,
{
    fn compose(self, with: F) -> (c: Composition<Self, F, (B,), (A1,)>) {
        Composition { g: self, f: with, phantom: PhantomData }
    }
}

impl<G, F, B, A1> CallOnce<(A1,)> for Composition<G, F, (B,), (A1,)> where
    G: CallOnce<(B,)>,
    F: CallOnce<(A1,), Output = B>,
{
    type Output = <G as CallOnce<(B,)>>::Output;

    open spec fn pre(self, args: (A1,)) -> bool {
        &&& self.inner().pre((args.0,))
        &&& forall|r: B| #[trigger] self.inner().post((args.0,), r) ==> self.outer().pre((r,))
    }

    open spec fn post(self, args: (A1,), out: Self::Output) -> bool {
        exists|r: B|
            #[trigger] self.inner().post((args.0,), r) && self.outer().post((r,), out)
    }

    fn call_once(self, args: (A1,)) -> (out: Self::Output) {
        let Composition { g, f, phantom: _ } = self;
        let (left, right) = split_0_1(args);
        let r = f.call_once(right);
        g.call_once(concat_1_0((r,), left))
    }
}

impl<G, F, B, A1> CallMut<(A1,)> for Composition<G, F, (B,), (A1,)> where
    G: CallMut<(B,)>,
    F: CallMut<(A1,), Output = B>,
{
    open spec fn post_mut(self, args: (A1,), next: Self, out: Self::Output) -> bool {
        exists|r: B|
            #[trigger] self.inner().post_mut((args.0,), next.inner(), r) && self.outer().post_mut(
                (r,),
                next.outer(),
                out,
            )
    }

    proof fn post_mut_refines_post(self, args: (A1,), next: Self, out: Self::Output) {
        let r = choose|r: B|
            self.inner().post_mut((args.0,), next.inner(), r) && self.outer().post_mut(
                (r,),
                next.outer(),
                out,
            );
        self.inner().post_mut_refines_post((args.0,), next.inner(), r);
        self.outer().post_mut_refines_post((r,), next.outer(), out);
    }

    fn call_mut(&mut self, args: (A1,)) -> (out: Self::Output) {
        let (left, right) = split_0_1(args);
        let r = self.f.call_mut(right);
        proof {
            old(self).inner().post_mut_refines_post(right, self.inner(), r);
        }
        let out = self.g.call_mut(concat_1_0((r,), left));
        proof {
            assert(old(self).inner().post_mut((args.0,), self.inner(), r));
            assert(old(self).outer().post_mut((r,), self.outer(), out));
        }
        out
    }
}

impl<G, F, B, A1> Call<(A1,)> for Composition<G, F, (B,), (A1,)> where
    G: Call<(B,)>,
    F: Call<(A1,), Output = B>,
{
    proof fn post_extends_to_post_mut(self, args: (A1,), out: Self::Output) {
        let r = choose|r: B| self.inner().post((args.0,), r) && self.outer().post((r,), out);
        self.inner().post_extends_to_post_mut((args.0,), r);
        self.outer().post_extends_to_post_mut((r,), out);
    }

    fn call(&self, args: (A1,)) -> (out: Self::Output) {
        let (left, right) = split_0_1(args);
        let r = self.f.call(right);
        self.g.call(concat_1_0((r,), left))
    }
}

// g takes one argument, f takes two: h(x1, x2) == g(f(x1, x2)).
impl<G, F, B, A1, A2> Compose<F, (B,), (A1, A2)> for G where
    G: CallOnce<(B,)>,
    F: CallOnce<(A1, A2), Output = B>,
{
    fn compose(self, with: F) -> (c: Composition<Self, F, (B,), (A1, A2)>) {
        Composition { g: self, f: with, phantom: PhantomData }
    }
}

impl<G, F, B, A1, A2> CallOnce<(A1, A2)> for Composition<G, F, (B,), (A1, A2)> where
    G: CallOnce<(B,)>,
    F: CallOnce<(A1, A2), Output = B>,
{
    type Output = <G as CallOnce<(B,)>>::Output;

    open spec fn pre(self, args: (A1, A2)) -> bool {
        &&& self.inner().pre((args.0, args.1))
        &&& forall|r: B| #[trigger] self.inner().post((args.0, args.1), r) ==> self.outer().pre((r,))
    }

    open spec fn post(self, args: (A1, A2), out: Self::Output) -> bool {
        exists|r: B|
            #[trigger] self.inner().post((args.0, args.1), r) && self.outer().post((r,), out)
    }

    fn call_once(self, args: (A1, A2)) -> (out: Self::Output) {
        let Composition { g, f, phantom: _ } = self;
        let (left, right) = split_0_2(args);
        let r = f.call_once(right);
        g.call_once(concat_1_0((r,), left))
    }
}

impl<G, F, B, A1, A2> CallMut<(A1, A2)> for Composition<G, F, (B,), (A1, A2)> where
    G: CallMut<(B,)>,
    F: CallMut<(A1, A2), Output = B>,
{
    open spec fn post_mut(self, args: (A1, A2), next: Self, out: Self::Output) -> bool {
        exists|r: B|
            #[trigger] self.inner().post_mut((args.0, args.1), next.inner(), r) && self.outer().post_mut(
                (r,),
                next.outer(),
                out,
            )
    }

    proof fn post_mut_refines_post(self, args: (A1, A2), next: Self, out: Self::Output) {
        let r = choose|r: B|
            self.inner().post_mut((args.0, args.1), next.inner(), r) && self.outer().post_mut(
                (r,),
                next.outer(),
                out,
            );
        self.inner().post_mut_refines_post((args.0, args.1), next.inner(), r);
        self.outer().post_mut_refines_post((r,), next.outer(), out);
    }

    fn call_mut(&mut self, args: (A1, A2)) -> (out: Self::Output) {
        let (left, right) = split_0_2(args);
        let r = self.f.call_mut(right);
        proof {
            old(self).inner().post_mut_refines_post(right, self.inner(), r);
        }
        let out = self.g.call_mut(concat_1_0((r,), left));
        proof {
            assert(old(self).inner().post_mut((args.0, args.1), self.inner(), r));
            assert(old(self).outer().post_mut((r,), self.outer(), out));
        }
        out
    }
}

impl<G, F, B, A1, A2> Call<(A1, A2)> for Composition<G, F, (B,), (A1, A2)> where
    G: Call<(B,)>,
    F: Call<(A1, A2), Output = B>,
{
    proof fn post_extends_to_post_mut(self, args: (A1, A2), out: Self::Output) {
        let r = choose|r: B| self.inner().post((args.0, args.1), r) && self.outer().post((r,), out);
        self.inner().post_extends_to_post_mut((args.0, args.1), r);
        self.outer().post_extends_to_post_mut((r,), out);
    }

    fn call(&self, args: (A1, A2)) -> (out: Self::Output) {
        let (left, right) = split_0_2(args);
        let r = self.f.call(right);
        self.g.call(concat_1_0((r,), left))
    }
}

// g takes two arguments, f takes one: h(t1, x) == g(f(x), t1).
impl<G, F, B, T1, A1> Compose<F, (B, T1), (A1,)> for G where
    G: CallOnce<(B, T1)>,
    F: CallOnce<(A1,), Output = B>,
{
    fn compose(self, with: F) -> (c: Composition<Self, F, (B, T1), (A1,)>) {
        Composition { g: self, f: with, phantom: PhantomData }
    }
}

impl<G, F, B, T1, A1> CallOnce<(T1, A1)> for Composition<G, F, (B, T1), (A1,)> where
    G: CallOnce<(B, T1)>,
    F: CallOnce<(A1,), Output = B>,
{
    type Output = <G as CallOnce<(B, T1)>>::Output;

    open spec fn pre(self, args: (T1, A1)) -> bool {
        &&& self.inner().pre((args.1,))
        &&& forall|r: B| #[trigger] self.inner().post((args.1,), r) ==> self.outer().pre((r, args.0))
    }

    open spec fn post(self, args: (T1, A1), out: Self::Output) -> bool {
        exists|r: B|
            #[trigger] self.inner().post((args.1,), r) && self.outer().post((r, args.0), out)
    }

    fn call_once(self, args: (T1, A1)) -> (out: Self::Output) {
        let Composition { g, f, phantom: _ } = self;
        let (left, right) = split_1_1(args);
        let r = f.call_once(right);
        g.call_once(concat_1_1((r,), left))
    }
}

impl<G, F, B, T1, A1> CallMut<(T1, A1)> for Composition<G, F, (B, T1), (A1,)> where
    G: CallMut<(B, T1)>,
    F: CallMut<(A1,), Output = B>,
{
    open spec fn post_mut(self, args: (T1, A1), next: Self, out: Self::Output) -> bool {
        exists|r: B|
            #[trigger] self.inner().post_mut((args.1,), next.inner(), r) && self.outer().post_mut(
                (r, args.0),
                next.outer(),
                out,
            )
    }

    proof fn post_mut_refines_post(self, args: (T1, A1), next: Self, out: Self::Output) {
        let r = choose|r: B|
            self.inner().post_mut((args.1,), next.inner(), r) && self.outer().post_mut(
                (r, args.0),
                next.outer(),
                out,
            );
        self.inner().post_mut_refines_post((args.1,), next.inner(), r);
        self.outer().post_mut_refines_post((r, args.0), next.outer(), out);
    }

    fn call_mut(&mut self, args: (T1, A1)) -> (out: Self::Output) {
        let (left, right) = split_1_1(args);
        let r = self.f.call_mut(right);
        proof {
            old(self).inner().post_mut_refines_post(right, self.inner(), r);
        }
        let out = self.g.call_mut(concat_1_1((r,), left));
        proof {
            assert(old(self).inner().post_mut((args.1,), self.inner(), r));
            assert(old(self).outer().post_mut((r, args.0), self.outer(), out));
        }
        out
    }
}

impl<G, F, B, T1, A1> Call<(T1, A1)> for Composition<G, F, (B, T1), (A1,)> where
    G: Call<(B, T1)>,
    F: Call<(A1,), Output = B>,
{
    proof fn post_extends_to_post_mut(self, args: (T1, A1), out: Self::Output) {
        let r = choose|r: B| self.inner().post((args.1,), r) && self.outer().post((r, args.0), out);
        self.inner().post_extends_to_post_mut((args.1,), r);
        self.outer().post_extends_to_post_mut((r, args.0), out);
    }

    fn call(&self, args: (T1, A1)) -> (out: Self::Output) {
        let (left, right) = split_1_1(args);
        let r = self.f.call(right);
        self.g.call(concat_1_1((r,), left))
    }
}

// g takes two arguments, f takes two: h(t1, x1, x2) == g(f(x1, x2), t1).
impl<G, F, B, T1, A1, A2> Compose<F, (B, T1), (A1, A2)> for G where
    G: CallOnce<(B, T1)>,
    F: CallOnce<(A1, A2), Output = B>,
{
    fn compose(self, with: F) -> (c: Composition<Self, F, (B, T1), (A1, A2)>) {
        Composition { g: self, f: with, phantom: PhantomData }
    }
}

impl<G, F, B, T1, A1, A2> CallOnce<(T1, A1, A2)> for Composition<G, F, (B, T1), (A1, A2)> where
    G: CallOnce<(B, T1)>,
    F: CallOnce<(A1, A2), Output = B>,
{
    type Output = <G as CallOnce<(B, T1)>>::Output;

    open spec fn pre(self, args: (T1, A1, A2)) -> bool {
        &&& self.inner().pre((args.1, args.2))
        &&& forall|r: B| #[trigger] self.inner().post((args.1, args.2), r) ==> self.outer().pre((r, args.0))
    }

    open spec fn post(self, args: (T1, A1, A2), out: Self::Output) -> bool {
        exists|r: B|
            #[trigger] self.inner().post((args.1, args.2), r) && self.outer().post((r, args.0), out)
    }

    fn call_once(self, args: (T1, A1, A2)) -> (out: Self::Output) {
        let Composition { g, f, phantom: _ } = self;
        let (left, right) = split_1_2(args);
        let r = f.call_once(right);
        g.call_once(concat_1_1((r,), left))
    }
}

impl<G, F, B, T1, A1, A2> CallMut<(T1, A1, A2)> for Composition<G, F, (B, T1), (A1, A2)> where
    G: CallMut<(B, T1)>,
    F: CallMut<(A1, A2), Output = B>,
{
    open spec fn post_mut(self, args: (T1, A1, A2), next: Self, out: Self::Output) -> bool {
        exists|r: B|
            #[trigger] self.inner().post_mut((args.1, args.2), next.inner(), r) && self.outer().post_mut(
                (r, args.0),
                next.outer(),
                out,
            )
    }

    proof fn post_mut_refines_post(self, args: (T1, A1, A2), next: Self, out: Self::Output) {
        let r = choose|r: B|
            self.inner().post_mut((args.1, args.2), next.inner(), r) && self.outer().post_mut(
                (r, args.0),
                next.outer(),
                out,
            );
        self.inner().post_mut_refines_post((args.1, args.2), next.inner(), r);
        self.outer().post_mut_refines_post((r, args.0), next.outer(), out);
    }

    fn call_mut(&mut self, args: (T1, A1, A2)) -> (out: Self::Output) {
        let (left, right) = split_1_2(args);
        let r = self.f.call_mut(right);
        proof {
            old(self).inner().post_mut_refines_post(right, self.inner(), r);
        }
        let out = self.g.call_mut(concat_1_1((r,), left));
        proof {
            assert(old(self).inner().post_mut((args.1, args.2), self.inner(), r));
            assert(old(self).outer().post_mut((r, args.0), self.outer(), out));
        }
        out
    }
}

impl<G, F, B, T1, A1, A2> Call<(T1, A1, A2)> for Composition<G, F, (B, T1), (A1, A2)> where
    G: Call<(B, T1)>,
    F: Call<(A1, A2), Output = B>,
{
    proof fn post_extends_to_post_mut(self, args: (T1, A1, A2), out: Self::Output) {
        let r = choose|r: B| self.inner().post((args.1, args.2), r) && self.outer().post((r, args.0), out);
        self.inner().post_extends_to_post_mut((args.1, args.2), r);
        self.outer().post_extends_to_post_mut((r, args.0), out);
    }

    fn call(&self, args: (T1, A1, A2)) -> (out: Self::Output) {
        let (left, right) = split_1_2(args);
        let r = self.f.call(right);
        self.g.call(concat_1_1((r,), left))
    }
}

// g takes three arguments, f takes one: h(t1, t2, x) == g(f(x), t1, t2).
impl<G, F, B, T1, T2, A1> Compose<F, (B, T1, T2), (A1,)> for G where
    G: CallOnce<(B, T1, T2)>,
    F: CallOnce<(A1,), Output = B>,
{
    fn compose(self, with: F) -> (c: Composition<Self, F, (B, T1, T2), (A1,)>) {
        Composition { g: self, f: with, phantom: PhantomData }
    }
}

impl<G, F, B, T1, T2, A1> CallOnce<(T1, T2, A1)> for Composition<G, F, (B, T1, T2), (A1,)> where
    G: CallOnce<(B, T1, T2)>,
    F: CallOnce<(A1,), Output = B>,
{
    type Output = <G as CallOnce<(B, T1, T2)>>::Output;

    open spec fn pre(self, args: (T1, T2, A1)) -> bool {
        &&& self.inner().pre((args.2,))
        &&& forall|r: B| #[trigger] self.inner().post((args.2,), r) ==> self.outer().pre((r, args.0, args.1))
    }

    open spec fn post(self, args: (T1, T2, A1), out: Self::Output) -> bool {
        exists|r: B|
            #[trigger] self.inner().post((args.2,), r) && self.outer().post((r, args.0, args.1), out)
    }

    fn call_once(self, args: (T1, T2, A1)) -> (out: Self::Output) {
        let Composition { g, f, phantom: _ } = self;
        let (left, right) = split_2_1(args);
        let r = f.call_once(right);
        g.call_once(concat_1_2((r,), left))
    }
}

impl<G, F, B, T1, T2, A1> CallMut<(T1, T2, A1)> for Composition<G, F, (B, T1, T2), (A1,)> where
    G: CallMut<(B, T1, T2)>,
    F: CallMut<(A1,), Output = B>,
{
    open spec fn post_mut(self, args: (T1, T2, A1), next: Self, out: Self::Output) -> bool {
        exists|r: B|
            #[trigger] self.inner().post_mut((args.2,), next.inner(), r) && self.outer().post_mut(
                (r, args.0, args.1),
                next.outer(),
                out,
            )
    }

    proof fn post_mut_refines_post(self, args: (T1, T2, A1), next: Self, out: Self::Output) {
        let r = choose|r: B|
            self.inner().post_mut((args.2,), next.inner(), r) && self.outer().post_mut(
                (r, args.0, args.1),
                next.outer(),
                out,
            );
        self.inner().post_mut_refines_post((args.2,), next.inner(), r);
        self.outer().post_mut_refines_post((r, args.0, args.1), next.outer(), out);
    }

    fn call_mut(&mut self, args: (T1, T2, A1)) -> (out: Self::Output) {
        let (left, right) = split_2_1(args);
        let r = self.f.call_mut(right);
        proof {
            old(self).inner().post_mut_refines_post(right, self.inner(), r);
        }
        let out = self.g.call_mut(concat_1_2((r,), left));
        proof {
            assert(old(self).inner().post_mut((args.2,), self.inner(), r));
            assert(old(self).outer().post_mut((r, args.0, args.1), self.outer(), out));
        }
        out
    }
}

impl<G, F, B, T1, T2, A1> Call<(T1, T2, A1)> for Composition<G, F, (B, T1, T2), (A1,)> where
    G: Call<(B, T1, T2)>,
    F: Call<(A1,), Output = B>,
{
    proof fn post_extends_to_post_mut(self, args: (T1, T2, A1), out: Self::Output) {
        let r = choose|r: B| self.inner().post((args.2,), r) && self.outer().post((r, args.0, args.1), out);
        self.inner().post_extends_to_post_mut((args.2,), r);
        self.outer().post_extends_to_post_mut((r, args.0, args.1), out);
    }

    fn call(&self, args: (T1, T2, A1)) -> (out: Self::Output) {
        let (left, right) = split_2_1(args);
        let r = self.f.call(right);
        self.g.call(concat_1_2((r,), left))
    }
}

// g takes three arguments, f takes two: h(t1, t2, x1, x2) == g(f(x1, x2), t1, t2).
impl<G, F, B, T1, T2, A1, A2> Compose<F, (B, T1, T2), (A1, A2)> for G where
    G: CallOnce<(B, T1, T2)>,
    F: CallOnce<(A1, A2), Output = B>,
{
    fn compose(self, with: F) -> (c: Composition<Self, F, (B, T1, T2), (A1, A2)>) {
        Composition { g: self, f: with, phantom: PhantomData }
    }
}

impl<G, F, B, T1, T2, A1, A2> CallOnce<(T1, T2, A1, A2)> for Composition<G, F, (B, T1, T2), (A1, A2)> where
    G: CallOnce<(B, T1, T2)>,
    F: CallOnce<(A1, A2), Output = B>,
{
    type Output = <G as CallOnce<(B, T1, T2)>>::Output;

    open spec fn pre(self, args: (T1, T2, A1, A2)) -> bool {
        &&& self.inner().pre((args.2, args.3))
        &&& forall|r: B| #[trigger] self.inner().post((args.2, args.3), r) ==> self.outer().pre((r, args.0, args.1))
    }

    open spec fn post(self, args: (T1, T2, A1, A2), out: Self::Output) -> bool {
        exists|r: B|
            #[trigger] self.inner().post((args.2, args.3), r) && self.outer().post((r, args.0, args.1), out)
    }

    fn call_once(self, args: (T1, T2, A1, A2)) -> (out: Self::Output) {
        let Composition { g, f, phantom: _ } = self;
        let (left, right) = split_2_2(args);
        let r = f.call_once(right);
        g.call_once(concat_1_2((r,), left))
    }
}

impl<G, F, B, T1, T2, A1, A2> CallMut<(T1, T2, A1, A2)> for Composition<G, F, (B, T1, T2), (A1, A2)> where
    G: CallMut<(B, T1, T2)>,
    F: CallMut<(A1, A2), Output = B>,
{
    open spec fn post_mut(self, args: (T1, T2, A1, A2), next: Self, out: Self::Output) -> bool {
        exists|r: B|
            #[trigger] self.inner().post_mut((args.2, args.3), next.inner(), r) && self.outer().post_mut(
                (r, args.0, args.1),
                next.outer(),
                out,
            )
    }

    proof fn post_mut_refines_post(self, args: (T1, T2, A1, A2), next: Self, out: Self::Output) {
        let r = choose|r: B|
            self.inner().post_mut((args.2, args.3), next.inner(), r) && self.outer().post_mut(
                (r, args.0, args.1),
                next.outer(),
                out,
            );
        self.inner().post_mut_refines_post((args.2, args.3), next.inner(), r);
        self.outer().post_mut_refines_post((r, args.0, args.1), next.outer(), out);
    }

    fn call_mut(&mut self, args: (T1, T2, A1, A2)) -> (out: Self::Output) {
        let (left, right) = split_2_2(args);
        let r = self.f.call_mut(right);
        proof {
            old(self).inner().post_mut_refines_post(right, self.inner(), r);
        }
        let out = self.g.call_mut(concat_1_2((r,), left));
        proof {
            assert(old(self).inner().post_mut((args.2, args.3), self.inner(), r));
            assert(old(self).outer().post_mut((r, args.0, args.1), self.outer(), out));
        }
        out
    }
}

impl<G, F, B, T1, T2, A1, A2> Call<(T1, T2, A1, A2)> for Composition<G, F, (B, T1, T2), (A1, A2)> where
    G: Call<(B, T1, T2)>,
    F: Call<(A1, A2), Output = B>,
{
    proof fn post_extends_to_post_mut(self, args: (T1, T2, A1, A2), out: Self::Output) {
        let r = choose|r: B| self.inner().post((args.2, args.3), r) && self.outer().post((r, args.0, args.1), out);
        self.inner().post_extends_to_post_mut((args.2, args.3), r);
        self.outer().post_extends_to_post_mut((r, args.0, args.1), out);
    }

    fn call(&self, args: (T1, T2, A1, A2)) -> (out: Self::Output) {
        let (left, right) = split_2_2(args);
        let r = self.f.call(right);
        self.g.call(concat_1_2((r,), left))
    }
}

} // verus!
