//! The laws of the composition algebra, stated over the contracts of the
//! calling disciplines and proved once for every callable.
//!
//! Each law speaks about `post`, the relation between an argument list and
//! the results an invocation may produce: any discipline's invocation of a
//! composition is bound to it, so the laws cover consuming, mutable and
//! shared invocations alike.

use vstd::prelude::*;
use crate::adapt::Func;
use crate::call::CallOnce;
use crate::compose::Composition;

verus! {

/// Plain composition with a single-argument outer callable: the composition
/// invoked on `x` produces exactly the results of invoking the outer
/// callable on a result of the inner callable on `x` — `h(x) == g(f(x))`.
pub proof fn lemma_plain_composition<G, F, B, A1>(
    c: Composition<G, F, (B,), (A1,)>,
    x: A1,
    out: <G as CallOnce<(B,)>>::Output,
) where G: CallOnce<(B,)>, F: CallOnce<(A1,), Output = B>
    ensures
        c.post((x,), out) <==> (exists|r: B|
            #[trigger] c.inner().post((x,), r) && c.outer().post((r,), out)),
{
    let args: (A1,) = (x,);
    assert(args.0 == x);
    if c.post(args, out) {
        let r = choose|r: B| #[trigger] c.inner().post((args.0,), r) && c.outer().post((r,), out);
        assert(c.inner().post((x,), r) && c.outer().post((r,), out));
    }
    if exists|r: B| #[trigger] c.inner().post((x,), r) && c.outer().post((r,), out) {
        let r = choose|r: B| #[trigger] c.inner().post((x,), r) && c.outer().post((r,), out);
        assert(c.inner().post((args.0,), r) && c.outer().post((r,), out));
        assert(c.post(args, out));
    }
}

/// The argument-shift rule of currying composition: when the outer callable
/// has one leftover argument, the composition invoked on `(y, x)` produces
/// exactly the results of the outer callable on `(f(x), y)` — the leftover
/// argument `y` stands first in the composition's own argument list, the
/// inner callable's argument `x` after it, and the inner result is placed in
/// front of `y` in the reassembled outer call, never after it.
pub proof fn lemma_argument_shift<G, F, B, D, A1>(
    c: Composition<G, F, (B, D), (A1,)>,
    y: D,
    x: A1,
    out: <G as CallOnce<(B, D)>>::Output,
) where G: CallOnce<(B, D)>, F: CallOnce<(A1,), Output = B>
    ensures
        c.post((y, x), out) <==> (exists|r: B|
            #[trigger] c.inner().post((x,), r) && c.outer().post((r, y), out)),
{
    let args: (D, A1) = (y, x);
    assert(args.0 == y && args.1 == x);
    if c.post(args, out) {
        let r = choose|r: B|
            #[trigger] c.inner().post((args.1,), r) && c.outer().post((r, args.0), out);
        assert(c.inner().post((x,), r) && c.outer().post((r, y), out));
    }
    if exists|r: B| #[trigger] c.inner().post((x,), r) && c.outer().post((r, y), out) {
        let r = choose|r: B| #[trigger] c.inner().post((x,), r) && c.outer().post((r, y), out);
        assert(c.inner().post((args.1,), r) && c.outer().post((r, args.0), out));
        assert(c.post(args, out));
    }
}

/// Chaining compositions: nesting a composition as the outer callable of
/// another behaves exactly like the hand-written nesting. For
/// `(g ∘ f) ∘ f'` invoked on `(x, y)`, the results are exactly those of
/// `g(f(x), f'(y))`: each inner callable applied to its own argument, both
/// results passed to `g` in their original argument order.
pub proof fn lemma_composition_nests<G, F1, F2, B, D, A1, A2>(
    c: Composition<Composition<G, F1, (B, D), (A1,)>, F2, (D, A1), (A2,)>,
    x: A1,
    y: A2,
    out: <G as CallOnce<(B, D)>>::Output,
) where
    G: CallOnce<(B, D)>,
    F1: CallOnce<(A1,), Output = B>,
    F2: CallOnce<(A2,), Output = D>,

    ensures
        c.post((x, y), out) <==> (exists|r1: B, r2: D|
            #[trigger] c.outer().inner().post((x,), r1) && #[trigger] c.inner().post((y,), r2)
                && c.outer().outer().post((r1, r2), out)),
{
    let args: (A1, A2) = (x, y);
    assert(args.0 == x && args.1 == y);
    if c.post(args, out) {
        let r2 = choose|r2: D|
            #[trigger] c.inner().post((args.1,), r2) && c.outer().post((r2, args.0), out);
        let gargs: (D, A1) = (r2, x);
        assert(gargs.0 == r2 && gargs.1 == x);
        let r1 = choose|r1: B|
            #[trigger] c.outer().inner().post((gargs.1,), r1) && c.outer().outer().post(
                (r1, gargs.0),
                out,
            );
        assert(c.outer().inner().post((x,), r1) && c.inner().post((y,), r2)
            && c.outer().outer().post((r1, r2), out));
    }
    if exists|r1: B, r2: D|
        #[trigger] c.outer().inner().post((x,), r1) && #[trigger] c.inner().post((y,), r2)
            && c.outer().outer().post((r1, r2), out) {
        let (r1, r2) = choose|r1: B, r2: D|
            #[trigger] c.outer().inner().post((x,), r1) && #[trigger] c.inner().post((y,), r2)
                && c.outer().outer().post((r1, r2), out);
        let gargs: (D, A1) = (r2, x);
        assert(gargs.0 == r2 && gargs.1 == x);
        assert(c.outer().inner().post((gargs.1,), r1) && c.outer().outer().post(
            (r1, gargs.0),
            out,
        ));
        assert(c.outer().post(gargs, out));
        assert(c.inner().post((args.1,), r2) && c.outer().post((r2, args.0), out));
        assert(c.post(args, out));
    }
}

/// The composition mechanism itself introduces no failure mode: a
/// composition with one leftover argument accepts an argument list exactly
/// when the inner callable accepts its part of it and the outer callable
/// accepts every result the inner callable may hand it, next to the leftover
/// argument. Nothing more is demanded of the caller, and once this holds an
/// invocation is bound to return an ordinary composed result.
pub proof fn lemma_no_new_failure_modes<G, F, B, D, A1>(
    c: Composition<G, F, (B, D), (A1,)>,
    y: D,
    x: A1,
) where G: CallOnce<(B, D)>, F: CallOnce<(A1,), Output = B>
    ensures
        c.pre((y, x)) <==> (c.inner().pre((x,)) && (forall|r: B|
            #[trigger] c.inner().post((x,), r) ==> c.outer().pre((r, y)))),
{
    let args: (D, A1) = (y, x);
    assert(args.0 == y && args.1 == x);
    if c.pre(args) {
        assert forall|r: B| #[trigger] c.inner().post((x,), r) implies c.outer().pre((r, y)) by {
            assert(c.inner().post((args.1,), r));
        }
    }
    if c.inner().pre((x,)) && (forall|r: B|
        #[trigger] c.inner().post((x,), r) ==> c.outer().pre((r, y))) {
        assert(c.inner().pre((args.1,)));
        assert forall|r: B| #[trigger] c.inner().post((args.1,), r) implies c.outer().pre(
            (r, args.0),
        ) by {
            assert(c.inner().post((x,), r));
        }
        assert(c.pre(args));
    }
}

/// Plain composition of two wrapped function values: the composition's
/// results on `x` are exactly the results of the outer function value on a
/// result of the inner function value on `x`.
pub proof fn lemma_plain_function_composition<GF, FF, B, C, A1>(
    c: Composition<Func<GF, (B,), C>, Func<FF, (A1,), B>, (B,), (A1,)>,
    x: A1,
    out: C,
) where GF: Fn(B) -> C, FF: Fn(A1) -> B
    ensures
        c.post((x,), out) <==> (exists|r: B|
            #[trigger] call_ensures(c.inner().fun(), (x,), r) && call_ensures(
                c.outer().fun(),
                (r,),
                out,
            )),
{
    lemma_plain_composition(c, x, out);
    if c.post((x,), out) {
        let r = choose|r: B| #[trigger] c.inner().post((x,), r) && c.outer().post((r,), out);
        assert(call_ensures(c.inner().fun(), (x,), r) && call_ensures(c.outer().fun(), (r,), out));
    }
    if exists|r: B|
        #[trigger] call_ensures(c.inner().fun(), (x,), r) && call_ensures(
            c.outer().fun(),
            (r,),
            out,
        ) {
        let r = choose|r: B|
            #[trigger] call_ensures(c.inner().fun(), (x,), r) && call_ensures(
                c.outer().fun(),
                (r,),
                out,
            );
        assert(c.inner().post((x,), r) && c.outer().post((r,), out));
    }
}

/// Currying composition of two wrapped function values: with one leftover
/// argument `y`, the composition's results on `(y, x)` are exactly the
/// results of the outer function value on `(r, y)` for a result `r` of the
/// inner function value on `x`.
pub proof fn lemma_curried_function_composition<GF, FF, B, C, D, A1>(
    c: Composition<Func<GF, (B, D), C>, Func<FF, (A1,), B>, (B, D), (A1,)>,
    y: D,
    x: A1,
    out: C,
) where GF: Fn(B, D) -> C, FF: Fn(A1) -> B
    ensures
        c.post((y, x), out) <==> (exists|r: B|
            #[trigger] call_ensures(c.inner().fun(), (x,), r) && call_ensures(
                c.outer().fun(),
                (r, y),
                out,
            )),
{
    lemma_argument_shift(c, y, x, out);
    if c.post((y, x), out) {
        let r = choose|r: B| #[trigger] c.inner().post((x,), r) && c.outer().post((r, y), out);
        assert(call_ensures(c.inner().fun(), (x,), r) && call_ensures(
            c.outer().fun(),
            (r, y),
            out,
        ));
    }
    if exists|r: B|
        #[trigger] call_ensures(c.inner().fun(), (x,), r) && call_ensures(
            c.outer().fun(),
            (r, y),
            out,
        ) {
        let r = choose|r: B|
            #[trigger] call_ensures(c.inner().fun(), (x,), r) && call_ensures(
                c.outer().fun(),
                (r, y),
                out,
            );
        assert(c.inner().post((x,), r) && c.outer().post((r, y), out));
    }
}

} // verus!
