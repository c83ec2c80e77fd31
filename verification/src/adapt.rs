//! Adapters that let plain Rust function values take part in composition.
//!
//! `Func` wraps a function value that may be invoked through a shared
//! reference any number of times; it therefore supports all three calling
//! disciplines. `OnceFunc` wraps a function value that may only be consumed,
//! and supports the consuming discipline alone, so a composition built from
//! it is itself consuming-only. Either adapter's accepted argument lists and
//! possible results are exactly those of the wrapped function value.

use vstd::prelude::*;
use core::marker::PhantomData;
use crate::call::{Call, CallMut, CallOnce};

verus! {

/// A pure-repeatable callable wrapping a function value `F` invocable on the
/// argument list `Args` with result `R`.
pub struct Func<F, Args, R> {
    f: F,
    phantom: PhantomData<(Args, R)>,
}

impl<F, Args, R> Func<F, Args, R> {
    /// The wrapped function value.
    pub closed spec fn fun(self) -> F {
        self.f
    }

    /// Wrap a function value.
    pub fn new(f: F) -> (r: Self)
        ensures
            r.fun() == f,
    {
        Func { f, phantom: PhantomData }
    }
}

/// A consuming-only callable wrapping a function value `F` invocable on the
/// argument list `Args` with result `R`.
pub struct OnceFunc<F, Args, R> {
    f: F,
    phantom: PhantomData<(Args, R)>,
}

impl<F, Args, R> OnceFunc<F, Args, R> {
    /// The wrapped function value.
    pub closed spec fn fun(self) -> F {
        self.f
    }

    /// Wrap a function value.
    pub fn new(f: F) -> (r: Self)
        ensures
            r.fun() == f,
    {
        OnceFunc { f, phantom: PhantomData }
    }
}

impl<A1, R, F: Fn(A1) -> R> CallOnce<(A1,)> for Func<F, (A1,), R> {
    type Output = R;

    open spec fn pre(self, args: (A1,)) -> bool {
        call_requires(self.fun(), args)
    }

    open spec fn post(self, args: (A1,), out: R) -> bool {
        call_ensures(self.fun(), args, out)
    }

    fn call_once(self, args: (A1,)) -> (out: R) {
        (self.f)(args.0)
    }
}

impl<A1, R, F: Fn(A1) -> R> CallMut<(A1,)> for Func<F, (A1,), R> {
    open spec fn post_mut(self, args: (A1,), next: Self, out: R) -> bool {
        next == self && call_ensures(self.fun(), args, out)
    }

    proof fn post_mut_refines_post(self, args: (A1,), next: Self, out: R) {
    }

    fn call_mut(&mut self, args: (A1,)) -> (out: R) {
        (self.f)(args.0)
    }
}

impl<A1, R, F: Fn(A1) -> R> Call<(A1,)> for Func<F, (A1,), R> {
    proof fn post_extends_to_post_mut(self, args: (A1,), out: R) {
    }

    fn call(&self, args: (A1,)) -> (out: R) {
        (self.f)(args.0)
    }
}

impl<A1, A2, R, F: Fn(A1, A2) -> R> CallOnce<(A1, A2)> for Func<F, (A1, A2), R> {
    type Output = R;

    open spec fn pre(self, args: (A1, A2)) -> bool {
        call_requires(self.fun(), args)
    }

    open spec fn post(self, args: (A1, A2), out: R) -> bool {
        call_ensures(self.fun(), args, out)
    }

    fn call_once(self, args: (A1, A2)) -> (out: R) {
        (self.f)(args.0, args.1)
    }
}

impl<A1, A2, R, F: Fn(A1, A2) -> R> CallMut<(A1, A2)> for Func<F, (A1, A2), R> {
    open spec fn post_mut(self, args: (A1, A2), next: Self, out: R) -> bool {
        next == self && call_ensures(self.fun(), args, out)
    }

    proof fn post_mut_refines_post(self, args: (A1, A2), next: Self, out: R) {
    }

    fn call_mut(&mut self, args: (A1, A2)) -> (out: R) {
        (self.f)(args.0, args.1)
    }
}

impl<A1, A2, R, F: Fn(A1, A2) -> R> Call<(A1, A2)> for Func<F, (A1, A2), R> {
    proof fn post_extends_to_post_mut(self, args: (A1, A2), out: R) {
    }

    fn call(&self, args: (A1, A2)) -> (out: R) {
        (self.f)(args.0, args.1)
    }
}

impl<A1, A2, A3, R, F: Fn(A1, A2, A3) -> R> CallOnce<(A1, A2, A3)> for Func<F, (A1, A2, A3), R> {
    type Output = R;

    open spec fn pre(self, args: (A1, A2, A3)) -> bool {
        call_requires(self.fun(), args)
    }

    open spec fn post(self, args: (A1, A2, A3), out: R) -> bool {
        call_ensures(self.fun(), args, out)
    }

    fn call_once(self, args: (A1, A2, A3)) -> (out: R) {
        (self.f)(args.0, args.1, args.2)
    }
}

impl<A1, A2, A3, R, F: Fn(A1, A2, A3) -> R> CallMut<(A1, A2, A3)> for Func<F, (A1, A2, A3), R> {
    open spec fn post_mut(self, args: (A1, A2, A3), next: Self, out: R) -> bool {
        next == self && call_ensures(self.fun(), args, out)
    }

    proof fn post_mut_refines_post(self, args: (A1, A2, A3), next: Self, out: R) {
    }

    fn call_mut(&mut self, args: (A1, A2, A3)) -> (out: R) {
        (self.f)(args.0, args.1, args.2)
    }
}

impl<A1, A2, A3, R, F: Fn(A1, A2, A3) -> R> Call<(A1, A2, A3)> for Func<F, (A1, A2, A3), R> {
    proof fn post_extends_to_post_mut(self, args: (A1, A2, A3), out: R) {
    }

    fn call(&self, args: (A1, A2, A3)) -> (out: R) {
        (self.f)(args.0, args.1, args.2)
    }
}

impl<A1, R, F: FnOnce(A1) -> R> CallOnce<(A1,)> for OnceFunc<F, (A1,), R> {
    type Output = R;

    open spec fn pre(self, args: (A1,)) -> bool {
        call_requires(self.fun(), args)
    }

    open spec fn post(self, args: (A1,), out: R) -> bool {
        call_ensures(self.fun(), args, out)
    }

    fn call_once(self, args: (A1,)) -> (out: R) {
        let OnceFunc { f, phantom: _ } = self;
        f(args.0)
    }
}

impl<A1, A2, R, F: FnOnce(A1, A2) -> R> CallOnce<(A1, A2)> for OnceFunc<F, (A1, A2), R> {
    type Output = R;

    open spec fn pre(self, args: (A1, A2)) -> bool {
        call_requires(self.fun(), args)
    }

    open spec fn post(self, args: (A1, A2), out: R) -> bool {
        call_ensures(self.fun(), args, out)
    }

    fn call_once(self, args: (A1, A2)) -> (out: R) {
        let OnceFunc { f, phantom: _ } = self;
        f(args.0, args.1)
    }
}

} // verus!
