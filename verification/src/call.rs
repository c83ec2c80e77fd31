//! The three calling disciplines a callable value may support, as a
//! capability hierarchy: consuming (`CallOnce`), mutable-repeatable
//! (`CallMut`) and pure-repeatable (`Call`).
//!
//! A callable declares in `pre` which argument lists it accepts and in `post`
//! which results it may produce for them. A mutable-repeatable callable may
//! change its own state on every invocation; `post_mut` relates the state
//! before the call, the arguments, the state after the call and the result.
//! The hierarchy is ordered by capability: pure-repeatable implies
//! mutable-repeatable implies consuming, and each trait carries a proof
//! obligation tying its contract to the weaker one, so that a caller holding
//! the stronger capability may always fall back on the weaker contract.

use vstd::prelude::*;

verus! {

/// A callable that may be invoked at most once, taking ownership of itself
/// and of its argument list.
pub trait CallOnce<Args>: Sized {
    /// The type of the one result value an invocation produces.
    type Output;

    /// Which argument lists this callable accepts.
    spec fn pre(self, args: Args) -> bool;

    /// Which results an invocation on `args` may produce.
    spec fn post(self, args: Args, out: Self::Output) -> bool;

    /// Invoke the callable, consuming it.
    fn call_once(self, args: Args) -> (out: Self::Output)
        requires
            self.pre(args),
        ensures
            self.post(args, out),
    ;
}

/// A callable that may be invoked any number of times, requiring exclusive
/// access to itself each time; its own state may change with every call.
pub trait CallMut<Args>: CallOnce<Args> {
    /// How one invocation relates the state before the call (`self`), the
    /// argument list, the state after the call (`next`) and the result.
    spec fn post_mut(self, args: Args, next: Self, out: Self::Output) -> bool;

    /// Every outcome of a mutable invocation is an outcome the consuming
    /// contract allows for the state the call started from.
    proof fn post_mut_refines_post(self, args: Args, next: Self, out: Self::Output)
        requires
            self.post_mut(args, next, out),
        ensures
            self.post(args, out),
    ;

    /// Invoke the callable through exclusive access.
    fn call_mut(&mut self, args: Args) -> (out: Self::Output)
        requires
            old(self).pre(args),
        ensures
            old(self).post_mut(args, *final(self), out),
    ;
}

/// A callable that may be invoked any number of times through shared access,
/// with no observable state change.
pub trait Call<Args>: CallMut<Args> {
    /// Every outcome of a shared invocation is an outcome the mutable
    /// contract allows with the state left unchanged.
    proof fn post_extends_to_post_mut(self, args: Args, out: Self::Output)
        requires
            self.post(args, out),
        ensures
            self.post_mut(args, self, out),
    ;

    /// Invoke the callable through shared access.
    fn call(&self, args: Args) -> (out: Self::Output)
        requires
            self.pre(args),
        ensures
            self.post(args, out),
    ;
}

} // verus!
