//! Currying function composition: composing two callables `g` and `f` yields
//! a callable `h` with `h(x) == g(f(x))`, and, when `f` consumes only the
//! first of `g`'s arguments, `h(..., x) == g(f(x), ...)` — the leftover
//! arguments of `g` come first in `h`'s own argument list and the arguments
//! of `f` follow them.
//!
//! The crate is organised around the calling disciplines of `call`, the
//! argument-list algebra of `args`, the `Composition` combinator of
//! `compose`, adapters for plain function values in `adapt`, and the proved
//! laws of the algebra in `laws`.

pub mod args;
pub mod call;
pub mod compose;
pub mod adapt;
pub mod laws;
