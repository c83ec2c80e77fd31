use currycompose::adapt::{Func, OnceFunc};
use currycompose::call::{Call, CallMut, CallOnce};
use currycompose::compose::{Compose, Composition};
use std::rc::Rc;

#[test]
fn single_argument_composition() {
    // g ∘ f with g :: f32 -> f32 and f :: u8 -> f32: gf(x) == g(f(x)).
    let g: Func<_, (f32,), f32> = Func::new(|x: f32| x * x);
    let f: Func<_, (u8,), f32> = Func::new(|x: u8| x as f32);
    let gf: Composition<_, _, (f32,), (u8,)> = g.compose(f);
    let x: u8 = 3;
    assert_eq!(gf.call((x,)), 9.0);
}

#[test]
fn leftover_argument_precedes_forwarded_argument() {
    // g ∘ f with g :: (i64, i64) -> i64 and f :: i32 -> i64: the composition
    // takes g's leftover argument first, then f's argument, and calls
    // g(f(x), y) — with these values 10 * f(3) + 7, never 10 * 7 + f(3).
    let g: Func<_, (i64, i64), i64> = Func::new(|x: i64, y: i64| 10 * x + y);
    let f: Func<_, (i32,), i64> = Func::new(|x: i32| (x + 1) as i64);
    let gf: Composition<_, _, (i64, i64), (i32,)> = g.compose(f);
    let y: i64 = 7;
    let x: i32 = 3;
    assert_eq!(gf.call((y, x)), 47);
    assert_ne!(gf.call((y, x)), 74);
}

#[test]
fn chained_composition_equals_nested_calls() {
    // (g ∘ f) ∘ f on (x, y) equals g(f(x), f(y)).
    let g: Func<_, (f32, f32), f32> = Func::new(|x: f32, y: f32| x + y);
    let f = |x: u8| x as f32;
    let fa: Func<_, (u8,), f32> = Func::new(f);
    let fb: Func<_, (u8,), f32> = Func::new(f);
    let gf: Composition<_, _, (f32, f32), (u8,)> = g.compose(fa);
    let gff: Composition<_, _, (f32, u8), (u8,)> = gf.compose(fb);
    let x: u8 = 1;
    let y: u8 = 1;
    assert_eq!(gff.call((x, y)), 2.0);
}

#[test]
fn deeper_nesting_keeps_argument_order() {
    // ((g ∘ f) ∘ f) applied with distinct values, to pin each argument's slot:
    // g(f(2), f(5)) == 10 * 3 + 6.
    let g: Func<_, (i64, i64), i64> = Func::new(|x: i64, y: i64| 10 * x + y);
    let f = |x: i32| (x + 1) as i64;
    let fa: Func<_, (i32,), i64> = Func::new(f);
    let fb: Func<_, (i32,), i64> = Func::new(f);
    let gf: Composition<_, _, (i64, i64), (i32,)> = g.compose(fa);
    let gff: Composition<_, _, (i64, i32), (i32,)> = gf.compose(fb);
    let x: i32 = 2;
    let y: i32 = 5;
    assert_eq!(gff.call((x, y)), 36);
}

#[test]
fn outer_arity_three() {
    let g: Func<_, (u64, u64, u64), u64> = Func::new(|a: u64, b: u64, c: u64| a * 100 + b * 10 + c);
    let f: Func<_, (u64,), u64> = Func::new(|x: u64| x + 1);
    let gf: Composition<_, _, (u64, u64, u64), (u64,)> = g.compose(f);
    // g(f(5), 2, 3) == 623
    assert_eq!(gf.call((2u64, 3u64, 5u64)), 623);
}

#[test]
fn inner_arity_two() {
    let g: Func<_, (u64,), u64> = Func::new(|x: u64| x * x);
    let f: Func<_, (u64, u64), u64> = Func::new(|a: u64, b: u64| a + b);
    let gf: Composition<_, _, (u64,), (u64, u64)> = g.compose(f);
    // g(f(3, 4)) == 49
    assert_eq!(gf.call((3u64, 4u64)), 49);
}

#[test]
fn outer_arity_two_inner_arity_two() {
    let g: Func<_, (u64, u64), u64> = Func::new(|x: u64, y: u64| x * 10 + y);
    let f: Func<_, (u64, u64), u64> = Func::new(|a: u64, b: u64| a + b);
    let gf: Composition<_, _, (u64, u64), (u64, u64)> = g.compose(f);
    // g(f(3, 4), 9) == 79
    assert_eq!(gf.call((9u64, 3u64, 4u64)), 79);
}

#[test]
fn outer_arity_three_inner_arity_two() {
    let g: Func<_, (u64, u64, u64), u64> = Func::new(|a: u64, b: u64, c: u64| a * 100 + b * 10 + c);
    let f: Func<_, (u64, u64), u64> = Func::new(|a: u64, b: u64| a + b);
    let gf: Composition<_, _, (u64, u64, u64), (u64, u64)> = g.compose(f);
    // g(f(4, 5), 2, 3) == 923
    assert_eq!(gf.call((2u64, 3u64, 4u64, 5u64)), 923);
}

#[test]
fn consuming_inner_gives_consuming_composition() {
    // f consumes a captured vector when invoked, so it supports only the
    // consuming discipline; the composition is then consuming-only as well,
    // and one consuming invocation works.
    let v: Vec<u32> = vec![10, 20, 30];
    let g: Func<_, (u32,), u32> = Func::new(|x: u32| x * 2);
    let f: OnceFunc<_, (u32,), u32> = OnceFunc::new(move |x: u32| {
        let owned = v;
        owned.len() as u32 + x
    });
    let c: Composition<_, _, (u32,), (u32,)> = g.compose(f);
    // g(f(5)) == 2 * (3 + 5)
    assert_eq!(c.call_once((5u32,)), 16);
}

#[test]
fn repeatable_disciplines_agree() {
    let g: Func<_, (u8,), u8> = Func::new(|x: u8| x.wrapping_mul(2));
    let f: Func<_, (u8,), u8> = Func::new(|x: u8| x.wrapping_add(1));
    let mut c: Composition<_, _, (u8,), (u8,)> = g.compose(f);
    assert_eq!(c.call((3u8,)), 8);
    assert_eq!(c.call((3u8,)), 8);
    assert_eq!(c.call_mut((3u8,)), 8);
    assert_eq!(c.call_mut((4u8,)), 10);
    assert_eq!(c.call_once((5u8,)), 12);
}

#[test]
fn composition_owns_and_releases_both_callables() {
    // Both callables are moved into the composition; dropping the
    // composition releases what they held.
    let token_g: Rc<()> = Rc::new(());
    let token_f: Rc<()> = Rc::new(());
    let held_g: Rc<()> = Rc::clone(&token_g);
    let held_f: Rc<()> = Rc::clone(&token_f);
    let g: Func<_, (u8,), u8> = Func::new(move |x: u8| {
        let _held = &held_g;
        x
    });
    let f: Func<_, (u8,), u8> = Func::new(move |x: u8| {
        let _held = &held_f;
        x
    });
    let c: Composition<_, _, (u8,), (u8,)> = g.compose(f);
    assert_eq!(Rc::strong_count(&token_g), 2);
    assert_eq!(Rc::strong_count(&token_f), 2);
    assert_eq!(c.call((9u8,)), 9);
    drop(c);
    assert_eq!(Rc::strong_count(&token_g), 1);
    assert_eq!(Rc::strong_count(&token_f), 1);
}
