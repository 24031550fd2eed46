//! Numeric range helpers: wrapping a value into a circular range and
//! projecting a value from one range onto another.
//!
//! Both work on plain `i64` values; the angle code uses them with angles
//! given in hundredths of a degree.

use vstd::arithmetic::div_mod::{
    lemma_mod_multiples_basic,
    lemma_div_is_ordered, lemma_div_multiples_vanish, lemma_fundamental_div_mod,
    lemma_fundamental_div_mod_converse_mod, lemma_mod_division_less_than_divisor,
    lemma_small_mod,
};
use vstd::arithmetic::mul::{lemma_mul_inequality, lemma_mul_upper_bound};
use vstd::prelude::*;

verus! {

/// A pair of bounds; the first may exceed the second when a reversed
/// interval is meant.
#[derive(Clone, Copy, PartialEq, Eq, Structural, Debug)]
pub struct Span(pub i64, pub i64);

/// Where `value` lands when the half-open range [start, end) is wrapped
/// around circularly: the unique point of [start, end) that differs from
/// `value` by a multiple of the range's width.
pub open spec fn normalize_by_circular_range_spec(value: int, start: int, end: int) -> int {
    start + (value - start) % (end - start)
}

/// Normalizes any number into the half-open range [start, end) by assuming
/// the range wraps around when going below start or above end.
pub fn normalize_by_circular_range(value: i64, start: i64, end: i64) -> (r: i64)
    requires
        start < end,
    ensures
        r == normalize_by_circular_range_spec(value as int, start as int, end as int),
        start <= r < end,
        (value - r) % (end - start) == 0,
{
    let w: i128 = end as i128 - start as i128;
    let off: i128 = value as i128 - start as i128;
    let m: i128 = if off >= 0 {
        ((off as u128) % (w as u128)) as i128
    } else {
        let p: u128 = (-(off + 1)) as u128;
        let k: u128 = p % (w as u128);
        proof {
            lemma_mod_division_less_than_divisor(p as int, w as int);
            lemma_fundamental_div_mod(p as int, w as int);
            let q = p as int / w as int;
            assert(p as int == w as int * q + k as int);
            assert((-(q + 1)) * w as int == -(w as int * q) - w as int) by (nonlinear_arith);
            assert(off as int == (-(q + 1)) * w as int + (w as int - 1 - k as int));
            lemma_fundamental_div_mod_converse_mod(
                off as int,
                w as int,
                -(q + 1),
                w as int - 1 - k as int,
            );
        }
        w - 1 - (k as i128)
    };
    proof {
        lemma_mod_division_less_than_divisor(off as int, w as int);
        assert(m == off as int % w as int);
        let r_int = normalize_by_circular_range_spec(value as int, start as int, end as int);
        lemma_fundamental_div_mod(off as int, w as int);
        let q = off as int / w as int;
        assert(off as int == w as int * q + m);
        assert(r_int == start + m);
        assert(value - r_int == w as int * q);
        lemma_mod_multiples_basic(q, w as int);
        assert((q * w as int) % (w as int) == 0);
        assert(q * w as int == w as int * q) by (nonlinear_arith);
        assert((value - r_int) % (w as int) == 0);
        assert(w as int == end as int - start as int);
        assert((value - r_int) % (end as int - start as int) == 0);
    }
    (start as i128 + m) as i64
}

/// Applying the circular normalization twice gives the same value as
/// applying it once: a value already inside [start, end) is left alone.
pub proof fn lemma_normalize_by_circular_range_idempotent(value: int, start: int, end: int)
    ensures
        start < end ==> normalize_by_circular_range_spec(
            normalize_by_circular_range_spec(value, start, end),
            start,
            end,
        ) == normalize_by_circular_range_spec(value, start, end),
{
    if start < end {
        let w = end - start;
        let m = (value - start) % w;
        lemma_mod_division_less_than_divisor(value - start, w);
        lemma_small_mod(m as nat, w as nat);
    }
}

/// The point of `range_b` that lies at the same relative offset as `a` in
/// `range_a`, with the division truncated toward zero.
pub open spec fn project_to_range_spec(a: int, range_a: Span, range_b: Span) -> int {
    range_b.0 + (range_b.1 - range_b.0) * (a - range_a.0) / (range_a.1 - range_a.0)
}

/// Projects `a` from `range_a` onto `range_b` by linear interpolation.
pub fn project_to_range(a: i64, range_a: Span, range_b: Span) -> (r: i64)
    requires
        range_a.0 < range_a.1,
        range_a.0 <= a <= range_a.1,
        range_b.0 <= range_b.1,
    ensures
        r == project_to_range_spec(a as int, range_a, range_b),
        range_b.0 <= r <= range_b.1,
{
    let da: u128 = (range_a.1 as i128 - range_a.0 as i128) as u128;
    let dn: u128 = (a as i128 - range_a.0 as i128) as u128;
    let db: u128 = (range_b.1 as i128 - range_b.0 as i128) as u128;
    proof {
        lemma_mul_upper_bound(db as int, 0xffff_ffff_ffff_ffff, dn as int, 0xffff_ffff_ffff_ffff);
    }
    let q: u128 = (db * dn) / da;
    proof {
        lemma_mul_inequality(dn as int, da as int, db as int);
        lemma_div_is_ordered(db as int * dn as int, db as int * da as int, da as int);
        lemma_div_multiples_vanish(db as int, da as int);
        assert(q <= db);
    }
    (range_b.0 as i128 + q as i128) as i64
}

} // verus!
