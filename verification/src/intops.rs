//! Small integer helpers shared by the filters: clamping, minima and maxima,
//! rounding shifts and integer logarithms.
use vstd::prelude::*;
use vstd::arithmetic::power2::{pow2, lemma_pow2_pos, lemma2_to64, lemma_pow2_strictly_increases};
use vstd::bits::{lemma_u32_shr_is_div, lemma_u32_shl_is_mul, lemma_u32_pow2_no_overflow};
use vstd::arithmetic::div_mod::lemma_div_is_ordered;

verus! {

/// The value `v` clamped to the inclusive range `[lo, hi]` (the lower bound is
/// tested first, so it wins when the range is empty).
pub open spec fn spec_iclip(v: int, lo: int, hi: int) -> int {
    if v < lo {
        lo
    } else if v > hi {
        hi
    } else {
        v
    }
}

pub open spec fn spec_min(a: int, b: int) -> int {
    if a < b {
        a
    } else {
        b
    }
}

pub open spec fn spec_max(a: int, b: int) -> int {
    if a > b {
        a
    } else {
        b
    }
}

/// `v` divided by `2^s`, rounded towards minus infinity: what an arithmetic
/// right shift computes.
pub open spec fn spec_asr(v: int, s: nat) -> int {
    v / (pow2(s) as int)
}

/// Clamps `v` into `[min, max]`.
pub fn iclip(v: i32, min: i32, max: i32) -> (r: i32)
    ensures
        r == spec_iclip(v as int, min as int, max as int),
{
    if v < min {
        min
    } else if v > max {
        max
    } else {
        v
    }
}

/// Clamps a signed size into `[min, max]`.
pub fn clip(v: isize, min: isize, max: isize) -> (r: isize)
    ensures
        r == spec_iclip(v as int, min as int, max as int),
{
    if v < min {
        min
    } else if v > max {
        max
    } else {
        v
    }
}

pub fn imin(a: i32, b: i32) -> (r: i32)
    ensures
        r == spec_min(a as int, b as int),
{
    if a < b {
        a
    } else {
        b
    }
}

pub fn imax(a: i32, b: i32) -> (r: i32)
    ensures
        r == spec_max(a as int, b as int),
{
    if a > b {
        a
    } else {
        b
    }
}

/// The magnitude of `v` carrying the sign of `s`.
pub open spec fn spec_apply_sign(v: int, s: int) -> int {
    if s < 0 {
        -v
    } else {
        v
    }
}

pub fn apply_sign(v: i32, s: i32) -> (r: i32)
    requires
        v > i32::MIN,
    ensures
        r == spec_apply_sign(v as int, s as int),
{
    if s < 0 {
        -v
    } else {
        v
    }
}

/// `2^s` as an `i32`.
pub fn pow2_i32(s: u32) -> (r: i32)
    requires
        s < 31,
    ensures
        r == pow2(s as nat),
        r > 0,
{
    proof {
        lemma_u32_pow2_no_overflow(s as nat);
        lemma_pow2_strictly_increases(s as nat, 31);
        lemma2_to64();
        lemma_u32_shl_is_mul(1u32, s);
    }
    (1u32 << s) as i32
}

/// Arithmetic right shift of a signed value: `v / 2^s` rounded down.
pub fn asr(v: i32, s: u32) -> (r: i32)
    requires
        s < 32,
    ensures
        r == spec_asr(v as int, s as nat),
        v >= 0 ==> 0 <= r <= v,
        v < 0 ==> v <= r < 0,
{
    proof {
        lemma_pow2_pos(s as nat);
        lemma_u32_pow2_no_overflow(s as nat);
    }
    if v >= 0 {
        let u = v as u32;
        proof {
            lemma_u32_shr_is_div(u, s);
            lemma_div_is_ordered(0, v as int, pow2(s as nat) as int);
            lemma_div_is_ordered(v as int, i32::MAX as int, pow2(s as nat) as int);
            vstd::arithmetic::div_mod::lemma_div_basics(i32::MAX as int);
            lemma_div_is_ordered_by_denominator(i32::MAX as int, 1, pow2(s as nat) as int);
            lemma_div_is_ordered_by_denominator(v as int, 1, pow2(s as nat) as int);
            vstd::arithmetic::div_mod::lemma_div_basics(v as int);
        }
        (u >> s) as i32
    } else {
        // v = -(u + 1) with u >= 0, and floor(-(u + 1) / d) = -(floor(u / d)) - 1.
        let u = (-(v + 1)) as u32;
        proof {
            lemma_u32_shr_is_div(u, s);
            let d = pow2(s as nat) as int;
            let q = (u as int) / d;
            lemma_div_is_ordered(0, u as int, d);
            lemma_div_is_ordered(u as int, i32::MAX as int, d);
            vstd::arithmetic::div_mod::lemma_div_basics(i32::MAX as int);
            lemma_div_is_ordered_by_denominator(i32::MAX as int, 1, d);
            lemma_floor_div_negated(u as int, d);
            lemma_div_is_ordered_by_denominator(u as int, 1, d);
            vstd::arithmetic::div_mod::lemma_div_basics(u as int);
        }
        -(((u >> s) as i32)) - 1
    }
}

use vstd::arithmetic::div_mod::lemma_div_is_ordered_by_denominator;

/// For `u >= 0` and `d > 0`: `(-(u + 1)) / d == -(u / d) - 1`.
pub proof fn lemma_floor_div_negated(u: int, d: int)
    requires
        u >= 0,
        d > 0,
    ensures
        (-(u + 1)) / d == -(u / d) - 1,
{
    let q = u / d;
    let r = u % d;
    vstd::arithmetic::div_mod::lemma_fundamental_div_mod(u, d);
    vstd::arithmetic::div_mod::lemma_mod_bound(u, d);
    // -(u + 1) = d * (-q - 1) + (d - 1 - r), with 0 <= d - 1 - r < d
    assert(-(u + 1) == d * (-q - 1) + (d - 1 - r)) by (nonlinear_arith)
        requires
            u == d * q + r,
    ;
    vstd::arithmetic::div_mod::lemma_fundamental_div_mod_converse(-(u + 1), d, -q - 1, d - 1 - r);
}

/// The index of the highest set bit of a positive value (`floor(log2(v))`).
pub open spec fn spec_ulog2(v: nat) -> nat
    decreases v,
{
    if v <= 1 {
        0
    } else {
        1 + spec_ulog2(v / 2)
    }
}

pub proof fn lemma_ulog2_bounds(v: nat)
    requires
        v >= 1,
    ensures
        pow2(spec_ulog2(v)) <= v < pow2(spec_ulog2(v) + 1),
    decreases v,
{
    vstd::arithmetic::power2::lemma_pow2_unfold(spec_ulog2(v) + 1);
    if v > 1 {
        lemma_ulog2_bounds(v / 2);
        vstd::arithmetic::power2::lemma_pow2_unfold(spec_ulog2(v));
    } else {
        lemma2_to64();
    }
}

/// `floor(log2(v))` for `v >= 1`.
pub fn ulog2(v: u32) -> (r: i32)
    requires
        v >= 1,
    ensures
        r == spec_ulog2(v as nat),
        0 <= r < 32,
{
    proof {
        lemma_ulog2_bounds(v as nat);
        lemma2_to64();
        vstd::arithmetic::power2::lemma2_to64_rest();
        if spec_ulog2(v as nat) > 32 {
            lemma_pow2_strictly_increases(32, spec_ulog2(v as nat));
        }
    }
    let mut x = v;
    let mut n: i32 = 0;
    while x > 1
        invariant
            x >= 1,
            0 <= n,
            n + spec_ulog2(x as nat) == spec_ulog2(v as nat),
            spec_ulog2(v as nat) < 32,
        decreases x,
    {
        x = x / 2;
        n = n + 1;
    }
    n
}

} // verus!
