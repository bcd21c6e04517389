//! Easing curves in fixed-point arithmetic.
//!
//! A fraction between zero and one is counted in millionths: the integer `f`
//! stands for `f / UNIT`. The curves are the circular ones, a quarter of a
//! circle traversed at constant speed along the time axis; their values are
//! square roots, which are taken exactly, as integer square roots of scaled
//! arguments, so that every value is the true value of the curve rounded down
//! to a millionth.

use vstd::prelude::*;

verus! {

/// One whole, in the unit that fractions are counted in.
pub const UNIT: u64 = 1_000_000;

/// `r` is the square root of `n`, rounded down.
pub open spec fn is_sqrt_floor(n: nat, r: nat) -> bool {
    r * r <= n < (r + 1) * (r + 1)
}

/// The square root of `n`, rounded down.
pub open spec fn sqrt_floor(n: nat) -> nat {
    choose|r: nat| is_sqrt_floor(n, r)
}

/// The square root of `n`, rounded up.
pub open spec fn sqrt_ceil(n: nat) -> nat {
    let r = sqrt_floor(n);
    if r * r == n {
        r
    } else {
        r + 1
    }
}

/// Squaring keeps the order of natural numbers.
pub proof fn lemma_square_le(a: nat, b: nat)
    requires
        a <= b,
    ensures
        a * a <= b * b,
{
    assert(a * a <= b * b) by (nonlinear_arith)
        requires
            a <= b,
    ;
}

/// A smaller square has the smaller root.
pub proof fn lemma_square_lt_root(a: nat, b: nat)
    requires
        a * a < b * b,
    ensures
        a < b,
{
    if a >= b {
        lemma_square_le(b, a);
    }
}

/// At most one number is the rounded-down square root of `n`.
pub proof fn lemma_sqrt_floor_unique(n: nat, r: nat, s: nat)
    requires
        is_sqrt_floor(n, r),
        is_sqrt_floor(n, s),
    ensures
        r == s,
{
    if r < s {
        lemma_square_le(r + 1, s);
    } else if s < r {
        lemma_square_le(s + 1, r);
    }
}

/// Every natural number has a rounded-down square root.
pub proof fn lemma_sqrt_floor_exists(n: nat)
    ensures
        is_sqrt_floor(n, sqrt_floor(n)),
    decreases n,
{
    if n == 0 {
        assert(is_sqrt_floor(0, 0)) by (nonlinear_arith);
    } else {
        lemma_sqrt_floor_exists((n - 1) as nat);
        let r = sqrt_floor((n - 1) as nat);
        if (r + 1) * (r + 1) <= n {
            assert((r + 1) * (r + 1) < (r + 2) * (r + 2)) by (nonlinear_arith);
            assert(is_sqrt_floor(n, r + 1));
        } else {
            assert(is_sqrt_floor(n, r));
        }
    }
}

/// A number that squares to at most `n`, while its successor squares to more,
/// is the rounded-down square root of `n`.
pub proof fn lemma_sqrt_floor_is(n: nat, r: nat)
    requires
        is_sqrt_floor(n, r),
    ensures
        sqrt_floor(n) == r,
{
    lemma_sqrt_floor_exists(n);
    lemma_sqrt_floor_unique(n, r, sqrt_floor(n));
}

/// The square root of a square is its base.
pub proof fn lemma_sqrt_of_square(r: nat)
    ensures
        sqrt_floor(r * r) == r,
        sqrt_ceil(r * r) == r,
{
    assert(r * r < (r + 1) * (r + 1)) by (nonlinear_arith);
    lemma_sqrt_floor_is(r * r, r);
}

/// A bound on the argument bounds the rounded-up root: if `n` is at most the
/// square of `b`, no root of `n` exceeds `b`.
pub proof fn lemma_sqrt_bounded(n: nat, b: nat)
    requires
        n <= b * b,
    ensures
        sqrt_floor(n) <= sqrt_ceil(n) <= b,
{
    lemma_sqrt_floor_exists(n);
    let r = sqrt_floor(n);
    if r * r == n {
        if r > b {
            lemma_square_le(b + 1, r);
            assert(b * b < (b + 1) * (b + 1)) by (nonlinear_arith);
        }
    } else {
        // r * r < n <= b * b
        lemma_square_lt_root(r, b);
    }
}

/// The square root of `n`, rounded down.
pub fn isqrt(n: u128) -> (r: u128)
    ensures
        r == sqrt_floor(n as nat),
        r <= 0xFFFF_FFFF_FFFF_FFFF,
{
    let mut lo: u128 = 0;
    let mut hi: u128 = 0x1_0000_0000_0000_0000;
    assert(0x1_0000_0000_0000_0000u128 * 0x1_0000_0000_0000_0000u128 > n) by (nonlinear_arith)
        requires
            n <= 0xFFFF_FFFF_FFFF_FFFF_FFFF_FFFF_FFFF_FFFF,
    ;
    while hi - lo > 1
        invariant
            lo < hi <= 0x1_0000_0000_0000_0000,
            lo * lo <= n,
            n < hi * hi,
        decreases hi - lo,
    {
        let mid: u128 = lo + (hi - lo) / 2;
        assert(mid * mid <= 0xFFFF_FFFF_FFFF_FFFFu128 * 0xFFFF_FFFF_FFFF_FFFFu128)
            by (nonlinear_arith)
            requires
                mid <= 0xFFFF_FFFF_FFFF_FFFF,
        ;
        if mid * mid <= n {
            lo = mid;
        } else {
            hi = mid;
        }
    }
    proof {
        assert(hi == lo + 1);
        assert(is_sqrt_floor(n as nat, lo as nat));
        lemma_sqrt_floor_is(n as nat, lo as nat);
    }
    lo
}

/// The square root of `n`, rounded up.
pub fn isqrt_ceil(n: u128) -> (r: u128)
    ensures
        r == sqrt_ceil(n as nat),
        r <= 0x1_0000_0000_0000_0000,
{
    let r = isqrt(n);
    assert(r * r <= 0xFFFF_FFFF_FFFF_FFFFu128 * 0xFFFF_FFFF_FFFF_FFFFu128) by (nonlinear_arith)
        requires
            r <= 0xFFFF_FFFF_FFFF_FFFF,
    ;
    if r * r == n {
        r
    } else {
        r + 1
    }
}

/// The time `i` of `d`, held within the curve's domain.
pub open spec fn clamped(i: nat, d: nat) -> nat {
    if i > d {
        d
    } else {
        i
    }
}

/// The circular ease-out curve at time `i` of `d`, in millionths, rounded
/// down. With `p = i / d` its value is the square root of `(2 - p) * p`.
pub open spec fn circular_out_at(i: nat, d: nat) -> nat {
    let i = clamped(i, d) as int;
    let d = d as int;
    let unit = UNIT as int;
    (sqrt_floor((unit * unit * ((2 * d - i) * i)) as nat) as int / d) as nat
}

/// The circular ease-in-out curve at time `i` of `d`, in millionths, rounded
/// down. With `p = i / d` its value is `(1 - sqrt(1 - 4 * p * p)) / 2` in the
/// first half and `(1 + sqrt((3 - 2 * p) * (2 * p - 1))) / 2` in the second.
pub open spec fn circular_in_out_at(i: nat, d: nat) -> nat {
    let i = clamped(i, d) as int;
    let d = d as int;
    let unit = UNIT as int;
    if 2 * i < d {
        ((unit * d - sqrt_ceil((unit * unit * (d * d - 4 * i * i)) as nat) as int) / (2 * d)) as nat
    } else {
        ((unit * d + sqrt_floor((unit * unit * ((3 * d - 2 * i) * (2 * i - d))) as nat) as int) / (2
            * d)) as nat
    }
}

/// The part `fraction / UNIT` of `width`, rounded down.
pub open spec fn scaled(width: nat, fraction: nat) -> nat {
    width * fraction / (UNIT as nat)
}

proof fn lemma_products_fit(d: nat, a: nat, b: nat)
    requires
        d <= 0xFFFF_FFFF,
        a <= 3 * d,
        b <= 3 * d,
    ensures
        a * b <= 9 * d * d,
        9 * d * d <= 9 * 0xFFFF_FFFF * 0xFFFF_FFFF,
        (UNIT as nat) * (UNIT as nat) * (a * b) <= 1_000_000_000_000 * (9 * 0xFFFF_FFFF
            * 0xFFFF_FFFF),
{
    assert(a * b <= 9 * d * d) by (nonlinear_arith)
        requires
            a <= 3 * d,
            b <= 3 * d,
    ;
    assert(9 * d * d <= 9 * 0xFFFF_FFFF * 0xFFFF_FFFF) by (nonlinear_arith)
        requires
            d <= 0xFFFF_FFFF,
    ;
    assert((UNIT as nat) * (UNIT as nat) == 1_000_000_000_000);
    assert(1_000_000_000_000 * (a * b) <= 1_000_000_000_000 * (9 * 0xFFFF_FFFF * 0xFFFF_FFFF))
        by (nonlinear_arith)
        requires
            a * b <= 9 * 0xFFFF_FFFF * 0xFFFF_FFFF,
    ;
}

/// The circular ease-out curve never leaves the unit interval.
pub proof fn lemma_circular_out_bounded(i: nat, d: nat)
    requires
        d > 0,
    ensures
        circular_out_at(i, d) <= UNIT,
{
    let i = clamped(i, d);
    let u = UNIT as nat;
    let n = u * u * (((2 * d - i) * i) as nat);
    assert((2 * d - i) * i <= d * d) by (nonlinear_arith)
        requires
            0 <= i <= d,
    ;
    assert(n <= (u * d) * (u * d)) by (nonlinear_arith)
        requires
            n == u * u * (((2 * d - i) * i) as nat),
            0 <= (2 * d - i) * i <= d * d,
    ;
    lemma_sqrt_bounded(n, u * d);
    let r = sqrt_floor(n);
    assert(r / d <= u) by (nonlinear_arith)
        requires
            r <= u * d,
            d > 0,
    ;
}

/// The circular ease-in-out curve never leaves the unit interval.
pub proof fn lemma_circular_in_out_bounded(i: nat, d: nat)
    requires
        d > 0,
    ensures
        circular_in_out_at(i, d) <= UNIT,
{
    let i = clamped(i, d);
    let u = UNIT as nat;
    if 2 * i < d {
        let n = u * u * ((d * d - 4 * i * i) as nat);
        let c = sqrt_ceil(n);
        assert(d * d - 4 * i * i <= d * d) by (nonlinear_arith)
            requires
                0 <= i,
        ;
        assert(d * d - 4 * i * i >= 0) by (nonlinear_arith)
            requires
                0 <= 2 * i < d,
        ;
        assert(n <= (u * d) * (u * d)) by (nonlinear_arith)
            requires
                n == u * u * ((d * d - 4 * i * i) as nat),
                0 <= d * d - 4 * i * i <= d * d,
        ;
        lemma_sqrt_bounded(n, u * d);
        let top = u * d - c;
        assert(top / (2 * d as int) <= u) by (nonlinear_arith)
            requires
                0 <= top <= u * d,
                d > 0,
        ;
    } else {
        let n = u * u * (((3 * d - 2 * i) * (2 * i - d)) as nat);
        assert(0 <= (3 * d - 2 * i) * (2 * i - d) <= d * d) by (nonlinear_arith)
            requires
                d <= 2 * i,
                i <= d,
        ;
        assert(n <= (u * d) * (u * d)) by (nonlinear_arith)
            requires
                n == u * u * (((3 * d - 2 * i) * (2 * i - d)) as nat),
                0 <= (3 * d - 2 * i) * (2 * i - d) <= d * d,
        ;
        lemma_sqrt_bounded(n, u * d);
        let r = sqrt_floor(n);
        assert((u * d + r) / (2 * d) <= u) by (nonlinear_arith)
            requires
                r <= u * d,
                d > 0,
        ;
    }
}

/// A part of a width is no wider than the whole, and grows with the width.
pub proof fn lemma_scaled_bounded(width: nat, fraction: nat)
    requires
        fraction <= UNIT,
    ensures
        scaled(width, fraction) <= width,
{
    let u = UNIT as nat;
    assert(width * fraction / u <= width) by (nonlinear_arith)
        requires
            fraction <= u,
            u > 0,
    ;
}

/// A larger width has the larger part, and so has a larger fraction.
pub proof fn lemma_scaled_monotonic(w1: nat, f1: nat, w2: nat, f2: nat)
    requires
        w1 <= w2,
        f1 <= f2,
    ensures
        scaled(w1, f1) <= scaled(w2, f2),
{
    let u = UNIT as nat;
    assert(w1 * f1 <= w2 * f2) by (nonlinear_arith)
        requires
            w1 <= w2,
            f1 <= f2,
    ;
    assert((w1 * f1) / u <= (w2 * f2) / u) by (nonlinear_arith)
        requires
            w1 * f1 <= w2 * f2,
            u > 0,
    ;
}

/// Widening by `k` columns widens a part by at most `k` columns.
pub proof fn lemma_scaled_step(width: nat, k: nat, fraction: nat)
    requires
        fraction <= UNIT,
    ensures
        scaled(width + k, fraction) <= scaled(width, fraction) + k,
{
    let u = UNIT as nat;
    assert((width + k) * fraction / u <= width * fraction / u + k) by (nonlinear_arith)
        requires
            fraction <= u,
            u > 0,
    ;
}

/// Calls `num::clamp`, which returns `min` where the input is below it, `max`
/// where the input is above it, and else the input. It panics, in a debug
/// build, where `min` is greater than `max`.
#[verifier::external_body]
pub(crate) fn clamp_fraction(input: u64, min: u64, max: u64) -> (held: u64)
    requires
        min <= max,
    ensures
        held == if input < min {
            min
        } else if input > max {
            max
        } else {
            input
        },
{
    num::clamp(input, min, max)
}

/// The circular ease-out curve at time `i` of `d`, in millionths.
pub fn circular_out(i: u32, d: u32) -> (f: u64)
    requires
        d > 0,
    ensures
        f == circular_out_at(i as nat, d as nat),
        f <= UNIT,
{
    let i: u32 = if i > d {
        d
    } else {
        i
    };
    let wide_d: u128 = d as u128;
    let wide_i: u128 = i as u128;
    let unit: u128 = UNIT as u128;
    proof {
        lemma_products_fit(d as nat, (2 * d - i) as nat, i as nat);
        lemma_circular_out_bounded(i as nat, d as nat);
    }
    let n: u128 = unit * unit * ((2 * wide_d - wide_i) * wide_i);
    let r = isqrt(n);
    (r / wide_d) as u64
}

/// The circular ease-in-out curve at time `i` of `d`, in millionths.
pub fn circular_in_out(i: u32, d: u32) -> (f: u64)
    requires
        d > 0,
    ensures
        f == circular_in_out_at(i as nat, d as nat),
        f <= UNIT,
{
    let i: u32 = if i > d {
        d
    } else {
        i
    };
    let wide_d: u128 = d as u128;
    let wide_i: u128 = i as u128;
    let unit: u128 = UNIT as u128;
    proof {
        lemma_circular_in_out_bounded(i as nat, d as nat);
    }
    if 2 * wide_i < wide_d {
        proof {
            assert(d * d - 4 * i * i >= 0) by (nonlinear_arith)
                requires
                    0 <= 2 * i < d,
            ;
            assert(d * d - 4 * i * i <= d * d) by (nonlinear_arith)
                requires
                    0 <= i,
            ;
            lemma_products_fit(d as nat, d as nat, d as nat);
            assert((UNIT as nat) * (UNIT as nat) * ((d * d - 4 * i * i) as nat) <= (UNIT as nat)
                * (UNIT as nat) * (d as nat * d as nat)) by (nonlinear_arith)
                requires
                    0 <= d * d - 4 * i * i <= d * d,
            ;
            assert(4 * i * i <= d * d);
            assert(4 * (i * i) == 4 * i * i) by (nonlinear_arith);
        }
        let n: u128 = unit * unit * (wide_d * wide_d - 4 * (wide_i * wide_i));
        let c = isqrt_ceil(n);
        proof {
            let u = UNIT as nat;
            assert(n as nat <= (u * d as nat) * (u * d as nat)) by (nonlinear_arith)
                requires
                    n as nat == u * u * ((d * d - 4 * i * i) as nat),
                    0 <= d * d - 4 * i * i <= d * d,
            ;
            lemma_sqrt_bounded(n as nat, u * d as nat);
            assert(u * d as nat <= 1_000_000 * 0xFFFF_FFFF) by (nonlinear_arith)
                requires
                    u == 1_000_000,
                    d <= 0xFFFF_FFFF,
            ;
        }
        ((unit * wide_d - c) / (2 * wide_d)) as u64
    } else {
        proof {
            lemma_products_fit(d as nat, (3 * d - 2 * i) as nat, (2 * i - d) as nat);
            let u = UNIT as nat;
            let n = u * u * (((3 * d - 2 * i) * (2 * i - d)) as nat);
            assert(0 <= (3 * d - 2 * i) * (2 * i - d) <= d * d) by (nonlinear_arith)
                requires
                    d <= 2 * i,
                    i <= d,
            ;
            assert(n <= (u * d as nat) * (u * d as nat)) by (nonlinear_arith)
                requires
                    n == u * u * (((3 * d - 2 * i) * (2 * i - d)) as nat),
                    0 <= (3 * d - 2 * i) * (2 * i - d) <= d * d,
            ;
            lemma_sqrt_bounded(n, u * d as nat);
            assert(u * d as nat <= 1_000_000 * 0xFFFF_FFFF) by (nonlinear_arith)
                requires
                    u == 1_000_000,
                    d <= 0xFFFF_FFFF,
            ;
        }
        let n: u128 = unit * unit * ((3 * wide_d - 2 * wide_i) * (2 * wide_i - wide_d));
        let r = isqrt(n);
        ((unit * wide_d + r) / (2 * wide_d)) as u64
    }
}

/// The part `fraction / UNIT` of `width`, rounded down.
pub fn scale(width: usize, fraction: u64) -> (part: usize)
    requires
        fraction <= UNIT,
    ensures
        part == scaled(width as nat, fraction as nat),
        part <= width,
{
    proof {
        lemma_scaled_bounded(width as nat, fraction as nat);
        assert(width as nat * fraction as nat <= 0xFFFF_FFFF_FFFF_FFFF * 1_000_000)
            by (nonlinear_arith)
            requires
                width <= 0xFFFF_FFFF_FFFF_FFFF,
                fraction <= 1_000_000,
        ;
    }
    let product: u128 = (width as u128) * (fraction as u128);
    (product / (UNIT as u128)) as usize
}

} // verus!
