//! Fixed-point scale constants and small integer helpers shared by the
//! orientation and motion modules.

use vstd::prelude::*;

verus! {

use vstd::arithmetic::div_mod::{lemma_div_is_ordered, lemma_div_multiples_vanish};

/// One world unit (and one radian) in fixed-point steps.
pub const FX_ONE: i64 = 1_000_000;

/// Scale of the half-angle cosine/sine pairs handed in by the host.
/// `TRIG_ONE * TRIG_ONE == FX_ONE`, so a product of two such pairs is a
/// fixed-point value at the `FX_ONE` scale with no further division.
pub const TRIG_ONE: i64 = 1_000;

/// Truncating signed division (rounds towards zero), the behaviour of `/` on
/// the machine integers used by the executable code. Spec-level `/` is
/// Euclidean, so the two only agree on a non-negative dividend.
pub open spec fn sdiv(a: int, d: int) -> int
    recommends
        d > 0,
{
    if a >= 0 {
        a / d
    } else {
        -((-a) / d)
    }
}

/// Clamping into a closed interval.
pub open spec fn clamp_spec(v: int, lo: int, hi: int) -> int
    recommends
        lo <= hi,
{
    if v < lo {
        lo
    } else if v > hi {
        hi
    } else {
        v
    }
}

/// The integer square root, defined by stepping the candidate root up once
/// per unit of the argument.
pub open spec fn sqrt_floor(n: nat) -> nat
    decreases n,
{
    if n == 0 {
        0
    } else {
        let r = sqrt_floor((n - 1) as nat);
        if (r + 1) * (r + 1) <= n {
            r + 1
        } else {
            r
        }
    }
}

/// `sqrt_floor` really is the floor of the square root.
pub proof fn lemma_sqrt_floor_bounds(n: nat)
    ensures
        sqrt_floor(n) * sqrt_floor(n) <= n,
        n < (sqrt_floor(n) + 1) * (sqrt_floor(n) + 1),
    decreases n,
{
    if n == 0 {
        assert(sqrt_floor(n) == 0);
        assert(sqrt_floor(n) * sqrt_floor(n) == 0 && (sqrt_floor(n) + 1) * (sqrt_floor(n) + 1)
            == 1) by (nonlinear_arith)
            requires
                sqrt_floor(n) == 0,
        ;
    } else {
        lemma_sqrt_floor_bounds((n - 1) as nat);
        let r = sqrt_floor((n - 1) as nat);
        if (r + 1) * (r + 1) <= n {
            // then n == (r + 1) * (r + 1), and the next square is larger
            assert(n < (r + 2) * (r + 2)) by (nonlinear_arith)
                requires
                    r >= 0,
                    n <= (r + 1) * (r + 1),
            ;
            assert(sqrt_floor(n) == r + 1);
            assert(sqrt_floor(n) * sqrt_floor(n) == (r + 1) * (r + 1) && (sqrt_floor(n) + 1) * (
            sqrt_floor(n) + 1) == (r + 2) * (r + 2)) by (nonlinear_arith)
                requires
                    sqrt_floor(n) == r + 1,
            ;
        } else {
            assert(sqrt_floor(n) == r);
            assert((sqrt_floor(n) + 1) * (sqrt_floor(n) + 1) == (r + 1) * (r + 1))
                by (nonlinear_arith)
                requires
                    sqrt_floor(n) == r,
            ;
        }
    }
    // products of naturals are themselves natural
    let s = sqrt_floor(n);
    assert(s * s >= 0 && (s + 1) * (s + 1) >= 0) by (nonlinear_arith)
        requires
            s >= 0,
    ;
}

/// If `r` brackets `n` between consecutive squares it equals `sqrt_floor(n)`.
pub proof fn lemma_sqrt_floor_unique(n: nat, r: nat)
    requires
        r * r <= n,
        n < (r + 1) * (r + 1),
    ensures
        r == sqrt_floor(n),
{
    lemma_sqrt_floor_bounds(n);
    let s = sqrt_floor(n);
    if r < s {
        vstd::arithmetic::mul::lemma_mul_upper_bound(r as int + 1, s as int, r as int + 1, s as int);
        assert((r + 1) * (r + 1) <= s * s);
    }
    if s < r {
        vstd::arithmetic::mul::lemma_mul_upper_bound(s as int + 1, r as int, s as int + 1, r as int);
        assert((s + 1) * (s + 1) <= r * r);
    }
}

/// A quotient with magnitude bounded through the divisor: if `|a| <= d * b`
/// then `|sdiv(a, d)| <= b`.
pub proof fn lemma_sdiv_bound(a: int, d: int, b: int)
    requires
        d > 0,
        0 <= b,
        -(d * b) <= a <= d * b,
    ensures
        -b <= sdiv(a, d) <= b,
{
    if a >= 0 {
        lemma_div_is_ordered(a, d * b, d);
        lemma_div_multiples_vanish(b, d);
        vstd::arithmetic::div_mod::lemma_div_pos_is_pos(a, d);
    } else {
        lemma_div_is_ordered(-a, d * b, d);
        lemma_div_multiples_vanish(b, d);
        vstd::arithmetic::div_mod::lemma_div_pos_is_pos(-a, d);
    }
}

/// Clamp a value into `[lo, hi]`.
pub fn clamp_i64(v: i64, lo: i64, hi: i64) -> (r: i64)
    requires
        lo <= hi,
    ensures
        r == clamp_spec(v as int, lo as int, hi as int),
{
    if v < lo {
        lo
    } else if v > hi {
        hi
    } else {
        v
    }
}

/// The integer square root of a machine word, by binary search.
pub fn isqrt_u64(n: u64) -> (r: u64)
    ensures
        r == sqrt_floor(n as nat),
        r * r <= n,
        n < (r + 1) * (r + 1),
{
    let mut lo: u64 = 0;
    let mut hi: u64 = 4_294_967_296;
    proof {
        assert((hi as int) * (hi as int) > n as int) by (nonlinear_arith)
            requires
                hi == 0x1_0000_0000u64,
                n <= u64::MAX,
        ;
    }
    while lo + 1 < hi
        invariant
            lo < hi <= 4_294_967_296,
            (lo as int) * (lo as int) <= n as int,
            n < (hi as int) * (hi as int),
        decreases hi - lo,
    {
        let mid: u64 = lo + (hi - lo) / 2;
        proof {
            assert((mid as int) * (mid as int) <= 0x1_0000_0000int * 0x1_0000_0000int)
                by (nonlinear_arith)
                requires
                    0 <= mid <= 0x1_0000_0000int,
            ;
        }
        if (mid as u128) * (mid as u128) <= n as u128 {
            lo = mid;
        } else {
            hi = mid;
        }
    }
    proof {
        lemma_sqrt_floor_unique(n as nat, lo as nat);
    }
    lo
}

/// Truncating division of a doubled-width intermediate by `FX_ONE`,
/// the step that brings a product of two fixed-point values back to scale.
pub fn fx_scale_down(a: i128) -> (r: i64)
    requires
        -0x4000_0000_0000_0000 <= a <= 0x4000_0000_0000_0000,
    ensures
        r == sdiv(a as int, FX_ONE as int),
{
    if a >= 0 {
        let q: u128 = (a as u128) / (FX_ONE as u128);
        q as i64
    } else {
        let q: u128 = ((-a) as u128) / (FX_ONE as u128);
        -(q as i64)
    }
}

/// Truncating signed division of machine words.
pub fn sdiv_i64(a: i64, d: i64) -> (r: i64)
    requires
        d > 0,
        a > i64::MIN,
    ensures
        r == sdiv(a as int, d as int),
{
    if a >= 0 {
        proof {
            vstd::arithmetic::div_mod::lemma_div_nonincreasing(a as int, d as int);
            vstd::arithmetic::div_mod::lemma_div_pos_is_pos(a as int, d as int);
        }
        ((a as u64) / (d as u64)) as i64
    } else {
        proof {
            vstd::arithmetic::div_mod::lemma_div_nonincreasing(-(a as int), d as int);
            vstd::arithmetic::div_mod::lemma_div_pos_is_pos(-(a as int), d as int);
        }
        -((((-a) as u64) / (d as u64)) as i64)
    }
}

/// Euclidean remainder of `a` modulo a positive `m`, computed from the
/// truncating machine remainder by a sign correction.
pub fn rem_euclid_i64(a: i64, m: i64) -> (r: i64)
    requires
        m > 0,
        a > i64::MIN,
    ensures
        r == (a as int) % (m as int),
        0 <= r < m,
{
    if a >= 0 {
        let r: u64 = (a as u64) % (m as u64);
        proof {
            vstd::arithmetic::div_mod::lemma_mod_division_less_than_divisor(a as int, m as int);
        }
        r as i64
    } else {
        let k: u64 = (-a) as u64;
        let ghost ki: int = -(a as int);
        let ghost mi: int = m as int;
        let mr: u64 = k % (m as u64);
        proof {
            vstd::arithmetic::div_mod::lemma_fundamental_div_mod(ki, mi);
            vstd::arithmetic::div_mod::lemma_mod_division_less_than_divisor(ki, mi);
        }
        if mr == 0 {
            proof {
                // a == (-(k / m)) * m + 0, so a mod m == 0
                assert(a as int == (-(ki / mi)) * mi + 0) by (nonlinear_arith)
                    requires
                        ki == mi * (ki / mi) + ki % mi,
                        ki % mi == 0,
                        a as int == -ki,
                ;
                vstd::arithmetic::div_mod::lemma_fundamental_div_mod_converse_mod(
                    a as int,
                    mi,
                    -(ki / mi),
                    0,
                );
            }
            0
        } else {
            proof {
                // a == (-(k / m) - 1) * m + (m - k % m), and the remainder
                // term lies in [1, m), so it is a mod m
                assert(a as int == (-(ki / mi) - 1) * mi + (mi - mr)) by (nonlinear_arith)
                    requires
                        ki == mi * (ki / mi) + ki % mi,
                        mr == ki % mi,
                        a as int == -ki,
                ;
                vstd::arithmetic::div_mod::lemma_fundamental_div_mod_converse_mod(
                    a as int,
                    mi,
                    -(ki / mi) - 1,
                    mi - mr,
                );
            }
            m - (mr as i64)
        }
    }
}

} // verus!
