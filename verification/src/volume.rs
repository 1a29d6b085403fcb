//! The perceptual volume curve.
//!
//! Human loudness perception is non-linear, so the linear slider value is
//! raised to the power 2.5 before it reaches the output device: in integer
//! arithmetic, a slider percentage `v` maps to
//! `v * v * sqrt(1_000_000 * v) / 100` millionths of full amplitude, which
//! equals `(v / 100) ^ 2.5` scaled to a million, up to rounding.

use vstd::arithmetic::div_mod::lemma_div_is_ordered;
use vstd::arithmetic::mul::lemma_mul_inequality;
use vstd::prelude::*;

verus! {

/// The greatest natural number whose square does not exceed `x`.
pub open spec fn sqrt_floor(x: nat) -> nat
    decreases x,
{
    if x == 0 {
        0
    } else {
        let r = sqrt_floor((x - 1) as nat);
        if (r + 1) * (r + 1) <= x {
            r + 1
        } else {
            r
        }
    }
}

/// `sqrt_floor` is characterised by its bounding squares.
pub proof fn lemma_sqrt_floor(x: nat)
    ensures
        sqrt_floor(x) * sqrt_floor(x) <= x,
        x < (sqrt_floor(x) + 1) * (sqrt_floor(x) + 1),
    decreases x,
{
    if x > 0 {
        let prev = sqrt_floor((x - 1) as nat);
        lemma_sqrt_floor((x - 1) as nat);
        assert(sqrt_floor(x) == if (prev + 1) * (prev + 1) <= x {
            prev + 1
        } else {
            prev
        });
        if (prev + 1) * (prev + 1) <= x {
            assert(sqrt_floor(x) == prev + 1);
            assert(x < (prev + 2) * (prev + 2)) by (nonlinear_arith)
                requires
                    x - 1 < (prev + 1) * (prev + 1),
            ;
            assert(x < (sqrt_floor(x) + 1) * (sqrt_floor(x) + 1)) by (nonlinear_arith)
                requires
                    sqrt_floor(x) == prev + 1,
                    x < (prev + 2) * (prev + 2),
            ;
        } else {
            assert(sqrt_floor(x) == prev);
            assert(prev * prev <= x);
        }
    } else {
        assert(sqrt_floor(0) == 0);
        assert(x < (sqrt_floor(x) + 1) * (sqrt_floor(x) + 1)) by (nonlinear_arith)
            requires
                x == 0,
                sqrt_floor(x) == 0,
        ;
    }
}

/// Any number with the bounding squares of `sqrt_floor(x)` is `sqrt_floor(x)`.
pub proof fn lemma_sqrt_floor_unique(x: nat, r: nat)
    requires
        r * r <= x,
        x < (r + 1) * (r + 1),
    ensures
        sqrt_floor(x) == r,
{
    let s = sqrt_floor(x);
    lemma_sqrt_floor(x);
    assert(s == r) by (nonlinear_arith)
        requires
            r * r <= x,
            x < (r + 1) * (r + 1),
            s * s <= x,
            x < (s + 1) * (s + 1),
    ;
}

/// `sqrt_floor` is non-decreasing.
pub proof fn lemma_sqrt_floor_is_ordered(x: nat, y: nat)
    requires
        x <= y,
    ensures
        sqrt_floor(x) <= sqrt_floor(y),
{
    lemma_sqrt_floor(x);
    lemma_sqrt_floor(y);
    assert(sqrt_floor(x) <= sqrt_floor(y)) by (nonlinear_arith)
        requires
            sqrt_floor(x) * sqrt_floor(x) <= x,
            x <= y,
            y < (sqrt_floor(y) + 1) * (sqrt_floor(y) + 1),
    ;
}

/// The perceptual curve: slider percentage (clamped to 100) to millionths
/// of full amplitude.
pub open spec fn volume_amplitude(v: nat) -> nat {
    let p = if v <= 100 {
        v
    } else {
        100
    };
    p * p * sqrt_floor(1000000 * p) / 100
}

/// Integer square root by bisection, for arguments up to one hundred
/// million.
fn isqrt(x: u64) -> (r: u64)
    requires
        x <= 100_000_000,
    ensures
        r == sqrt_floor(x as nat),
        r <= 10_000,
{
    let mut lo: u64 = 0;
    let mut hi: u64 = 10_001;
    while hi - lo > 1
        invariant
            lo < hi <= 10_001,
            (lo * lo) as nat <= x as nat,
            (x as nat) < (hi * hi) as nat,
        decreases hi - lo,
    {
        let mid = lo + (hi - lo) / 2;
        proof {
            assert(mid * mid <= 10_001 * 10_001) by (nonlinear_arith)
                requires
                    mid <= 10_001,
            ;
        }
        if mid * mid <= x {
            lo = mid;
        } else {
            hi = mid;
        }
    }
    proof {
        lemma_sqrt_floor_unique(x as nat, lo as nat);
    }
    lo
}

/// Map a linear volume slider percentage to the amplitude handed to the
/// output device, in millionths of full scale, clamped at the domain ends.
pub fn volume_curve(v: u8) -> (amp: u32)
    ensures
        amp == volume_amplitude(v as nat),
        amp <= 1_000_000,
{
    let p: u64 = if v <= 100 {
        v as u64
    } else {
        100
    };
    let s = isqrt(1_000_000 * p);
    proof {
        assert(p * p <= 10_000) by (nonlinear_arith)
            requires
                p <= 100,
        ;
        assert(p * p * s <= 100_000_000) by (nonlinear_arith)
            requires
                p <= 100,
                s <= 10_000,
        ;
        lemma_div_is_ordered((p * p * s) as int, 100_000_000, 100);
    }
    let amp64 = p * p * s / 100;
    amp64 as u32
}

/// Law: the curve is zero at a silent slider and full scale at a full one.
pub proof fn lemma_volume_curve_bounds()
    ensures
        volume_amplitude(0) == 0,
        volume_amplitude(100) == 1_000_000,
{
    assert(sqrt_floor(0) == 0);
    assert(10_000 * 10_000 <= 100_000_000 && 100_000_000 < 10_001 * 10_001) by (nonlinear_arith);
    lemma_sqrt_floor_unique(100_000_000, 10_000);
    assert(volume_amplitude(100) == 100 * 100 * 10_000 / 100);
}

/// Law: the curve is non-decreasing on the whole slider range.
pub proof fn lemma_volume_curve_monotone(v1: nat, v2: nat)
    requires
        v1 <= v2,
    ensures
        volume_amplitude(v1) <= volume_amplitude(v2),
{
    let p1 = if v1 <= 100 {
        v1
    } else {
        100
    };
    let p2 = if v2 <= 100 {
        v2
    } else {
        100
    };
    assert(p1 <= p2);
    lemma_sqrt_floor_is_ordered(1000000 * p1, 1000000 * p2);
    assert(p1 * p1 * sqrt_floor(1000000 * p1) <= p2 * p2 * sqrt_floor(1000000 * p2))
        by (nonlinear_arith)
        requires
            p1 <= p2,
            sqrt_floor(1000000 * p1) <= sqrt_floor(1000000 * p2),
    ;
    lemma_div_is_ordered(
        (p1 * p1 * sqrt_floor(1000000 * p1)) as int,
        (p2 * p2 * sqrt_floor(1000000 * p2)) as int,
        100,
    );
}

} // verus!
