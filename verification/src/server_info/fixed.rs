//! Fixed-point arithmetic.
//!
//! Every real-valued quantity of the player model (coordinates, vitals,
//! skill progress, distances) is held as a whole number of thousandths.
//! This module provides the two operations on such numbers that are not
//! plain integer arithmetic: the integer square root and the quotient
//! rounded toward zero.

use vstd::arithmetic::div_mod::{
    lemma_basic_div, lemma_div_basics_2, lemma_div_basics_3, lemma_div_decreases,
};
use vstd::prelude::*;

verus! {

/// Whether `r` is the largest number whose square does not exceed `n`.
pub open spec fn is_floor_sqrt(n: nat, r: nat) -> bool {
    r * r <= n < (r + 1) * (r + 1)
}

/// The largest `r` with `r * r <= n`.
pub open spec fn floor_sqrt_of(n: nat) -> nat {
    choose|r: nat| is_floor_sqrt(n, r)
}

proof fn lemma_square_monotonic(a: nat, b: nat)
    requires
        a <= b,
    ensures
        a * a <= b * b,
{
    assert(a * a <= b * b) by (nonlinear_arith)
        requires
            a <= b,
    ;
}

/// A number between two consecutive squares has the smaller one's root as
/// its integer square root: the root is unique.
pub proof fn lemma_floor_sqrt(n: nat, r: nat)
    requires
        is_floor_sqrt(n, r),
    ensures
        floor_sqrt_of(n) == r,
{
    let s = floor_sqrt_of(n);
    if s < r {
        lemma_square_monotonic(s + 1, r);
    } else if r < s {
        lemma_square_monotonic(r + 1, s);
    }
}

/// Integer square root, rounded down.
pub fn floor_sqrt(n: u128) -> (r: u64)
    ensures
        r == floor_sqrt_of(n as nat),
        is_floor_sqrt(n as nat, r as nat),
{
    let mut low: u128 = 0;
    let mut high: u128 = 0x1_0000_0000_0000_0000;
    while high - low > 1
        invariant
            low < high <= 0x1_0000_0000_0000_0000,
            low * low <= n < high * high,
        decreases high - low,
    {
        let mid: u128 = low + (high - low) / 2;
        assert(mid * mid <= 0xffff_ffff_ffff_ffff * 0xffff_ffff_ffff_ffff) by (nonlinear_arith)
            requires
                0 <= mid <= 0xffff_ffff_ffff_ffff,
        ;
        if mid * mid <= n {
            low = mid;
        } else {
            high = mid;
        }
    }
    proof {
        lemma_floor_sqrt(n as nat, low as nat);
    }
    low as u64
}

/// The quotient of `a` by `b`, rounded toward zero.
pub open spec fn quotient_toward_zero(a: int, b: int) -> int {
    if a >= 0 && b > 0 {
        a / b
    } else if a < 0 && b > 0 {
        -((-a) / b)
    } else if a >= 0 && b < 0 {
        -(a / (-b))
    } else {
        (-a) / (-b)
    }
}

/// Division rounded toward zero. The one quotient that does not fit, that
/// of the lowest number by minus one, is left out.
pub fn div_toward_zero(a: i64, b: i64) -> (q: i64)
    requires
        b != 0,
        !(a == i64::MIN && b == -1),
    ensures
        q == quotient_toward_zero(a as int, b as int),
{
    if b > 0 {
        a / b
    } else if b > i64::MIN {
        let opposite: i64 = a / (-b);
        proof {
            // The opposite quotient is the lowest number only for the
            // pair that is left out.
            if a < 0 {
                if b == -1 {
                    lemma_div_basics_2(-(a as int));
                } else {
                    lemma_div_decreases(-(a as int), -(b as int));
                }
            }
        }
        -opposite
    } else if a == i64::MIN {
        proof {
            lemma_div_basics_3(-(b as int));
        }
        1
    } else {
        proof {
            if a >= 0 {
                lemma_basic_div(a as int, -(b as int));
            } else {
                lemma_basic_div(-(a as int), -(b as int));
            }
        }
        0
    }
}

} // verus!
