//! Verified wide-integer helpers: floor multiply-divide, integer square root,
//! and the adjusted ceiling division used by the swap engine.

use vstd::prelude::*;
use vstd::arithmetic::div_mod::lemma_fundamental_div_mod;
use vstd::arithmetic::div_mod::lemma_mod_division_less_than_divisor;
use vstd::arithmetic::div_mod::lemma_div_is_ordered;
use vstd::arithmetic::div_mod::lemma_div_by_self;
use vstd::arithmetic::div_mod::lemma_div_is_ordered_by_denominator;
use vstd::arithmetic::mul::lemma_mul_inequality;

verus! {

/// Floor of `a * b / denominator`, defined when the denominator is nonzero
/// and the quotient fits in a `u64`.
pub open spec fn mul_div_spec(a: u64, b: u64, denominator: u64) -> Option<u64> {
    if denominator == 0 {
        None
    } else if a * b / (denominator as int) > u64::MAX {
        None
    } else {
        Some((a * b / (denominator as int)) as u64)
    }
}

/// `floor(a * b / denominator)` computed in a 128-bit intermediate; `None`
/// when the denominator is zero or the quotient does not fit in a `u64`.
pub fn mul_div_u64(a: u64, b: u64, denominator: u64) -> (r: Option<u64>)
    ensures
        r == mul_div_spec(a, b, denominator),
{
    if denominator == 0 {
        return None;
    }
    proof {
        lemma_mul_inequality(a as int, u64::MAX as int, b as int);
        lemma_mul_inequality(b as int, u64::MAX as int, u64::MAX as int);
    }
    let wide: u128 = (a as u128) * (b as u128);
    let q: u128 = wide / (denominator as u128);
    if q > u64::MAX as u128 {
        None
    } else {
        Some(q as u64)
    }
}

/// The integer square root: the unique `r` with `r · r ≤ n < (r + 1) · (r + 1)`.
pub open spec fn sqrt_floor(n: int) -> int {
    choose|r: int| 0 <= r && #[trigger] (r * r) <= n && n < (r + 1) * (r + 1)
}

/// Any witness of the square-root property is the value of `sqrt_floor`.
pub proof fn lemma_sqrt_floor_unique(n: int, r: int)
    requires
        0 <= r,
        r * r <= n,
        n < (r + 1) * (r + 1),
    ensures
        sqrt_floor(n) == r,
{
    assert(exists|x: int| 0 <= x && #[trigger] (x * x) <= n && n < (x + 1) * (x + 1)) by {
        assert(0 <= r && r * r <= n && n < (r + 1) * (r + 1));
    }
    let s = sqrt_floor(n);
    assert(0 <= s && s * s <= n && n < (s + 1) * (s + 1));
    if s < r {
        assert((s + 1) * (s + 1) <= r * r) by (nonlinear_arith)
            requires
                0 <= s,
                s + 1 <= r,
        ;
        assert(false);
    }
    if r < s {
        assert((r + 1) * (r + 1) <= s * s) by (nonlinear_arith)
            requires
                0 <= r,
                r + 1 <= s,
        ;
        assert(false);
    }
}

/// Every nonnegative integer has an integer square root.
proof fn lemma_sqrt_floor_exists(n: int)
    requires
        0 <= n,
    ensures
        exists|s: int| 0 <= s && #[trigger] (s * s) <= n && n < (s + 1) * (s + 1),
    decreases n,
{
    if n == 0 {
        let z: int = 0;
        assert(0 <= z && z * z <= n && n < (z + 1) * (z + 1));
    } else {
        lemma_sqrt_floor_exists(n - 1);
        let s = choose|s: int| 0 <= s && #[trigger] (s * s) <= n - 1 && n - 1 < (s + 1) * (s + 1);
        if (s + 1) * (s + 1) <= n {
            // then (s + 1)² is exactly n, and s + 1 is the root
            assert((s + 1) * (s + 1) == n);
            assert(n < (s + 2) * (s + 2)) by (nonlinear_arith)
                requires
                    n == (s + 1) * (s + 1),
                    0 <= s,
            ;
            assert(0 <= s + 1 && (s + 1) * (s + 1) <= n && n < (s + 2) * (s + 2));
        } else {
            assert(0 <= s && s * s <= n && n < (s + 1) * (s + 1));
        }
    }
}

/// The integer square root of a value within 128 bits is well defined and
/// fits in 64 bits.
pub proof fn lemma_sqrt_floor_bounds(n: int)
    requires
        0 <= n <= u128::MAX,
    ensures
        0 <= sqrt_floor(n) <= u64::MAX,
        sqrt_floor(n) * sqrt_floor(n) <= n,
        n < (sqrt_floor(n) + 1) * (sqrt_floor(n) + 1),
{
    lemma_sqrt_floor_exists(n);
    let s = sqrt_floor(n);
    assert(0 <= s && s * s <= n && n < (s + 1) * (s + 1));
    if s > u64::MAX {
        assert(s * s > u128::MAX) by (nonlinear_arith)
            requires
                s >= 0x1_0000_0000_0000_0000,
        ;
        assert(false);
    }
}

/// Floor of the square root of a 128-bit integer, by binary search.  The
/// result always fits in a `u64`.
pub fn integer_sqrt(n: u128) -> (r: u64)
    ensures
        r == sqrt_floor(n as int),
        (r as int) * (r as int) <= n as int,
        (n as int) < (r as int + 1) * (r as int + 1),
{
    let mut lo: u128 = 0;
    let mut hi: u128 = 0x1_0000_0000_0000_0000;
    while lo + 1 < hi
        invariant
            lo < hi,
            hi <= 0x1_0000_0000_0000_0000,
            (lo as int) * (lo as int) <= n as int,
            (n as int) < (hi as int) * (hi as int),
        decreases hi - lo,
    {
        let mid: u128 = lo + (hi - lo) / 2;
        proof {
            assert(lo < mid && mid < hi);
            assert((mid as int) * (mid as int) < 0x1_0000_0000_0000_0000 * 0x1_0000_0000_0000_0000)
                by (nonlinear_arith)
                requires
                    0 <= mid < 0x1_0000_0000_0000_0000,
            ;
        }
        if mid * mid <= n {
            lo = mid;
        } else {
            hi = mid;
        }
    }
    proof {
        lemma_sqrt_floor_unique(n as int, lo as int);
    }
    lo as u64
}

/// The adjusted ceiling division of the swap engine.  Divide `lhs` by `rhs`
/// rounding the quotient up, then shrink the divisor to the least value that
/// still pairs with that quotient without their product falling below `lhs`.
/// Undefined (`None`) when `rhs` is zero or the plain quotient would be zero.
pub open spec fn ceil_div_adjust(lhs: int, rhs: int) -> Option<(int, int)> {
    if rhs <= 0 || lhs < rhs {
        None
    } else if lhs % rhs == 0 {
        Some((lhs / rhs, rhs))
    } else {
        let q = lhs / rhs + 1;
        if lhs % q == 0 {
            Some((q, lhs / q))
        } else {
            Some((q, lhs / q + 1))
        }
    }
}

/// On success the returned pair multiplies to at least `lhs`, the quotient is
/// at least one, and the adjusted divisor stays within the one given.
pub proof fn lemma_ceil_div_adjust_bounds(lhs: int, rhs: int)
    requires
        0 <= lhs,
        ceil_div_adjust(lhs, rhs) is Some,
    ensures
        ({
            let p = ceil_div_adjust(lhs, rhs)->0;
            &&& p.0 * p.1 >= lhs
            &&& 1 <= p.0
            &&& 1 <= p.1 <= rhs
        }),
{
    let p = ceil_div_adjust(lhs, rhs)->0;
    lemma_fundamental_div_mod(lhs, rhs);
    lemma_mod_division_less_than_divisor(lhs, rhs);
    lemma_div_is_ordered(rhs, lhs, rhs);
    lemma_div_by_self(rhs);
    let q0 = lhs / rhs;
    let rem = lhs % rhs;
    assert(1 <= q0);
    if rem == 0 {
        assert(p.0 * p.1 == q0 * rhs == lhs) by (nonlinear_arith)
            requires
                p.0 == q0,
                p.1 == rhs,
                lhs == rhs * q0 + rem,
                rem == 0,
        ;
    } else {
        let q = q0 + 1;
        lemma_fundamental_div_mod(lhs, q);
        lemma_mod_division_less_than_divisor(lhs, q);
        let d0 = lhs / q;
        let rem2 = lhs % q;
        // the ceiling of lhs / q times q is at least lhs
        if rem2 == 0 {
            assert(p.1 * p.0 == d0 * q == lhs) by (nonlinear_arith)
                requires
                    p.0 == q,
                    p.1 == d0,
                    lhs == q * d0 + rem2,
                    rem2 == 0,
            ;
        } else {
            assert(p.0 * p.1 >= lhs) by (nonlinear_arith)
                requires
                    p.0 == q,
                    p.1 == d0 + 1,
                    lhs == q * d0 + rem2,
                    0 <= rem2 < q,
            ;
        }
        // the adjusted divisor never exceeds the one given: lhs < q * rhs
        assert(lhs < q * rhs) by (nonlinear_arith)
            requires
                q == q0 + 1,
                lhs == rhs * q0 + rem,
                rem < rhs,
        ;
        assert(d0 < rhs) by (nonlinear_arith)
            requires
                lhs == q * d0 + rem2,
                0 <= rem2,
                lhs < q * rhs,
                0 < q,
                0 < rhs,
        ;
        if rem2 == 0 {
            assert(1 <= d0) by (nonlinear_arith)
                requires
                    lhs == q * d0 + rem2,
                    rem2 == 0,
                    1 <= lhs,
                    0 <= d0,
            ;
        }
    }
}

/// The adjusted ceiling division, computed on 128-bit integers.
pub fn checked_ceil_div_u128(lhs: u128, rhs: u128) -> (r: Option<(u128, u128)>)
    ensures
        match ceil_div_adjust(lhs as int, rhs as int) {
            None => r is None,
            Some(p) => r matches Some(v) && v.0 as int == p.0 && v.1 as int == p.1,
        },
{
    if rhs == 0 {
        return None;
    }
    let quotient: u128 = lhs / rhs;
    proof {
        lemma_fundamental_div_mod(lhs as int, rhs as int);
        lemma_mod_division_less_than_divisor(lhs as int, rhs as int);
    }
    if quotient == 0 {
        proof {
            assert(lhs as int == rhs as int * 0 + lhs as int % rhs as int);
        }
        return None;
    }
    proof {
        lemma_mul_inequality(1, quotient as int, rhs as int);
    }
    let remainder: u128 = lhs % rhs;
    if remainder == 0 {
        return Some((quotient, rhs));
    }
    proof {
        // the remainder is nonzero, so the divisor is at least two and the
        // bumped quotient cannot overflow
        lemma_div_is_ordered_by_denominator(lhs as int, 2, rhs as int);
        lemma_div_is_ordered(lhs as int, u128::MAX as int, 2);
    }
    let q: u128 = quotient + 1;
    let d: u128 = lhs / q;
    if lhs % q == 0 {
        Some((q, d))
    } else {
        proof {
            lemma_div_is_ordered_by_denominator(lhs as int, 2, q as int);
            lemma_div_is_ordered(lhs as int, u128::MAX as int, 2);
        }
        Some((q, d + 1))
    }
}

} // verus!
