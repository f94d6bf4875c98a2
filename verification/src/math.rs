//! Fixed-point arithmetic kernel.
//!
//! All simulation quantities are integers: lengths in thousandths of a pixel,
//! dimensionless coefficients in thousandths, time in milliseconds. The one
//! rounding primitive is truncating division (`tdiv`), the rounding Rust's
//! `/` performs on machine integers, and `isqrt` supplies the integer square
//! root needed for distances.

use vstd::prelude::*;
use vstd::arithmetic::div_mod::{
    lemma_div_is_ordered, lemma_div_multiples_vanish, lemma_div_nonincreasing,
    lemma_div_pos_is_pos, lemma_fundamental_div_mod, lemma_mod_division_less_than_divisor,
};
use vstd::arithmetic::mul::lemma_mul_is_commutative;

verus! {

/// Scale of the fixed-point representation: 1000 fixed-point units make one
/// pixel (for lengths), one pixel per second (for velocities), or the
/// coefficient value 1 (for restitution, friction, stiffness and damping).
pub const SCALE: i64 = 1000;

/// Division rounded toward zero, the rounding of Rust's `/` on machine
/// integers. Verus's own `/` on `int` is Euclidean, which differs on
/// negative numerators.
pub open spec fn tdiv(a: int, b: int) -> int
    recommends
        b > 0,
{
    if a >= 0 {
        a / b
    } else {
        -((-a) / b)
    }
}

/// Truncating division never increases magnitude beyond a known multiple of
/// the divisor: if `|a| <= k * b` then `|tdiv(a, b)| <= k`.
pub proof fn lemma_tdiv_mag(a: int, b: int, k: int)
    requires
        b > 0,
        0 <= k,
        -(k * b) <= a <= k * b,
    ensures
        -k <= tdiv(a, b) <= k,
{
    if a >= 0 {
        lemma_div_is_ordered(a, k * b, b);
        lemma_mul_is_commutative(k, b);
        lemma_div_multiples_vanish(k, b);
        if a > 0 {
            lemma_div_pos_is_pos(a, b);
        } else {
            assert(a / b == 0) by {
                vstd::arithmetic::div_mod::lemma_div_of0(b);
            }
        }
    } else {
        lemma_div_is_ordered(-a, k * b, b);
        lemma_mul_is_commutative(k, b);
        lemma_div_multiples_vanish(k, b);
        lemma_div_pos_is_pos(-a, b);
    }
}

/// The magnitude of an integer.
pub open spec fn iabs(a: int) -> int {
    if a >= 0 {
        a
    } else {
        -a
    }
}

/// Truncating division moves its result toward zero: the quotient keeps the
/// numerator's sign and never grows past it.
pub proof fn lemma_tdiv_shrink(a: int, b: int)
    requires
        b > 0,
    ensures
        a >= 0 ==> 0 <= tdiv(a, b) <= a,
        a < 0 ==> a <= tdiv(a, b) <= 0,
{
    if a > 0 {
        lemma_div_nonincreasing(a, b);
        lemma_div_pos_is_pos(a, b);
    } else if a == 0 {
        vstd::arithmetic::div_mod::lemma_div_of0(b);
    } else {
        lemma_div_nonincreasing(-a, b);
        lemma_div_pos_is_pos(-a, b);
    }
}

/// A zero numerator divides to zero.
pub proof fn lemma_tdiv_zero(b: int)
    requires
        b > 0,
    ensures
        tdiv(0, b) == 0,
{
    vstd::arithmetic::div_mod::lemma_div_of0(b);
}

/// Scaling by a coefficient `c <= d` and dividing by `d` never increases
/// magnitude: `|tdiv(a * c, d)| <= |a|`.
pub proof fn lemma_tdiv_scaled_bound(a: int, c: int, d: int)
    requires
        d > 0,
        0 <= c <= d,
    ensures
        a >= 0 ==> 0 <= tdiv(a * c, d) <= a,
        a < 0 ==> a <= tdiv(a * c, d) <= 0,
{
    assert(-(iabs(a) * d) <= a * c <= iabs(a) * d) by (nonlinear_arith)
        requires
            d > 0,
            0 <= c <= d,
            iabs(a) == if a >= 0 { a } else { -a },
    ;
    assert(a >= 0 ==> a * c >= 0) by (nonlinear_arith)
        requires
            c >= 0,
    ;
    assert(a < 0 ==> a * c <= 0) by (nonlinear_arith)
        requires
            c >= 0,
    ;
    lemma_tdiv_mag(a * c, d, iabs(a));
    lemma_tdiv_shrink(a * c, d);
}

/// Multiplying a truncated quotient back by the divisor lands within one
/// divisor of the original value, on the side of zero.
pub proof fn lemma_tdiv_mul_range(a: int, m: int)
    requires
        m > 0,
    ensures
        a - (m - 1) <= m * tdiv(a, m) <= a + (m - 1),
        a >= 0 ==> m * tdiv(a, m) <= a,
        a <= 0 ==> m * tdiv(a, m) >= a,
        m == 1 ==> m * tdiv(a, m) == a,
{
    if a >= 0 {
        lemma_fundamental_div_mod(a, m);
        lemma_mod_division_less_than_divisor(a, m);
    } else {
        lemma_fundamental_div_mod(-a, m);
        lemma_mod_division_less_than_divisor(-a, m);
        assert(m * (-((-a) / m)) == -(m * ((-a) / m))) by (nonlinear_arith);
    }
}

/// Dividing an exact multiple is exact: `tdiv(a * d, d) == a`.
pub proof fn lemma_tdiv_multiple(a: int, d: int)
    requires
        d > 0,
    ensures
        tdiv(a * d, d) == a,
{
    if a >= 0 {
        lemma_mul_is_commutative(a, d);
        lemma_div_multiples_vanish(a, d);
        assert(a * d >= 0) by (nonlinear_arith)
            requires
                a >= 0,
                d > 0,
        ;
    } else {
        lemma_mul_is_commutative(-a, d);
        lemma_div_multiples_vanish(-a, d);
        assert(a * d < 0) by (nonlinear_arith)
            requires
                a < 0,
                d > 0,
        ;
        assert(-(a * d) == (-a) * d) by (nonlinear_arith);
    }
}

/// Truncating division of a 128-bit value, the workhorse behind every scaled
/// multiply-divide of the simulation.
pub fn div_trunc(a: i128, b: i128) -> (r: i128)
    requires
        b > 0,
        a > i128::MIN,
    ensures
        r == tdiv(a as int, b as int),
{
    if a >= 0 {
        let q: u128 = (a as u128) / (b as u128);
        proof {
            lemma_div_nonincreasing(a as int, b as int);
        }
        q as i128
    } else {
        let n: i128 = -a;
        let q: u128 = (n as u128) / (b as u128);
        proof {
            lemma_div_nonincreasing(n as int, b as int);
        }
        -(q as i128)
    }
}

/// `a * b / d` with a 128-bit intermediate product, rounded toward zero.
pub fn muldiv(a: i64, b: i64, d: i64) -> (r: i64)
    requires
        d > 0,
        i64::MIN <= tdiv(a * b, d as int) <= i64::MAX,
    ensures
        r == tdiv(a * b, d as int),
{
    proof {
        assert(i128::MIN < (a as int) * (b as int) <= i128::MAX) by (nonlinear_arith)
            requires
                i64::MIN <= a <= i64::MAX,
                i64::MIN <= b <= i64::MAX,
        ;
    }
    let p: i128 = (a as i128) * (b as i128);
    let q: i128 = div_trunc(p, d as i128);
    q as i64
}

/// The integer square root, defined by rounding down: the largest `r` with
/// `r * r <= n`.
pub open spec fn sqrt_floor(n: nat) -> nat
    decreases n,
{
    if n == 0 {
        0
    } else {
        let p = sqrt_floor((n - 1) as nat);
        if (p + 1) * (p + 1) <= n {
            p + 1
        } else {
            p
        }
    }
}

/// `sqrt_floor(n)` is squeezed between the two neighbouring squares.
pub proof fn lemma_sqrt_floor_bounds(n: nat)
    ensures
        sqrt_floor(n) * sqrt_floor(n) <= n,
        n < (sqrt_floor(n) + 1) * (sqrt_floor(n) + 1),
    decreases n,
{
    if n == 0 {
        assert(sqrt_floor(0) == 0);
        assert(n < (sqrt_floor(n) + 1) * (sqrt_floor(n) + 1)) by (nonlinear_arith)
            requires
                n == 0,
                sqrt_floor(n) == 0,
        ;
    } else {
        lemma_sqrt_floor_bounds((n - 1) as nat);
        let p = sqrt_floor((n - 1) as nat);
        if (p + 1) * (p + 1) <= n {
            assert(sqrt_floor(n) == p + 1);
            assert(n - 1 < (p + 1) * (p + 1));
            assert((p + 1 + 1) * (p + 1 + 1) > n) by (nonlinear_arith)
                requires
                    (p + 1) * (p + 1) <= n,
                    n - 1 < (p + 1) * (p + 1),
            ;
            assert(sqrt_floor(n) * sqrt_floor(n) <= n);
            assert(n < (sqrt_floor(n) + 1) * (sqrt_floor(n) + 1));
        } else {
            assert(sqrt_floor(n) == p);
            assert(sqrt_floor(n) * sqrt_floor(n) <= n);
            assert(n < (sqrt_floor(n) + 1) * (sqrt_floor(n) + 1));
        }
    }
}

/// No two different numbers are squeezed between the same squares: a value
/// `r` with `r * r <= n < (r + 1) * (r + 1)` is `sqrt_floor(n)`.
pub proof fn lemma_sqrt_floor_unique(n: nat, r: nat)
    requires
        r * r <= n,
        n < (r + 1) * (r + 1),
    ensures
        r == sqrt_floor(n),
{
    lemma_sqrt_floor_bounds(n);
    let s = sqrt_floor(n);
    assert(r == s) by (nonlinear_arith)
        requires
            r * r <= n < (r + 1) * (r + 1),
            s * s <= n < (s + 1) * (s + 1),
    ;
}

/// Integer square root by bisection.
pub fn isqrt(n: u64) -> (r: u64)
    ensures
        r == sqrt_floor(n as nat),
{
    let mut lo: u64 = 0;
    let mut hi: u64 = 4294967295;
    proof {
        assert((hi + 1) * (hi + 1) > u64::MAX);
    }
    while lo < hi
        invariant
            lo <= hi,
            hi <= 4294967295,
            (lo as int) * (lo as int) <= n as int,
            (n as int) < ((hi as int) + 1) * ((hi as int) + 1),
        decreases hi - lo,
    {
        let mid: u64 = (lo + hi + 1) / 2;
        proof {
            assert((mid as int) * (mid as int) <= u128::MAX) by (nonlinear_arith)
                requires
                    0 <= mid <= 4294967295u64,
            ;
        }
        let sq: u128 = (mid as u128) * (mid as u128);
        if sq <= n as u128 {
            lo = mid;
        } else {
            hi = mid - 1;
        }
    }
    proof {
        lemma_sqrt_floor_unique(n as nat, lo as nat);
    }
    lo
}

} // verus!
