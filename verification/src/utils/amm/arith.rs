//! Facts about rounded division that the quoting proofs rest on.

use vstd::arithmetic::div_mod::{
    lemma_div_multiples_vanish_quotient, lemma_fundamental_div_mod,
    lemma_fundamental_div_mod_converse,
};
use vstd::prelude::*;

verus! {

/// The product of two 64-bit values fits in 128 bits.
pub proof fn lemma_u64_product_fits(a: u64, b: u64)
    ensures
        0 <= a as int * b as int <= u128::MAX,
{
    assert(0 <= a as int * b as int <= 0xffff_ffff_ffff_ffff * 0xffff_ffff_ffff_ffff)
        by (nonlinear_arith)
        requires
            0 <= a <= 0xffff_ffff_ffff_ffff,
            0 <= b <= 0xffff_ffff_ffff_ffff,
    ;
}

/// Rounding down: the quotient is the one integer `q` with
/// `b * q <= a < b * q + b`.
pub proof fn lemma_floor_div_bounds(a: int, b: int)
    requires
        0 <= a,
        0 < b,
    ensures
        0 <= a / b,
        b * (a / b) <= a < b * (a / b) + b,
{
    lemma_fundamental_div_mod(a, b);
    assert(0 <= a % b < b);
    if a / b < 0 {
        assert(b * (a / b) <= b * (-1)) by (nonlinear_arith)
            requires
                a / b <= -1,
                0 < b,
        ;
    }
}

/// Any integer `q` with `b * q <= a < b * q + b` is the quotient rounded
/// down.
pub proof fn lemma_floor_div_unique(a: int, b: int, q: int)
    requires
        0 < b,
        b * q <= a < b * q + b,
    ensures
        q == a / b,
{
    assert(q * b == b * q) by (nonlinear_arith);
    lemma_fundamental_div_mod_converse(a, b, q, a - b * q);
}

/// Rounding up: the rounded quotient is the one integer `c` with
/// `b * c - b < a <= b * c`.
pub proof fn lemma_ceil_div_bounds(a: int, b: int)
    requires
        0 <= a,
        0 < b,
    ensures
        0 <= (a + b - 1) / b,
        a <= b * ((a + b - 1) / b) < a + b,
{
    lemma_floor_div_bounds(a + b - 1, b);
}

/// Any integer `c` with `b * c - b < a <= b * c` is the quotient rounded up.
pub proof fn lemma_ceil_div_unique(a: int, b: int, c: int)
    requires
        0 < b,
        a <= b * c < a + b,
    ensures
        c == (a + b - 1) / b,
{
    lemma_floor_div_unique(a + b - 1, b, c);
}

/// Rounding up adds one to the quotient exactly when there is a remainder,
/// and never gives more than the dividend.
pub proof fn lemma_ceil_div_exact(a: int, b: int)
    requires
        0 <= a,
        0 < b,
    ensures
        (a + b - 1) / b == a / b + (if a % b == 0 {
            0int
        } else {
            1int
        }),
        0 <= (a + b - 1) / b <= a,
{
    lemma_fundamental_div_mod(a, b);
    lemma_floor_div_bounds(a, b);
    let q: int = a / b;
    let c: int = if a % b == 0 {
        q
    } else {
        q + 1
    };
    assert(b * (q + 1) == b * q + b) by (nonlinear_arith);
    lemma_ceil_div_unique(a, b, c);
    assert(b * q >= q) by (nonlinear_arith)
        requires
            0 <= q,
            1 <= b,
    ;
}

/// Scaling dividend and divisor by the same positive factor leaves the
/// quotient unchanged.
pub proof fn lemma_scaled_div(a: int, d: int, k: int)
    requires
        0 <= a,
        0 < d,
        0 < k,
    ensures
        (a * k) / (d * k) == a / d,
{
    lemma_div_multiples_vanish_quotient(k, a, d);
    assert(k * a == a * k) by (nonlinear_arith);
    assert(k * d == d * k) by (nonlinear_arith);
}

} // verus!
