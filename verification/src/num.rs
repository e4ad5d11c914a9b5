//! Truncating division on fixed-point numbers.
//!
//! Rust's `/` on signed integers truncates toward zero, while `/` in
//! specifications is Euclidean. `div_t` is the spec-level account of
//! truncating division by a positive divisor, and `div_trunc` is the
//! executable form, proved to match it.

use vstd::prelude::*;

verus! {

/// Truncating division `a / b` for a positive divisor `b`: the quotient is
/// rounded toward zero, as Rust's `/` rounds it.
pub open spec fn div_t(a: int, b: int) -> int {
    if a >= 0 {
        a / b
    } else {
        -((-a) / b)
    }
}

/// The magnitude of an integer.
pub open spec fn mag(a: int) -> int {
    if a >= 0 {
        a
    } else {
        -a
    }
}

/// Truncating division never grows the magnitude of the dividend.
pub proof fn lemma_div_t_mag(a: int, b: int)
    requires
        b >= 1,
    ensures
        mag(div_t(a, b)) <= mag(a),
        a >= 0 ==> div_t(a, b) >= 0,
        a <= 0 ==> div_t(a, b) <= 0,
{
    if a >= 0 {
        vstd::arithmetic::div_mod::lemma_div_pos_is_pos(a, b);
        vstd::arithmetic::div_mod::lemma_div_nonincreasing(a, b);
    } else {
        vstd::arithmetic::div_mod::lemma_div_pos_is_pos(-a, b);
        vstd::arithmetic::div_mod::lemma_div_nonincreasing(-a, b);
    }
}

/// A bound on the dividend gives the matching bound on the quotient:
/// if `|a| <= b * m` then `|a / b| <= m`.
pub proof fn lemma_div_t_bound(a: int, b: int, m: int)
    requires
        b >= 1,
        m >= 0,
        -(b * m) <= a <= b * m,
    ensures
        -m <= div_t(a, b) <= m,
{
    if a >= 0 {
        vstd::arithmetic::div_mod::lemma_div_is_ordered(a, b * m, b);
        vstd::arithmetic::div_mod::lemma_div_multiples_vanish(m, b);
        vstd::arithmetic::div_mod::lemma_div_pos_is_pos(a, b);
    } else {
        vstd::arithmetic::div_mod::lemma_div_is_ordered(-a, b * m, b);
        vstd::arithmetic::div_mod::lemma_div_multiples_vanish(m, b);
        vstd::arithmetic::div_mod::lemma_div_pos_is_pos(-a, b);
    }
}

/// Truncating division, executable. The divisor must be positive.
pub fn div_trunc(a: i64, b: i64) -> (r: i64)
    requires
        b >= 1,
        a > i64::MIN,
    ensures
        r == div_t(a as int, b as int),
{
    proof {
        lemma_div_t_mag(a as int, b as int);
    }
    match a.checked_div(b) {
        Some(q) => q,
        None => {
            proof {
                assert(false);
            }
            0
        },
    }
}

} // verus!
