//! Division rounded to the nearest integer, as the statistics need it.

use vstd::arithmetic::div_mod::{
    lemma_fundamental_div_mod, lemma_fundamental_div_mod_converse_div,
    lemma_fundamental_div_mod_converse_mod, lemma_mod_bound,
};
use vstd::prelude::*;

verus! {

/// The integer nearest to `n / d`, for a positive `d`. Where two integers
/// are equally near, it is the even one.
pub open spec fn round_half_even(n: int, d: int) -> int {
    let q = n / d;
    let r = n % d;
    if 2 * r < d || (2 * r == d && q % 2 == 0) {
        q
    } else {
        q + 1
    }
}

/// Computes `round_half_even` on unsigned numbers.
pub(crate) fn rounded_div(n: u128, d: u128) -> (rounded: u128)
    requires
        d > 0,
    ensures
        rounded == round_half_even(n as int, d as int),
        rounded <= n,
{
    let q = n / d;
    let r = n % d;
    proof {
        lemma_fundamental_div_mod(n as int, d as int);
        lemma_mod_bound(n as int, d as int);
        lemma_quotient_bound(n as int, d as int);
    }
    if r < d - r || (r == d - r && q % 2 == 0) {
        q
    } else {
        q + 1
    }
}

/// For a dividend that is not negative: the quotient does not exceed it, and
/// where something at least half the divisor is left over, it is smaller.
proof fn lemma_quotient_bound(n: int, d: int)
    requires
        n >= 0,
        d > 0,
    ensures
        0 <= n / d <= n,
        2 * (n % d) >= d ==> n / d < n,
{
    lemma_fundamental_div_mod(n, d);
    lemma_mod_bound(n, d);
    let q = n / d;
    let r = n % d;
    assert(n == d * q + r);
    assert(q >= 0) by (nonlinear_arith)
        requires
            n == d * q + r,
            0 <= r < d,
            n >= 0,
            d > 0,
    ;
    assert(d * q >= q) by (nonlinear_arith)
        requires
            q >= 0,
            d >= 1,
    ;
}

/// The rounded quotient is a nearest integer: it is off from `n / d` by at
/// most a half.
pub proof fn lemma_round_is_nearest(n: int, d: int)
    requires
        d > 0,
    ensures
        -d <= 2 * (n - round_half_even(n, d) * d) <= d,
{
    lemma_fundamental_div_mod(n, d);
    lemma_mod_bound(n, d);
    let q = n / d;
    let r = n % d;
    assert(n == d * q + r);
    assert(d * q == q * d && (q + 1) * d == q * d + d) by (nonlinear_arith);
}

/// A multiple of the divisor is divided without rounding.
pub proof fn lemma_round_exact(q: int, d: int)
    requires
        d > 0,
    ensures
        round_half_even(q * d, d) == q,
{
    lemma_fundamental_div_mod_converse_div(q * d, d, q, 0);
    lemma_fundamental_div_mod_converse_mod(q * d, d, q, 0);
}

/// Rounding is symmetric about zero: the rounded quotient of `-n` is the
/// negative of that of `n`.
pub proof fn lemma_round_negated(n: int, d: int)
    requires
        d > 0,
    ensures
        round_half_even(-n, d) == -round_half_even(n, d),
{
    lemma_fundamental_div_mod(n, d);
    lemma_mod_bound(n, d);
    let q = n / d;
    let r = n % d;
    assert(n == d * q + r);
    if r == 0 {
        assert(-n == (-q) * d + 0) by (nonlinear_arith)
            requires
                n == d * q + r,
                r == 0,
        ;
        lemma_fundamental_div_mod_converse_div(-n, d, -q, 0);
        lemma_fundamental_div_mod_converse_mod(-n, d, -q, 0);
    } else {
        assert(-n == (-q - 1) * d + (d - r)) by (nonlinear_arith)
            requires
                n == d * q + r,
        ;
        lemma_fundamental_div_mod_converse_div(-n, d, -q - 1, d - r);
        lemma_fundamental_div_mod_converse_mod(-n, d, -q - 1, d - r);
    }
}

/// Rounding keeps the order: a dividend that is no larger gives a rounded
/// quotient that is no larger.
pub proof fn lemma_round_monotonic(a: int, b: int, d: int)
    requires
        d > 0,
        a <= b,
    ensures
        round_half_even(a, d) <= round_half_even(b, d),
{
    lemma_fundamental_div_mod(a, d);
    lemma_fundamental_div_mod(b, d);
    lemma_mod_bound(a, d);
    lemma_mod_bound(b, d);
    let qa = a / d;
    let qb = b / d;
    let ra = a % d;
    let rb = b % d;
    assert(qa <= qb) by (nonlinear_arith)
        requires
            a == d * qa + ra,
            b == d * qb + rb,
            0 <= ra < d,
            0 <= rb < d,
            a <= b,
            d > 0,
    ;
    if qa == qb {
        assert(ra <= rb) by (nonlinear_arith)
            requires
                a == d * qa + ra,
                b == d * qb + rb,
                qa == qb,
                a <= b,
        ;
    }
}

} // verus!
