//! Division rounded to the nearest integer.
use vstd::prelude::*;

verus! {

/// The integer nearest to the quotient `n / d`, for a positive `d`. A
/// quotient halfway between two integers goes to the larger one.
pub open spec fn round_div(n: int, d: int) -> int
    recommends
        d > 0,
{
    (2 * n + d) / (2 * d)
}

/// `round_div(n, d)` differs from the true quotient by at most one half:
/// in twice-scaled terms, `-d < 2 * (q * d - n) <= d`.
pub proof fn lemma_round_div_nearest(n: int, d: int)
    requires
        d > 0,
    ensures
        -d < 2 * (round_div(n, d) * d - n) <= d,
{
    let q = round_div(n, d);
    vstd::arithmetic::div_mod::lemma_fundamental_div_mod(2 * n + d, 2 * d);
    vstd::arithmetic::div_mod::lemma_mod_bound(2 * n + d, 2 * d);
    assert((2 * d) * q == 2 * (q * d)) by (nonlinear_arith);
}

/// Any integer within one half of the quotient, in the sense of
/// [`lemma_round_div_nearest`], is the rounded quotient.
pub proof fn lemma_round_div_unique(n: int, d: int, q: int)
    requires
        d > 0,
        -d < 2 * (q * d - n) <= d,
    ensures
        round_div(n, d) == q,
{
    let r = 2 * n + d - (2 * d) * q;
    assert((2 * d) * q == 2 * (q * d)) by (nonlinear_arith);
    assert(0 <= r < 2 * d);
    vstd::arithmetic::div_mod::lemma_fundamental_div_mod_converse(2 * n + d, 2 * d, q, r);
}

/// A quotient of at least `k` rounds to at least `k`.
pub proof fn lemma_round_div_at_least(n: int, d: int, k: int)
    requires
        d > 0,
        k * d <= n,
    ensures
        k <= round_div(n, d),
{
    let q = round_div(n, d);
    lemma_round_div_nearest(n, d);
    assert(q >= k) by (nonlinear_arith)
        requires
            d > 0,
            k * d <= n,
            -d < 2 * (q * d - n),
    ;
}

/// A quotient of at most `k` rounds to at most `k`.
pub proof fn lemma_round_div_at_most(n: int, d: int, k: int)
    requires
        d > 0,
        n <= k * d,
    ensures
        round_div(n, d) <= k,
{
    let q = round_div(n, d);
    lemma_round_div_nearest(n, d);
    assert(q <= k) by (nonlinear_arith)
        requires
            d > 0,
            n <= k * d,
            2 * (q * d - n) <= d,
    ;
}

/// A quotient between `0` and `k` rounds to an integer between `0` and `k`.
pub proof fn lemma_round_div_bounded(n: int, d: int, k: int)
    requires
        d > 0,
        0 <= n <= k * d,
    ensures
        0 <= round_div(n, d) <= k,
{
    assert(0 * d == 0) by (nonlinear_arith);
    lemma_round_div_at_least(n, d, 0);
    lemma_round_div_at_most(n, d, k);
}

/// A quotient within one half of the integers from `low` to `high` rounds
/// to one of them.
pub proof fn lemma_round_div_within(n: int, d: int, low: int, high: int)
    requires
        d > 0,
        (2 * low - 1) * d <= 2 * n < (2 * high + 1) * d,
    ensures
        low <= round_div(n, d) <= high,
{
    let q = round_div(n, d);
    lemma_round_div_nearest(n, d);
    assert(q >= low) by (nonlinear_arith)
        requires
            d > 0,
            (2 * low - 1) * d <= 2 * n,
            2 * (q * d - n) > -d,
    ;
    assert(q <= high) by (nonlinear_arith)
        requires
            d > 0,
            2 * n < (2 * high + 1) * d,
            2 * (q * d - n) <= d,
    ;
}

/// Rounds the quotient of two unsigned integers to the nearest integer.
pub fn div_round(n: u128, d: u128) -> (q: u128)
    requires
        d > 0,
    ensures
        q == round_div(n as int, d as int),
{
    let whole: u128 = n / d;
    let rest: u128 = n % d;
    proof {
        vstd::arithmetic::div_mod::lemma_fundamental_div_mod(n as int, d as int);
        assert(d * whole == whole * d) by (nonlinear_arith);
        assert((whole + 1) * d == whole * d + d) by (nonlinear_arith);
        assert(d >= 2 ==> whole < u128::MAX) by (nonlinear_arith)
            requires
                n == whole * d + rest,
                0 <= rest,
                n <= u128::MAX,
                whole >= 0,
        ;
    }
    if rest >= d - rest {
        proof {
            lemma_round_div_unique(n as int, d as int, whole + 1);
        }
        whole + 1
    } else {
        proof {
            lemma_round_div_unique(n as int, d as int, whole as int);
        }
        whole
    }
}

} // verus!
