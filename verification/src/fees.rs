use vstd::prelude::*;
use vstd::arithmetic::div_mod::lemma_fundamental_div_mod_converse;

verus! {

/// The largest protocol fee an escrow may carry, in basis points (3%).
pub const MAX_FEE_BPS: u32 = 300;

/// Basis points in a whole.
pub const BPS_DENOMINATOR: i128 = 10000;

/// The protocol fee taken from `amount` at a rate of `fee_bps` basis points,
/// rounded down.
pub open spec fn spec_fee(amount: int, fee_bps: int) -> int {
    amount * fee_bps / 10000
}

proof fn lemma_fee_split(a: int, b: int, q: int, r: int, q2: int, r2: int)
    requires
        a >= 0,
        0 <= b <= 10000,
        a == 10000 * q + r,
        0 <= r < 10000,
        r * b == 10000 * q2 + r2,
        0 <= r2 < 10000,
    ensures
        a * b / 10000 == q * b + q2,
        0 <= q * b + q2 <= a,
        (q * b + q2) * 10000 <= a * b < (q * b + q2 + 1) * 10000,
{
    assert(a * b == (q * b + q2) * 10000 + r2) by (nonlinear_arith)
        requires
            a == 10000 * q + r,
            r * b == 10000 * q2 + r2,
    ;
    lemma_fundamental_div_mod_converse(a * b, 10000, q * b + q2, r2);
    assert(0 <= a * b <= a * 10000) by (nonlinear_arith)
        requires
            a >= 0,
            0 <= b <= 10000,
    ;
    assert(q * b + q2 <= a) by (nonlinear_arith)
        requires
            a * b == (q * b + q2) * 10000 + r2,
            a * b <= a * 10000,
            r2 >= 0,
    ;
    assert(0 <= q * b + q2) by (nonlinear_arith)
        requires
            a * b == (q * b + q2) * 10000 + r2,
            a * b >= 0,
            r2 < 10000,
    ;
}

/// The protocol fee on `amount` at `fee_bps` basis points, rounded down.
/// Computed without an intermediate product that could overflow.
pub fn fee_amount(amount: i128, fee_bps: u32) -> (fee: i128)
    requires
        amount >= 0,
        fee_bps <= 10000,
    ensures
        fee == spec_fee(amount as int, fee_bps as int),
        fee * 10000 <= amount * fee_bps < (fee + 1) * 10000,
        0 <= fee <= amount,
{
    let q: i128 = amount / BPS_DENOMINATOR;
    let r: i128 = amount % BPS_DENOMINATOR;
    let b: i128 = fee_bps as i128;
    assert(q * b <= amount) by (nonlinear_arith)
        requires
            q == amount / 10000,
            amount >= 0,
            0 <= b <= 10000,
    ;
    assert(0 <= q * b) by (nonlinear_arith)
        requires
            q == amount / 10000,
            amount >= 0,
            0 <= b,
    ;
    assert(0 <= r * b <= 10000 * 10000) by (nonlinear_arith)
        requires
            0 <= r < 10000,
            0 <= b <= 10000,
    ;
    let rb: i128 = r * b;
    let q2: i128 = rb / BPS_DENOMINATOR;
    let r2: i128 = rb % BPS_DENOMINATOR;
    proof {
        lemma_fee_split(amount as int, b as int, q as int, r as int, q2 as int, r2 as int);
    }
    q * b + q2
}

/// The fee is the rate applied to the amount, rounded down: the largest
/// whole number of tokens whose 10000-fold does not exceed
/// `amount * fee_bps`.
pub proof fn lemma_fee_is_rounded_down(amount: int, fee_bps: int)
    requires
        amount >= 0,
        0 <= fee_bps,
    ensures
        spec_fee(amount, fee_bps) * 10000 <= amount * fee_bps < (spec_fee(amount, fee_bps) + 1)
            * 10000,
{
    let x = amount * fee_bps;
    vstd::arithmetic::div_mod::lemma_fundamental_div_mod(x, 10000);
    vstd::arithmetic::div_mod::lemma_mod_pos_bound(x, 10000);
    assert(spec_fee(amount, fee_bps) == x / 10000);
}

/// The fee is never negative, never more than the amount, and at most
/// `MAX_FEE_BPS` basis points of it when the rate is within the maximum;
/// a zero rate takes no fee.
pub proof fn lemma_fee_bounds(amount: int, fee_bps: int)
    requires
        amount >= 0,
        0 <= fee_bps <= MAX_FEE_BPS,
    ensures
        0 <= spec_fee(amount, fee_bps) <= amount * (MAX_FEE_BPS as int) / 10000,
        spec_fee(amount, fee_bps) <= amount,
        fee_bps == 0 ==> spec_fee(amount, fee_bps) == 0,
{
    assert(0 <= amount * fee_bps <= amount * 300) by (nonlinear_arith)
        requires
            amount >= 0,
            0 <= fee_bps <= 300,
    ;
    vstd::arithmetic::div_mod::lemma_div_is_ordered(amount * fee_bps, amount * 300, 10000);
    vstd::arithmetic::div_mod::lemma_div_is_ordered(0, amount * fee_bps, 10000);
    assert(amount * 300 / 10000 <= amount) by (nonlinear_arith)
        requires
            amount >= 0,
    ;
}

} // verus!
