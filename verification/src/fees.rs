//! Platform fee arithmetic.
//!
//! A fee rate is a number of parts per thousand. The fee on an amount is the
//! amount times the rate, divided by one thousand and rounded toward zero;
//! the seller receives the rest.

use vstd::prelude::*;
use vstd::arithmetic::div_mod::lemma_fundamental_div_mod;
use vstd::arithmetic::div_mod::lemma_hoist_over_denominator;

verus! {

/// Denominator of the fee rate.
pub const FEE_DENOMINATOR: u32 = 1000;

/// Largest fee rate a marketplace accepts: 30 %.
pub const MAX_FEE_PERCENTAGE: u32 = 300;

/// The platform's share of `amount` at `fee_percentage` parts per thousand,
/// rounded toward zero.
pub open spec fn fee_of(amount: int, fee_percentage: int) -> int {
    if amount >= 0 {
        amount * fee_percentage / 1000
    } else {
        -((-amount) * fee_percentage / 1000)
    }
}

/// What is left of `amount` for the seller once the fee is taken.
pub open spec fn seller_share_of(amount: int, fee_percentage: int) -> int {
    amount - fee_of(amount, fee_percentage)
}

/// Splitting off the thousands: for `0 <= part < 1000`,
/// `(1000 * whole + part) * rate / 1000 == whole * rate + part * rate / 1000`.
proof fn lemma_fee_by_parts(whole: int, part: int, rate: int)
    ensures
        (1000 * whole + part) * rate / 1000 == whole * rate + part * rate / 1000,
{
    assert((1000 * whole + part) * rate == part * rate + (whole * rate) * 1000)
        by (nonlinear_arith);
    lemma_hoist_over_denominator(part * rate, whole * rate, 1000);
}

/// A fee never exceeds the amount it is taken from, nor changes its sign.
pub proof fn lemma_fee_bounds(amount: int, fee_percentage: int)
    requires
        0 <= fee_percentage <= 1000,
    ensures
        amount >= 0 ==> 0 <= fee_of(amount, fee_percentage) <= amount,
        amount <= 0 ==> amount <= fee_of(amount, fee_percentage) <= 0,
{
    let a = if amount >= 0 { amount } else { -amount };
    assert(0 <= a * fee_percentage <= a * 1000) by (nonlinear_arith)
        requires
            0 <= a,
            0 <= fee_percentage <= 1000,
    ;
    lemma_fundamental_div_mod(a * fee_percentage, 1000);
}

/// Fee and seller's share add up to the amount: a sale creates no value and
/// destroys none.
pub proof fn lemma_split_conserves(amount: int, fee_percentage: int)
    ensures
        fee_of(amount, fee_percentage) + seller_share_of(amount, fee_percentage) == amount,
{
}

/// The platform's fee on `amount`.
///
/// The product of amount and rate is never formed, so the result is exact
/// for every amount.
pub fn calculate_fee(amount: i128, fee_percentage: u32) -> (fee: i128)
    requires
        fee_percentage <= FEE_DENOMINATOR,
    ensures
        fee == fee_of(amount as int, fee_percentage as int),
{
    let rate: i128 = fee_percentage as i128;
    let whole: i128 = amount / 1000;
    let part: i128 = amount % 1000;
    proof {
        let a: int = if amount >= 0 { amount as int } else { -(amount as int) };
        let w: int = if amount >= 0 { whole as int } else { -(whole as int) };
        let p: int = if amount >= 0 { part as int } else { -(part as int) };
        assert(a == 1000 * w + p && 0 <= p < 1000 && 0 <= w);
        lemma_fee_by_parts(w, p, rate as int);
        assert(0 <= w * rate <= w * 1000) by (nonlinear_arith)
            requires
                0 <= w,
                0 <= rate <= 1000,
        ;
        assert(0 <= p * rate <= 999 * 1000) by (nonlinear_arith)
            requires
                0 <= p < 1000,
                0 <= rate <= 1000,
        ;
        lemma_fundamental_div_mod(p * rate, 1000);
        assert(whole * rate == if amount >= 0 { w * rate } else { -(w * rate) })
            by (nonlinear_arith)
            requires
                w == if amount >= 0 { whole as int } else { -(whole as int) },
        ;
        assert(part * rate == if amount >= 0 { p * rate } else { -(p * rate) })
            by (nonlinear_arith)
            requires
                p == if amount >= 0 { part as int } else { -(part as int) },
        ;
        lemma_fee_bounds(amount as int, rate as int);
        assert(a * rate / 1000 == w * rate + p * rate / 1000);
    }
    whole * rate + (part * rate) / 1000
}

} // verus!
