//! The protocol fee: one percent, taken in the price currency.
//!
//! The fee is charged on the price-currency side of a trade, never on the
//! base asset. Where the price currency is paid in, the fee is one percent of
//! the caller's input cap, it is skimmed before the order, and the order may
//! spend ninety-nine percent of the cap. Where the price currency is
//! received, the fee is one percent of the proceeds and is skimmed after the
//! order. Both rates are applied as parts per thousand and rounded down, so
//! the fee and the tradable remainder can fall one unit short of the amount
//! they were taken from; that unit stays with the caller.

use vstd::prelude::*;

verus! {

/// Parts per `FEE_DENOMINATOR` that go to the treasury.
pub const FEE_NUMERATOR: u64 = 10;

/// Parts per `FEE_DENOMINATOR` that stay tradable after the fee.
pub const NET_NUMERATOR: u64 = 990;

/// Denominator of both rates.
pub const FEE_DENOMINATOR: u64 = 1000;

/// The fee owed on `amount`: one percent, rounded down.
pub open spec fn fee_of(amount: u64) -> u64 {
    (amount * 10 / 1000) as u64
}

/// What remains tradable of `amount` at the fee rate: ninety-nine percent,
/// rounded down.
pub open spec fn net_of(amount: u64) -> u64 {
    (amount * 990 / 1000) as u64
}

/// Computes the fee owed on `amount`. The product is taken in 128 bits, so
/// every amount is accepted.
pub fn fee_amount(amount: u64) -> (fee: u64)
    ensures
        fee == fee_of(amount),
        fee == amount * 10 / 1000,
        fee == amount / 100,
{
    let rate: u128 = FEE_NUMERATOR as u128;
    assert(rate == 10);
    let scale: u128 = FEE_DENOMINATOR as u128;
    assert(scale == 1000);
    let product: u128 = (amount as u128) * rate;
    let wide: u128 = product / scale;
    wide as u64
}

/// Computes what remains tradable of `amount` at the fee rate. The product
/// is taken in 128 bits, so every amount is accepted.
pub fn net_amount(amount: u64) -> (net: u64)
    ensures
        net == net_of(amount),
        net == amount * 990 / 1000,
        net == amount * 99 / 100,
{
    let rate: u128 = NET_NUMERATOR as u128;
    assert(rate == 990);
    let scale: u128 = FEE_DENOMINATOR as u128;
    assert(scale == 1000);
    let product: u128 = (amount as u128) * rate;
    let wide: u128 = product / scale;
    wide as u64
}

/// The fee and the tradable remainder never add up to more than the amount,
/// and rounding loses at most one unit between them.
pub proof fn lemma_fee_and_net_partition(amount: u64)
    ensures
        fee_of(amount) == amount * 10 / 1000,
        net_of(amount) == amount * 990 / 1000,
        amount - 1 <= fee_of(amount) + net_of(amount) <= amount,
        amount >= 2 <==> net_of(amount) > 0,
        amount >= 100 <==> fee_of(amount) > 0,
{
}

} // verus!
