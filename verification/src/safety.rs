//! Checks before and after a trade.
//!
//! The exchange reports no fills. What a swap did is read from the wallets
//! afterwards and held against the caller's bounds here.

use crate::accounts::{Swap, SwapTransitive, TokenWallet};
use crate::error::ErrorCode;
use vstd::prelude::*;

verus! {

/// The verdict on a finished trade: the first bound it breaks, in the order
/// input cap, output floor, empty output.
pub open spec fn safety_verdict(
    amount_in_max: u64,
    amount_out_min: u64,
    from_amount: u64,
    to_amount: u64,
) -> Result<(), ErrorCode> {
    if amount_in_max < from_amount {
        Err(ErrorCode::SwapTokenAmountExceedsMax)
    } else if amount_out_min > to_amount {
        Err(ErrorCode::SwapTokenAmountLessThanMin)
    } else if to_amount == 0 {
        Err(ErrorCode::ZeroSwap)
    } else {
        Ok(())
    }
}

/// Whether two wallets may stand on the two sides of a leg.
pub open spec fn wallets_verdict(from: TokenWallet, to: TokenWallet) -> Result<(), ErrorCode> {
    if from.mint == to.mint {
        Err(ErrorCode::SwapTokensCannotMatch)
    } else {
        Ok(())
    }
}

/// Holds the measured amounts of a trade against the caller's bounds.
///
/// `from_amount` is what left the input wallet and `to_amount` what arrived
/// in the output wallet. A trade that brought nothing is rejected even when
/// the caller asked for no minimum.
pub fn apply_safety_checks(
    amount_in_max: u64,
    amount_out_min: u64,
    from_amount: u64,
    to_amount: u64,
) -> (verdict: Result<(), ErrorCode>)
    ensures
        verdict == safety_verdict(amount_in_max, amount_out_min, from_amount, to_amount),
        verdict is Ok <==> from_amount <= amount_in_max && to_amount >= amount_out_min
            && to_amount > 0,
        verdict == Err::<(), ErrorCode>(ErrorCode::SwapTokenAmountExceedsMax) <==> from_amount
            > amount_in_max,
        verdict == Err::<(), ErrorCode>(ErrorCode::SwapTokenAmountLessThanMin) <==> from_amount
            <= amount_in_max && to_amount < amount_out_min,
        verdict == Err::<(), ErrorCode>(ErrorCode::ZeroSwap) <==> from_amount <= amount_in_max
            && to_amount >= amount_out_min && to_amount == 0,
{
    if amount_in_max < from_amount {
        return Err(ErrorCode::SwapTokenAmountExceedsMax);
    }
    if amount_out_min > to_amount {
        return Err(ErrorCode::SwapTokenAmountLessThanMin);
    }
    if to_amount == 0 {
        return Err(ErrorCode::ZeroSwap);
    }
    Ok(())
}

/// Validates that the tokens being swapped are of different mints.
fn _is_valid_swap(from: &TokenWallet, to: &TokenWallet) -> (verdict: Result<(), ErrorCode>)
    ensures
        verdict == wallets_verdict(*from, *to),
{
    if from.mint == to.mint {
        return Err(ErrorCode::SwapTokensCannotMatch);
    }
    Ok(())
}

/// A single-market swap needs a base wallet and a price wallet that hold
/// different assets.
pub fn is_valid_swap(ctx: &Swap) -> (verdict: Result<(), ErrorCode>)
    ensures
        verdict == wallets_verdict(ctx.market.coin_wallet, ctx.pc_wallet),
        verdict is Ok <==> ctx.market.coin_wallet.mint != ctx.pc_wallet.mint,
        verdict is Err ==> verdict == Err::<(), ErrorCode>(ErrorCode::SwapTokensCannotMatch),
{
    _is_valid_swap(&ctx.market.coin_wallet, &ctx.pc_wallet)
}

/// A transitive swap needs two base wallets that hold different assets. The
/// price currency of the two markets is not compared.
pub fn is_valid_swap_transitive(ctx: &SwapTransitive) -> (verdict: Result<(), ErrorCode>)
    ensures
        verdict == wallets_verdict(ctx.from.coin_wallet, ctx.to.coin_wallet),
        verdict is Ok <==> ctx.from.coin_wallet.mint != ctx.to.coin_wallet.mint,
        verdict is Err ==> verdict == Err::<(), ErrorCode>(ErrorCode::SwapTokensCannotMatch),
{
    _is_valid_swap(&ctx.from.coin_wallet, &ctx.to.coin_wallet)
}

} // verus!
