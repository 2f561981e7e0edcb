//! A swap between two base currencies across two markets.
//!
//! Given the markets A/P and B/P with a common price currency P, the swap
//! sells A for P on the first and buys B with the proceeds on the second. The
//! protocol fee is skimmed from the proceeds between the two legs. Lot
//! rounding on the second leg can leave a little of P unspent; it stays in
//! the caller's price wallet and is reported as the spill.

use crate::accounts::{OrderbookClient, SwapTransitive};
use crate::dex::TakeOrder;
use crate::error::{Defect, ErrorCode};
use crate::fees::{fee_amount, fee_of, net_amount, net_of};
use crate::host::{Action, Amounts, BalanceSnapshot, Balances, Event, Transfer};
use crate::market::MarketDescriptor;
use crate::safety::is_valid_swap_transitive;
use crate::swap::{conclude, conclusion};
use vstd::prelude::*;

verus! {

/// Where a transitive swap stands: what it waits for, and what it has
/// measured so far. `sold` is the outcome of the first leg: the input asset
/// that left and the price currency that arrived.
#[derive(Clone, Copy, Debug, PartialEq, Eq, Structural)]
pub enum TransitiveStage {
    /// Waiting for the balances before the sell order.
    SellBalancesBefore,
    /// Waiting for the state of the market to sell on.
    SellMarket { before: Balances },
    /// Waiting for the exchange to execute the sell order.
    SellOrder { before: Balances },
    /// Waiting for the balances after the sell order.
    SellBalancesAfter { before: Balances },
    /// Waiting for the fee to reach the treasury.
    Fee { sold: Amounts },
    /// Waiting for the balances before the buy order.
    BuyBalancesBefore { sold: Amounts },
    /// Waiting for the state of the market to buy on.
    BuyMarket { sold: Amounts, before: Balances },
    /// Waiting for the exchange to execute the buy order.
    BuyOrder { sold: Amounts, before: Balances },
    /// Waiting for the balances after the buy order.
    BuyBalancesAfter { sold: Amounts, before: Balances },
    /// The swap has ended.
    Done,
}

/// A transitive swap in progress.
#[derive(Clone, Copy, Debug, PartialEq, Eq)]
pub struct TransitiveState {
    pub ctx: SwapTransitive,
    pub amount_in_max: u64,
    pub amount_out_min: u64,
    pub stage: TransitiveStage,
}

/// The price currency the second leg left unspent: what the fee left of the
/// proceeds of the first leg, less what the second leg spent. There is none
/// if the second leg spent more than it was capped at.
pub open spec fn spill_of(sell_proceeds: u64, buy_proceeds: u64) -> Option<u64> {
    if buy_proceeds <= net_of(sell_proceeds) {
        Some((net_of(sell_proceeds) - buy_proceeds) as u64)
    } else {
        None
    }
}

/// Computes the spill of a transitive swap.
pub fn spill_amount(sell_proceeds: u64, buy_proceeds: u64) -> (spill: Option<u64>)
    ensures
        spill == spill_of(sell_proceeds, buy_proceeds),
        spill is Some <==> buy_proceeds <= sell_proceeds * 990 / 1000,
        spill matches Some(left) ==> left == sell_proceeds * 990 / 1000 - buy_proceeds,
{
    net_amount(sell_proceeds).checked_sub(buy_proceeds)
}

impl TransitiveState {
    /// The same swap at another stage.
    pub open spec fn at(&self, stage: TransitiveStage) -> TransitiveState {
        TransitiveState { stage, ..*self }
    }

    /// The request to read the wallets of the first leg: the input asset is
    /// drawn on, the price currency paid into.
    pub open spec fn read_sell_balances(&self) -> Action {
        Action::ReadBalances {
            source: self.ctx.from.coin_wallet.key,
            destination: self.ctx.pc_wallet,
        }
    }

    /// The request to read the wallets of the second leg: the price currency
    /// is drawn on, the output asset paid into.
    pub open spec fn read_buy_balances(&self) -> Action {
        Action::ReadBalances {
            source: self.ctx.pc_wallet,
            destination: self.ctx.to.coin_wallet.key,
        }
    }

    /// The transfer that skims `amount` from the price wallet into the
    /// treasury. The price wallet itself is named as the authority.
    pub open spec fn fee_transfer(&self, amount: u64) -> Transfer {
        Transfer {
            from: self.ctx.pc_wallet,
            to: self.ctx.treasury_usdc,
            authority: self.ctx.pc_wallet,
            amount,
            program_signed: false,
        }
    }

    /// The sell order on a market in state `market`: an ask for the whole
    /// input with no minimum of its own.
    pub open spec fn sell_order_on(&self, market: MarketDescriptor) -> Result<TakeOrder, Defect> {
        self.ctx.orderbook_from_spec().ask_spec(self.amount_in_max, 0, market.lot_size)
    }

    /// The buy order on a market in state `market`: a bid with what the fee
    /// left of the first leg's proceeds, for at least the caller's minimum.
    pub open spec fn buy_order_on(&self, sold: Amounts, market: MarketDescriptor) -> Result<
        TakeOrder,
        Defect,
    > {
        self.ctx.orderbook_to_spec().bid_spec(
            net_of(sold.to_amount),
            self.amount_out_min,
            market.lot_size,
        )
    }

    /// The swap's answer to the balances after the sell order.
    pub open spec fn settle_sale(&self, before: Balances, after: Balances) -> (
        TransitiveState,
        Action,
    ) {
        match (BalanceSnapshot { before, after }).amounts() {
            None => (self.at(TransitiveStage::Done), Action::Abort(Defect::ArithmeticUnderflow)),
            Some(sold) => (
                self.at(TransitiveStage::Fee { sold }),
                Action::Transfer(self.fee_transfer(fee_of(sold.to_amount))),
            ),
        }
    }

    /// The swap's answer to the balances after the buy order. The verdict
    /// holds the input of the first leg and the output of the second against
    /// the caller's own bounds; the spill has no part in it.
    pub open spec fn settle_purchase(&self, sold: Amounts, before: Balances, after: Balances)
        -> (TransitiveState, Action) {
        match (BalanceSnapshot { before, after }).amounts() {
            None => (self.at(TransitiveStage::Done), Action::Abort(Defect::ArithmeticUnderflow)),
            Some(bought) => match spill_of(sold.to_amount, bought.from_amount) {
                None => (
                    self.at(TransitiveStage::Done),
                    Action::Abort(Defect::ArithmeticUnderflow),
                ),
                Some(spill) => (
                    self.at(TransitiveStage::Done),
                    conclusion(
                        self.amount_in_max,
                        self.amount_out_min,
                        Amounts { from_amount: sold.from_amount, to_amount: bought.to_amount },
                        fee_of(sold.to_amount),
                        Some(spill),
                    ),
                ),
            },
        }
    }

    /// The transition of the swap: the state after `event` and the action
    /// that answers it. An event the stage does not wait for ends the swap
    /// with a defect.
    pub open spec fn next(&self, event: Event) -> (TransitiveState, Action) {
        match (self.stage, event) {
            (TransitiveStage::SellBalancesBefore, Event::Balances(before)) => (
                self.at(TransitiveStage::SellMarket { before }),
                Action::LoadMarket { market: self.ctx.from.market },
            ),
            (TransitiveStage::SellMarket { before }, Event::Market(market)) => match self.sell_order_on(
                market,
            ) {
                Ok(take) => (self.at(TransitiveStage::SellOrder { before }), Action::SendTake(take)),
                Err(defect) => (self.at(TransitiveStage::Done), Action::Abort(defect)),
            },
            (TransitiveStage::SellOrder { before }, Event::OrderSent) => (
                self.at(TransitiveStage::SellBalancesAfter { before }),
                self.read_sell_balances(),
            ),
            (TransitiveStage::SellBalancesAfter { before }, Event::Balances(after)) => {
                self.settle_sale(before, after)
            },
            (TransitiveStage::Fee { sold }, Event::Transferred) => (
                self.at(TransitiveStage::BuyBalancesBefore { sold }),
                self.read_buy_balances(),
            ),
            (TransitiveStage::BuyBalancesBefore { sold }, Event::Balances(before)) => (
                self.at(TransitiveStage::BuyMarket { sold, before }),
                Action::LoadMarket { market: self.ctx.to.market },
            ),
            (TransitiveStage::BuyMarket { sold, before }, Event::Market(market)) => match self.buy_order_on(
                sold,
                market,
            ) {
                Ok(take) => (
                    self.at(TransitiveStage::BuyOrder { sold, before }),
                    Action::SendTake(take),
                ),
                Err(defect) => (self.at(TransitiveStage::Done), Action::Abort(defect)),
            },
            (TransitiveStage::BuyOrder { sold, before }, Event::OrderSent) => (
                self.at(TransitiveStage::BuyBalancesAfter { sold, before }),
                self.read_buy_balances(),
            ),
            (TransitiveStage::BuyBalancesAfter { sold, before }, Event::Balances(after)) => {
                self.settle_purchase(sold, before, after)
            },
            _ => (self.at(TransitiveStage::Done), Action::Abort(Defect::UnexpectedEvent)),
        }
    }

    fn moved_to(self, stage: TransitiveStage) -> (moved: TransitiveState)
        ensures
            moved == self.at(stage),
    {
        TransitiveState {
            ctx: self.ctx,
            amount_in_max: self.amount_in_max,
            amount_out_min: self.amount_out_min,
            stage,
        }
    }

    fn sell_balances_request(&self) -> (request: Action)
        ensures
            request == self.read_sell_balances(),
    {
        Action::ReadBalances {
            source: self.ctx.from.coin_wallet.key,
            destination: self.ctx.pc_wallet,
        }
    }

    fn buy_balances_request(&self) -> (request: Action)
        ensures
            request == self.read_buy_balances(),
    {
        Action::ReadBalances {
            source: self.ctx.pc_wallet,
            destination: self.ctx.to.coin_wallet.key,
        }
    }

    fn fee_request(&self, amount: u64) -> (request: Action)
        ensures
            request == Action::Transfer(self.fee_transfer(amount)),
    {
        Action::Transfer(
            Transfer {
                from: self.ctx.pc_wallet,
                to: self.ctx.treasury_usdc,
                authority: self.ctx.pc_wallet,
                amount,
                program_signed: false,
            },
        )
    }

    /// Resumes the swap with what the host observed and returns the state
    /// that follows together with the next action for the host.
    pub fn resume(self, event: Event) -> (step: (TransitiveState, Action))
        ensures
            step == self.next(event),
            step.0 == self.at(step.0.stage),
            step.1.is_final() ==> step.0.stage == TransitiveStage::Done,
            self.stage == TransitiveStage::Done ==> step.1 == Action::Abort(
                Defect::UnexpectedEvent,
            ),
    {
        match (self.stage, event) {
            (TransitiveStage::SellBalancesBefore, Event::Balances(before)) => {
                let request = Action::LoadMarket { market: self.ctx.from.market };
                (self.moved_to(TransitiveStage::SellMarket { before }), request)
            },
            (TransitiveStage::SellMarket { before }, Event::Market(market)) => {
                // Leg 1: the input asset for the price currency.
                let orderbook: OrderbookClient = self.ctx.orderbook_from();
                match orderbook.ask(self.amount_in_max, 0, &market) {
                    Ok(take) => (
                        self.moved_to(TransitiveStage::SellOrder { before }),
                        Action::SendTake(take),
                    ),
                    Err(defect) => (self.moved_to(TransitiveStage::Done), Action::Abort(defect)),
                }
            },
            (TransitiveStage::SellOrder { before }, Event::OrderSent) => {
                let request = self.sell_balances_request();
                (self.moved_to(TransitiveStage::SellBalancesAfter { before }), request)
            },
            (TransitiveStage::SellBalancesAfter { before }, Event::Balances(after)) => {
                match (BalanceSnapshot { before, after }).measure() {
                    None => (
                        self.moved_to(TransitiveStage::Done),
                        Action::Abort(Defect::ArithmeticUnderflow),
                    ),
                    Some(sold) => {
                        let request = self.fee_request(fee_amount(sold.to_amount));
                        (self.moved_to(TransitiveStage::Fee { sold }), request)
                    },
                }
            },
            (TransitiveStage::Fee { sold }, Event::Transferred) => {
                let request = self.buy_balances_request();
                (self.moved_to(TransitiveStage::BuyBalancesBefore { sold }), request)
            },
            (TransitiveStage::BuyBalancesBefore { sold }, Event::Balances(before)) => {
                let request = Action::LoadMarket { market: self.ctx.to.market };
                (self.moved_to(TransitiveStage::BuyMarket { sold, before }), request)
            },
            (TransitiveStage::BuyMarket { sold, before }, Event::Market(market)) => {
                // Leg 2: the price currency for the output asset.
                let orderbook: OrderbookClient = self.ctx.orderbook_to();
                match orderbook.bid(net_amount(sold.to_amount), self.amount_out_min, &market) {
                    Ok(take) => (
                        self.moved_to(TransitiveStage::BuyOrder { sold, before }),
                        Action::SendTake(take),
                    ),
                    Err(defect) => (self.moved_to(TransitiveStage::Done), Action::Abort(defect)),
                }
            },
            (TransitiveStage::BuyOrder { sold, before }, Event::OrderSent) => {
                let request = self.buy_balances_request();
                (self.moved_to(TransitiveStage::BuyBalancesAfter { sold, before }), request)
            },
            (TransitiveStage::BuyBalancesAfter { sold, before }, Event::Balances(after)) => {
                match (BalanceSnapshot { before, after }).measure() {
                    None => (
                        self.moved_to(TransitiveStage::Done),
                        Action::Abort(Defect::ArithmeticUnderflow),
                    ),
                    Some(bought) => {
                        // The price currency spills because whole lots rarely
                        // cost exactly what the first leg brought.
                        match spill_amount(sold.to_amount, bought.from_amount) {
                            None => (
                                self.moved_to(TransitiveStage::Done),
                                Action::Abort(Defect::ArithmeticUnderflow),
                            ),
                            Some(spill) => {
                                let last = conclude(
                                    self.amount_in_max,
                                    self.amount_out_min,
                                    Amounts {
                                        from_amount: sold.from_amount,
                                        to_amount: bought.to_amount,
                                    },
                                    fee_amount(sold.to_amount),
                                    Some(spill),
                                );
                                (self.moved_to(TransitiveStage::Done), last)
                            },
                        }
                    },
                }
            },
            _ => (self.moved_to(TransitiveStage::Done), Action::Abort(Defect::UnexpectedEvent)),
        }
    }
}

/// How a transitive swap begins: with the error of two base wallets of one
/// asset, else with the balance reading before the sell order.
pub open spec fn swap_transitive_start(ctx: SwapTransitive, amount_in_max: u64, amount_out_min: u64)
    -> (TransitiveState, Action) {
    let state = TransitiveState {
        ctx,
        amount_in_max,
        amount_out_min,
        stage: TransitiveStage::Done,
    };
    if ctx.from.coin_wallet.mint == ctx.to.coin_wallet.mint {
        (state, Action::Fail(ErrorCode::SwapTokensCannotMatch))
    } else {
        (state.at(TransitiveStage::SellBalancesBefore), state.read_sell_balances())
    }
}

/// Begins a swap of one base currency for another across two markets that
/// share their price currency: the input asset is sold on the first market
/// and the output asset bought with the proceeds on the second.
///
/// `amount_in_max` is the most of the input asset to give and
/// `amount_out_min` the least of the output asset to accept; the swap fails
/// if the trades would bring less.
///
/// Returns the swap's first state and the first action for the host. The
/// host performs each action and calls `resume` with its outcome until an
/// action ends the swap.
pub fn swap_transitive(ctx: &SwapTransitive, amount_in_max: u64, amount_out_min: u64) -> (step: (
    TransitiveState,
    Action,
))
    ensures
        step == swap_transitive_start(*ctx, amount_in_max, amount_out_min),
        step.0.ctx == *ctx && step.0.amount_in_max == amount_in_max && step.0.amount_out_min
            == amount_out_min,
        step.1 == Action::Fail(ErrorCode::SwapTokensCannotMatch) <==> ctx.from.coin_wallet.mint
            == ctx.to.coin_wallet.mint,
        step.1.is_final() <==> ctx.from.coin_wallet.mint == ctx.to.coin_wallet.mint,
        step.1 is ReadBalances <==> ctx.from.coin_wallet.mint != ctx.to.coin_wallet.mint,
{
    let state = TransitiveState {
        ctx: *ctx,
        amount_in_max,
        amount_out_min,
        stage: TransitiveStage::Done,
    };
    match is_valid_swap_transitive(ctx) {
        Err(error) => (state, Action::Fail(error)),
        Ok(_) => {
            let request = state.sell_balances_request();
            (state.moved_to(TransitiveStage::SellBalancesBefore), request)
        },
    }
}

} // verus!
