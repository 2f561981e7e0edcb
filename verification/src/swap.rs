//! A swap on a single market.
//!
//! The swap skims the protocol fee from the price currency: before the trade
//! when the price currency is paid in (a bid), after it when the price
//! currency is received (an ask). It snapshots the two wallets round the
//! order and judges the difference against the caller's bounds.

use crate::accounts::{OrderbookClient, Swap};
use crate::address::Address;
use crate::dex::TakeOrder;
use crate::error::{Defect, ErrorCode};
use crate::fees::{fee_amount, fee_of, net_amount, net_of};
use crate::host::{Action, Amounts, BalanceSnapshot, Balances, Event, Receipt, Transfer};
use crate::market::{MarketDescriptor, Side};
use crate::safety::{apply_safety_checks, is_valid_swap, safety_verdict};
use vstd::prelude::*;

verus! {

/// Where a swap stands: what it waits for, and what it has measured so far.
#[derive(Clone, Copy, Debug, PartialEq, Eq, Structural)]
pub enum SwapStage {
    /// Waiting for the fee of a bid to reach the treasury.
    FeeBeforeTrade,
    /// Waiting for the balances before the order.
    BalancesBefore,
    /// Waiting for the market's state.
    Market { before: Balances },
    /// Waiting for the exchange to execute the order.
    Order { before: Balances },
    /// Waiting for the balances after the order.
    BalancesAfter { before: Balances },
    /// Waiting for the fee of an ask to reach the treasury.
    FeeAfterTrade { moved: Amounts },
    /// The swap has ended.
    Done,
}

/// A swap in progress.
#[derive(Clone, Copy, Debug, PartialEq, Eq)]
pub struct SwapState {
    pub ctx: Swap,
    pub side: Side,
    pub amount_in_max: u64,
    pub amount_out_min: u64,
    pub stage: SwapStage,
}

/// The final action of a swap that measured `moved`: success with a receipt
/// if the amounts are within `bound` and `amount_out_min`, else the error of
/// the bound they break.
pub open spec fn conclusion(
    bound: u64,
    amount_out_min: u64,
    moved: Amounts,
    fee: u64,
    spill: Option<u64>,
) -> Action {
    match safety_verdict(bound, amount_out_min, moved.from_amount, moved.to_amount) {
        Ok(_) => Action::Succeed(
            Receipt { from_amount: moved.from_amount, to_amount: moved.to_amount, fee, spill },
        ),
        Err(error) => Action::Fail(error),
    }
}

/// Judges the measured amounts of a swap and ends it.
pub fn conclude(bound: u64, amount_out_min: u64, moved: Amounts, fee: u64, spill: Option<u64>)
    -> (last: Action)
    ensures
        last == conclusion(bound, amount_out_min, moved, fee, spill),
        last.is_final(),
        last is Succeed <==> moved.from_amount <= bound && moved.to_amount >= amount_out_min
            && moved.to_amount > 0,
{
    match apply_safety_checks(bound, amount_out_min, moved.from_amount, moved.to_amount) {
        Ok(_) => Action::Succeed(
            Receipt { from_amount: moved.from_amount, to_amount: moved.to_amount, fee, spill },
        ),
        Err(error) => Action::Fail(error),
    }
}

impl SwapState {
    /// The wallet the trade draws on: the price wallet for a bid, the base
    /// wallet for an ask.
    pub open spec fn source(&self) -> Address {
        match self.side {
            Side::Bid => self.ctx.pc_wallet.key,
            Side::Ask => self.ctx.market.coin_wallet.key,
        }
    }

    /// The wallet the trade pays into.
    pub open spec fn destination(&self) -> Address {
        match self.side {
            Side::Bid => self.ctx.market.coin_wallet.key,
            Side::Ask => self.ctx.pc_wallet.key,
        }
    }

    /// The request to read both wallets of the trade.
    pub open spec fn read_balances(&self) -> Action {
        Action::ReadBalances { source: self.source(), destination: self.destination() }
    }

    /// The most the order may draw from the source wallet: for a bid what is
    /// left of the input after the fee, for an ask the whole input.
    pub open spec fn trade_cap(&self) -> u64 {
        match self.side {
            Side::Bid => net_of(self.amount_in_max),
            Side::Ask => self.amount_in_max,
        }
    }

    /// The transfer that skims `amount` from the price wallet into the
    /// treasury. The price wallet itself is named as the authority.
    pub open spec fn fee_transfer(&self, amount: u64) -> Transfer {
        Transfer {
            from: self.ctx.pc_wallet.key,
            to: self.ctx.treasury_usdc,
            authority: self.ctx.pc_wallet.key,
            amount,
            program_signed: false,
        }
    }

    /// The fee of the swap when it has moved `moved`: one percent of the
    /// input cap for a bid, of the proceeds for an ask.
    pub open spec fn fee_due(&self, moved: Amounts) -> u64 {
        match self.side {
            Side::Bid => fee_of(self.amount_in_max),
            Side::Ask => fee_of(moved.to_amount),
        }
    }

    /// The order of the swap on a market in state `market`.
    pub open spec fn order_on(&self, market: MarketDescriptor) -> Result<TakeOrder, Defect> {
        let client = self.ctx.orderbook();
        match self.side {
            Side::Bid => client.bid_spec(self.trade_cap(), self.amount_out_min, market.lot_size),
            Side::Ask => client.ask_spec(self.trade_cap(), self.amount_out_min, market.lot_size),
        }
    }

    /// The same swap at another stage.
    pub open spec fn at(&self, stage: SwapStage) -> SwapState {
        SwapState { stage, ..*self }
    }

    /// The swap's answer to the balances after the order.
    pub open spec fn settle(&self, before: Balances, after: Balances) -> (SwapState, Action) {
        match (BalanceSnapshot { before, after }).amounts() {
            None => (self.at(SwapStage::Done), Action::Abort(Defect::ArithmeticUnderflow)),
            Some(moved) => match self.side {
                Side::Bid => (
                    self.at(SwapStage::Done),
                    conclusion(
                        self.trade_cap(),
                        self.amount_out_min,
                        moved,
                        self.fee_due(moved),
                        None,
                    ),
                ),
                Side::Ask => (
                    self.at(SwapStage::FeeAfterTrade { moved }),
                    Action::Transfer(self.fee_transfer(fee_of(moved.to_amount))),
                ),
            },
        }
    }

    /// The transition of the swap: the state after `event` and the action
    /// that answers it. An event the stage does not wait for ends the swap
    /// with a defect.
    pub open spec fn next(&self, event: Event) -> (SwapState, Action) {
        match (self.stage, event) {
            (SwapStage::FeeBeforeTrade, Event::Transferred) => (
                self.at(SwapStage::BalancesBefore),
                self.read_balances(),
            ),
            (SwapStage::BalancesBefore, Event::Balances(before)) => (
                self.at(SwapStage::Market { before }),
                Action::LoadMarket { market: self.ctx.market.market },
            ),
            (SwapStage::Market { before }, Event::Market(market)) => match self.order_on(market) {
                Ok(take) => (self.at(SwapStage::Order { before }), Action::SendTake(take)),
                Err(defect) => (self.at(SwapStage::Done), Action::Abort(defect)),
            },
            (SwapStage::Order { before }, Event::OrderSent) => (
                self.at(SwapStage::BalancesAfter { before }),
                self.read_balances(),
            ),
            (SwapStage::BalancesAfter { before }, Event::Balances(after)) => self.settle(
                before,
                after,
            ),
            (SwapStage::FeeAfterTrade { moved }, Event::Transferred) => (
                self.at(SwapStage::Done),
                conclusion(
                    self.trade_cap(),
                    self.amount_out_min,
                    moved,
                    self.fee_due(moved),
                    None,
                ),
            ),
            _ => (self.at(SwapStage::Done), Action::Abort(Defect::UnexpectedEvent)),
        }
    }

    fn moved_to(self, stage: SwapStage) -> (moved: SwapState)
        ensures
            moved == self.at(stage),
    {
        SwapState {
            ctx: self.ctx,
            side: self.side,
            amount_in_max: self.amount_in_max,
            amount_out_min: self.amount_out_min,
            stage,
        }
    }

    fn balances_request(&self) -> (request: Action)
        ensures
            request == self.read_balances(),
    {
        // Side determines swap direction.
        match self.side {
            Side::Bid => Action::ReadBalances {
                source: self.ctx.pc_wallet.key,
                destination: self.ctx.market.coin_wallet.key,
            },
            Side::Ask => Action::ReadBalances {
                source: self.ctx.market.coin_wallet.key,
                destination: self.ctx.pc_wallet.key,
            },
        }
    }

    fn fee_request(&self, amount: u64) -> (request: Action)
        ensures
            request == Action::Transfer(self.fee_transfer(amount)),
    {
        Action::Transfer(
            Transfer {
                from: self.ctx.pc_wallet.key,
                to: self.ctx.treasury_usdc,
                authority: self.ctx.pc_wallet.key,
                amount,
                program_signed: false,
            },
        )
    }

    fn cap(&self) -> (cap: u64)
        ensures
            cap == self.trade_cap(),
    {
        match self.side {
            Side::Bid => net_amount(self.amount_in_max),
            Side::Ask => self.amount_in_max,
        }
    }

    fn fee(&self, moved: &Amounts) -> (fee: u64)
        ensures
            fee == self.fee_due(*moved),
    {
        match self.side {
            Side::Bid => fee_amount(self.amount_in_max),
            Side::Ask => fee_amount(moved.to_amount),
        }
    }

    /// Resumes the swap with what the host observed and returns the state
    /// that follows together with the next action for the host.
    pub fn resume(self, event: Event) -> (step: (SwapState, Action))
        ensures
            step == self.next(event),
            step.0 == self.at(step.0.stage),
            step.1.is_final() ==> step.0.stage == SwapStage::Done,
            self.stage == SwapStage::Done ==> step.1 == Action::Abort(Defect::UnexpectedEvent),
    {
        match (self.stage, event) {
            (SwapStage::FeeBeforeTrade, Event::Transferred) => {
                let request = self.balances_request();
                (self.moved_to(SwapStage::BalancesBefore), request)
            },
            (SwapStage::BalancesBefore, Event::Balances(before)) => {
                let request = Action::LoadMarket { market: self.ctx.market.market };
                (self.moved_to(SwapStage::Market { before }), request)
            },
            (SwapStage::Market { before }, Event::Market(market)) => {
                let orderbook: OrderbookClient = OrderbookClient::from(&self.ctx);
                let placed = match self.side {
                    Side::Bid => orderbook.bid(self.cap(), self.amount_out_min, &market),
                    Side::Ask => orderbook.ask(self.cap(), self.amount_out_min, &market),
                };
                match placed {
                    Ok(take) => (self.moved_to(SwapStage::Order { before }), Action::SendTake(take)),
                    Err(defect) => (self.moved_to(SwapStage::Done), Action::Abort(defect)),
                }
            },
            (SwapStage::Order { before }, Event::OrderSent) => {
                let request = self.balances_request();
                (self.moved_to(SwapStage::BalancesAfter { before }), request)
            },
            (SwapStage::BalancesAfter { before }, Event::Balances(after)) => {
                // The difference of the balances is the amount swapped.
                match (BalanceSnapshot { before, after }).measure() {
                    None => (
                        self.moved_to(SwapStage::Done),
                        Action::Abort(Defect::ArithmeticUnderflow),
                    ),
                    Some(moved) => match self.side {
                        Side::Bid => {
                            let last = conclude(
                                self.cap(),
                                self.amount_out_min,
                                moved,
                                self.fee(&moved),
                                None,
                            );
                            (self.moved_to(SwapStage::Done), last)
                        },
                        Side::Ask => {
                            let request = self.fee_request(fee_amount(moved.to_amount));
                            (self.moved_to(SwapStage::FeeAfterTrade { moved }), request)
                        },
                    },
                }
            },
            (SwapStage::FeeAfterTrade { moved }, Event::Transferred) => {
                let last = conclude(
                    self.cap(),
                    self.amount_out_min,
                    moved,
                    self.fee(&moved),
                    None,
                );
                (self.moved_to(SwapStage::Done), last)
            },
            _ => (self.moved_to(SwapStage::Done), Action::Abort(Defect::UnexpectedEvent)),
        }
    }
}

/// How a swap begins: with the error of two wallets of one asset, else with
/// the fee transfer of a bid or the first balance reading of an ask.
pub open spec fn swap_start(ctx: Swap, side: Side, amount_in_max: u64, amount_out_min: u64) -> (
    SwapState,
    Action,
) {
    let state = SwapState { ctx, side, amount_in_max, amount_out_min, stage: SwapStage::Done };
    if ctx.market.coin_wallet.mint == ctx.pc_wallet.mint {
        (state, Action::Fail(ErrorCode::SwapTokensCannotMatch))
    } else {
        match side {
            Side::Bid => (
                state.at(SwapStage::FeeBeforeTrade),
                Action::Transfer(state.fee_transfer(fee_of(amount_in_max))),
            ),
            Side::Ask => (state.at(SwapStage::BalancesBefore), state.read_balances()),
        }
    }
}

/// Begins an immediate swap on a single base/price market.
///
/// With `side` bid the price currency is swapped for the base currency, with
/// ask the base currency for the price currency. `amount_in_max` is the most
/// of the input asset to give and `amount_out_min` the least of the output
/// asset to accept; the swap fails if the trade would bring less.
///
/// Returns the swap's first state and the first action for the host. The
/// host performs each action and calls `resume` with its outcome until an
/// action ends the swap.
pub fn swap(ctx: &Swap, side: Side, amount_in_max: u64, amount_out_min: u64) -> (step: (
    SwapState,
    Action,
))
    ensures
        step == swap_start(*ctx, side, amount_in_max, amount_out_min),
        step.0.ctx == *ctx && step.0.side == side && step.0.amount_in_max == amount_in_max
            && step.0.amount_out_min == amount_out_min,
        step.1 == Action::Fail(ErrorCode::SwapTokensCannotMatch) <==> ctx.market.coin_wallet.mint
            == ctx.pc_wallet.mint,
        step.1.is_final() <==> ctx.market.coin_wallet.mint == ctx.pc_wallet.mint,
        step.1 is Transfer <==> ctx.market.coin_wallet.mint != ctx.pc_wallet.mint && side
            == Side::Bid,
        step.1 is Transfer ==> step.1->Transfer_0.amount == amount_in_max * 10 / 1000,
        step.1 is ReadBalances <==> ctx.market.coin_wallet.mint != ctx.pc_wallet.mint && side
            == Side::Ask,
{
    let state = SwapState {
        ctx: *ctx,
        side,
        amount_in_max,
        amount_out_min,
        stage: SwapStage::Done,
    };
    match is_valid_swap(ctx) {
        Err(error) => (state, Action::Fail(error)),
        Ok(_) => match side {
            Side::Bid => {
                // A bid pays its fee up front, out of the input.
                let request = state.fee_request(fee_amount(amount_in_max));
                (state.moved_to(SwapStage::FeeBeforeTrade), request)
            },
            Side::Ask => {
                let request = state.balances_request();
                (state.moved_to(SwapStage::BalancesBefore), request)
            },
        },
    }
}

/// The end of a swap names the first bound its amounts break: it is success
/// exactly within all bounds, and else the error of too much input, of too
/// little output or of no output, in this order. It is never a defect.
pub proof fn lemma_conclusion_names_the_broken_bound(
    bound: u64,
    amount_out_min: u64,
    moved: Amounts,
    fee: u64,
    spill: Option<u64>,
)
    ensures
        ({
            let last = conclusion(bound, amount_out_min, moved, fee, spill);
            &&& last is Succeed || last is Fail
            &&& last is Succeed <==> moved.from_amount <= bound && moved.to_amount
                >= amount_out_min && moved.to_amount > 0
            &&& last is Succeed ==> last->Succeed_0 == (Receipt {
                from_amount: moved.from_amount,
                to_amount: moved.to_amount,
                fee,
                spill,
            })
            &&& last == Action::Fail(ErrorCode::SwapTokenAmountExceedsMax) <==> moved.from_amount
                > bound
            &&& last == Action::Fail(ErrorCode::SwapTokenAmountLessThanMin) <==> moved.from_amount
                <= bound && moved.to_amount < amount_out_min
            &&& last == Action::Fail(ErrorCode::ZeroSwap) <==> moved.from_amount <= bound
                && moved.to_amount >= amount_out_min && moved.to_amount == 0
        }),
{
}

} // verus!
