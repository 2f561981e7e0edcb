//! Runs of a transitive swap, and what holds of every run.
//!
//! A run is the sequence of actions a swap hands to its host from its start
//! to the action that ends it. The host's observations are arbitrary here:
//! what is proved of a run holds whatever the ledger and the exchange did.

use crate::accounts::SwapTransitive;
use crate::error::ErrorCode;
use crate::fees::{fee_of, net_of};
use crate::host::{Action, Amounts, BalanceSnapshot, Balances, Event, Transfer};
use crate::market::{ask_parameters, bid_parameters, MarketDescriptor, ITERATION_LIMIT};
use crate::swap::conclusion;
use crate::transitive::{spill_of, swap_transitive_start, TransitiveStage, TransitiveState};
use vstd::prelude::*;

verus! {

/// The actions a transitive swap in state `state` hands out while it is
/// resumed with `events` in turn. The run stops with the action that ends the
/// swap.
pub open spec fn transitive_actions_from(state: TransitiveState, events: Seq<Event>) -> Seq<Action>
    decreases events.len(),
{
    if events.len() == 0 {
        Seq::empty()
    } else {
        let (next, action) = state.next(events[0]);
        if action.is_final() {
            seq![action]
        } else {
            seq![action] + transitive_actions_from(next, events.skip(1))
        }
    }
}

/// Every action of a transitive swap from its start: the first action, then
/// the answer to each of `events` until the swap ends.
pub open spec fn transitive_actions(
    ctx: SwapTransitive,
    amount_in_max: u64,
    amount_out_min: u64,
    events: Seq<Event>,
) -> Seq<Action> {
    let (state, action) = swap_transitive_start(ctx, amount_in_max, amount_out_min);
    if action.is_final() {
        seq![action]
    } else {
        seq![action] + transitive_actions_from(state, events)
    }
}

/// How many events a transitive swap at `stage` has taken in.
pub open spec fn stage_position(stage: TransitiveStage) -> int {
    match stage {
        TransitiveStage::SellBalancesBefore => 0,
        TransitiveStage::SellMarket { .. } => 1,
        TransitiveStage::SellOrder { .. } => 2,
        TransitiveStage::SellBalancesAfter { .. } => 3,
        TransitiveStage::Fee { .. } => 4,
        TransitiveStage::BuyBalancesBefore { .. } => 5,
        TransitiveStage::BuyMarket { .. } => 6,
        TransitiveStage::BuyOrder { .. } => 7,
        TransitiveStage::BuyBalancesAfter { .. } => 8,
        TransitiveStage::Done => 9,
    }
}

/// One transition of a run: the run of no events is empty, and the run of
/// some events opens with the answer to the first.
proof fn lemma_run_step(state: TransitiveState, events: Seq<Event>)
    ensures
        events.len() == 0 ==> transitive_actions_from(state, events).len() == 0,
        events.len() > 0 ==> transitive_actions_from(state, events) == ({
            let (next, action) = state.next(events[0]);
            if action.is_final() {
                seq![action]
            } else {
                seq![action] + transitive_actions_from(next, events.skip(1))
            }
        }),
{
}

/// A transition never changes the accounts or the bounds of a transitive
/// swap.
pub proof fn lemma_transitive_keeps_its_terms(state: TransitiveState, event: Event)
    ensures
        state.next(event).0.ctx == state.ctx,
        state.next(event).0.amount_in_max == state.amount_in_max,
        state.next(event).0.amount_out_min == state.amount_out_min,
{
}

/// A transition that does not end the swap moves it one stage on, and what
/// it asks of the host goes by the stage it leaves: the market after a first
/// balance reading, the order after the market, a balance reading after an
/// order and after the fee, and the fee after the sale's second reading.
pub proof fn lemma_transitive_advances(state: TransitiveState, event: Event)
    ensures
        ({
            let (next, action) = state.next(event);
            let position = stage_position(state.stage);
            &&& action.is_final() ==> next.stage == TransitiveStage::Done
            &&& !action.is_final() ==> {
                &&& stage_position(next.stage) == position + 1
                &&& position < 8
                &&& action is LoadMarket <==> position == 0 || position == 5
                &&& action is SendTake <==> position == 1 || position == 6
                &&& action is ReadBalances <==> position == 2 || position == 4 || position == 7
                &&& action is Transfer <==> position == 3
            }
            &&& action is Succeed || action is Fail ==> position == 8
        }),
{
}

/// An action that ends a transitive swap is the last of its run.
pub proof fn lemma_transitive_run_ends_once(
    ctx: SwapTransitive,
    amount_in_max: u64,
    amount_out_min: u64,
    events: Seq<Event>,
    i: int,
)
    requires
        0 <= i < transitive_actions(ctx, amount_in_max, amount_out_min, events).len(),
        transitive_actions(ctx, amount_in_max, amount_out_min, events)[i].is_final(),
    ensures
        i == transitive_actions(ctx, amount_in_max, amount_out_min, events).len() - 1,
{
    let (state, action) = swap_transitive_start(ctx, amount_in_max, amount_out_min);
    if !action.is_final() {
        lemma_run_from_ends_once(state, events, i - 1);
    }
}

proof fn lemma_run_from_ends_once(state: TransitiveState, events: Seq<Event>, i: int)
    requires
        0 <= i < transitive_actions_from(state, events).len(),
        transitive_actions_from(state, events)[i].is_final(),
    ensures
        i == transitive_actions_from(state, events).len() - 1,
    decreases events.len(),
{
    let (next, action) = state.next(events[0]);
    if !action.is_final() {
        lemma_run_from_ends_once(next, events.skip(1), i - 1);
    }
}

/// Base wallets of one asset: the swap fails with `SwapTokensCannotMatch` at
/// once. That error is its only action, so nothing is transferred, read or
/// submitted.
pub proof fn lemma_same_base_asset_fails_without_effect(
    ctx: SwapTransitive,
    amount_in_max: u64,
    amount_out_min: u64,
    events: Seq<Event>,
)
    requires
        ctx.from.coin_wallet.mint == ctx.to.coin_wallet.mint,
    ensures
        transitive_actions(ctx, amount_in_max, amount_out_min, events) == seq![
            Action::Fail(ErrorCode::SwapTokensCannotMatch),
        ],
{
}

/// A transitive swap that succeeds kept the caller's own bounds: no more
/// than `amount_in_max` of the input asset left, at least `amount_out_min`
/// of the output asset arrived, and something arrived. Its receipt reports a
/// spill.
pub proof fn lemma_transitive_success_is_within_bounds(
    ctx: SwapTransitive,
    amount_in_max: u64,
    amount_out_min: u64,
    events: Seq<Event>,
    i: int,
)
    requires
        0 <= i < transitive_actions(ctx, amount_in_max, amount_out_min, events).len(),
        transitive_actions(ctx, amount_in_max, amount_out_min, events)[i] is Succeed,
    ensures
        ({
            let receipt = transitive_actions(
                ctx,
                amount_in_max,
                amount_out_min,
                events,
            )[i]->Succeed_0;
            &&& receipt.from_amount <= amount_in_max
            &&& receipt.to_amount >= amount_out_min
            &&& receipt.to_amount > 0
            &&& receipt.spill is Some
        }),
{
    let (state, action) = swap_transitive_start(ctx, amount_in_max, amount_out_min);
    lemma_run_from_success_is_within_bounds(state, events, i - 1);
}

proof fn lemma_run_from_success_is_within_bounds(
    state: TransitiveState,
    events: Seq<Event>,
    i: int,
)
    requires
        0 <= i < transitive_actions_from(state, events).len(),
        transitive_actions_from(state, events)[i] is Succeed,
    ensures
        ({
            let receipt = transitive_actions_from(state, events)[i]->Succeed_0;
            &&& receipt.from_amount <= state.amount_in_max
            &&& receipt.to_amount >= state.amount_out_min
            &&& receipt.to_amount > 0
            &&& receipt.spill is Some
        }),
    decreases events.len(),
{
    let (next, action) = state.next(events[0]);
    if !action.is_final() {
        if i > 0 {
            lemma_run_from_success_is_within_bounds(next, events.skip(1), i - 1);
        }
    }
}

/// Every order a transitive swap submits is one the exchange takes: its
/// limit price and both maximum quantities are positive. It carries the fixed
/// iteration budget and no referral account.
pub proof fn lemma_transitive_orders_are_submittable(
    ctx: SwapTransitive,
    amount_in_max: u64,
    amount_out_min: u64,
    events: Seq<Event>,
    i: int,
)
    requires
        0 <= i < transitive_actions(ctx, amount_in_max, amount_out_min, events).len(),
        transitive_actions(ctx, amount_in_max, amount_out_min, events)[i] is SendTake,
    ensures
        ({
            let take = transitive_actions(
                ctx,
                amount_in_max,
                amount_out_min,
                events,
            )[i]->SendTake_0;
            &&& take.wf()
            &&& take.order.iteration_limit == ITERATION_LIMIT
            &&& take.dex_program == ctx.dex_program
            &&& take.referral is None
        }),
{
    let (state, action) = swap_transitive_start(ctx, amount_in_max, amount_out_min);
    lemma_run_from_orders_are_submittable(state, events, i - 1);
}

proof fn lemma_run_from_orders_are_submittable(
    state: TransitiveState,
    events: Seq<Event>,
    i: int,
)
    requires
        0 <= i < transitive_actions_from(state, events).len(),
        transitive_actions_from(state, events)[i] is SendTake,
    ensures
        ({
            let take = transitive_actions_from(state, events)[i]->SendTake_0;
            &&& take.wf()
            &&& take.order.iteration_limit == ITERATION_LIMIT
            &&& take.dex_program == state.ctx.dex_program
            &&& take.referral is None
        }),
    decreases events.len(),
{
    let (next, action) = state.next(events[0]);
    if !action.is_final() {
        if i > 0 {
            lemma_run_from_orders_are_submittable(next, events.skip(1), i - 1);
        }
    }
}

/// Where the actions of a run stand: the action at index `i` of the run from
/// `state` answers the event that finds the swap `i` stages further on, so a
/// transfer can only answer the sale's second balance reading and an order
/// only the state of a market.
proof fn lemma_run_from_positions(state: TransitiveState, events: Seq<Event>, i: int)
    requires
        0 <= i < transitive_actions_from(state, events).len(),
    ensures
        transitive_actions_from(state, events)[i] is Transfer ==> stage_position(state.stage) + i
            == 3,
        transitive_actions_from(state, events)[i] is SendTake ==> stage_position(state.stage) + i
            == 1 || stage_position(state.stage) + i == 6,
        transitive_actions_from(state, events)[i] is Succeed || transitive_actions_from(
            state,
            events,
        )[i] is Fail ==> stage_position(state.stage) + i == 8,
    decreases events.len(),
{
    let (next, action) = state.next(events[0]);
    lemma_transitive_advances(state, events[0]);
    if !action.is_final() && i > 0 {
        lemma_run_from_positions(next, events.skip(1), i - 1);
    }
}

/// The buy order of a transitive swap, seen from the stage that waits for
/// the fee: it answers the third event from there, the state of the market
/// to buy on.
proof fn lemma_purchase_order(state: TransitiveState, sold: Amounts, events: Seq<Event>)
    requires
        state.stage == (TransitiveStage::Fee { sold }),
        transitive_actions_from(state, events).len() > 2,
        transitive_actions_from(state, events)[2] is SendTake,
    ensures
        events.len() > 2,
        events[2] is Market,
        events[2]->Market_0.lot_size > 0,
        transitive_actions_from(state, events)[2] == Action::SendTake(
            state.ctx.orderbook_to_spec().take_order(
                bid_parameters(
                    net_of(sold.to_amount),
                    state.amount_out_min,
                    events[2]->Market_0.lot_size,
                ),
            ),
        ),
{
    let r0 = transitive_actions_from(state, events);
    lemma_run_step(state, events);
    let (s1, a1) = state.next(events[0]);
    let e1 = events.skip(1);
    let r1 = transitive_actions_from(s1, e1);
    assert(r0 == seq![a1] + r1);
    lemma_run_step(s1, e1);
    let (s2, a2) = s1.next(e1[0]);
    let e2 = e1.skip(1);
    let r2 = transitive_actions_from(s2, e2);
    assert(r1 == seq![a2] + r2);
    lemma_run_step(s2, e2);
    let (s3, a3) = s2.next(e2[0]);
    assert(e2[0] == events[2]);
    assert(r0[2] == a3);
}

/// The orders of a transitive swap are the caller's intent in the exchange's
/// terms. An order is the third or the eighth action of a run. The third is
/// the ask for `amount_in_max` with no minimum of its own, on the market the
/// input asset is sold on and at the lot size just reported for it; its lots
/// cannot hold more than `amount_in_max`. The eighth is the bid for what the
/// fee left of the sale's measured proceeds, with the caller's minimum, on
/// the market the output asset is bought on and at the lot size just
/// reported for that market; with the fee it cannot spend more than the sale
/// brought.
pub proof fn lemma_transitive_orders_follow_intent(
    ctx: SwapTransitive,
    amount_in_max: u64,
    amount_out_min: u64,
    events: Seq<Event>,
    i: int,
)
    requires
        0 <= i < transitive_actions(ctx, amount_in_max, amount_out_min, events).len(),
        transitive_actions(ctx, amount_in_max, amount_out_min, events)[i] is SendTake,
    ensures
        ({
            let run = transitive_actions(ctx, amount_in_max, amount_out_min, events);
            let order = run[i]->SendTake_0.order;
            &&& i == 2 || i == 7
            &&& i == 2 ==> {
                &&& events.len() > 1
                &&& events[1] is Market
                &&& events[1]->Market_0.lot_size > 0
                &&& run[2] == Action::SendTake(
                    ctx.orderbook_from_spec().take_order(
                        ask_parameters(amount_in_max, 0, events[1]->Market_0.lot_size),
                    ),
                )
                &&& order.max_base_qty * events[1]->Market_0.lot_size <= amount_in_max
            }
            &&& i == 7 ==> {
                &&& events.len() > 6
                &&& events[0] is Balances
                &&& events[3] is Balances
                &&& events[6] is Market
                &&& events[6]->Market_0.lot_size > 0
                &&& ({
                    let sale = BalanceSnapshot {
                        before: events[0]->Balances_0,
                        after: events[3]->Balances_0,
                    };
                    &&& sale.amounts() is Some
                    &&& run[7] == Action::SendTake(
                        ctx.orderbook_to_spec().take_order(
                            bid_parameters(
                                net_of(sale.amounts()->Some_0.to_amount),
                                amount_out_min,
                                events[6]->Market_0.lot_size,
                            ),
                        ),
                    )
                    &&& order.max_quote_qty_incl_fees + fee_of(sale.amounts()->Some_0.to_amount)
                        <= sale.amounts()->Some_0.to_amount
                })
            }
        }),
{
    let (s0, a0) = swap_transitive_start(ctx, amount_in_max, amount_out_min);
    let run = transitive_actions(ctx, amount_in_max, amount_out_min, events);
    let r0 = transitive_actions_from(s0, events);
    assert(run == seq![a0] + r0);
    assert(run[i] == r0[i - 1]);
    lemma_run_from_positions(s0, events, i - 1);
    lemma_run_step(s0, events);
    let (s1, a1) = s0.next(events[0]);
    let e1 = events.skip(1);
    let r1 = transitive_actions_from(s1, e1);
    assert(r0 == seq![a1] + r1);
    lemma_run_step(s1, e1);
    let (s2, a2) = s1.next(e1[0]);
    let e2 = e1.skip(1);
    let r2 = transitive_actions_from(s2, e2);
    assert(e1[0] == events[1]);
    assert(run[2] == a2);
    if i == 2 {
        crate::market::lemma_lots_bracket(
            amount_in_max as int,
            events[1]->Market_0.lot_size as int,
        );
    } else {
        assert(r1 == seq![a2] + r2);
        lemma_run_step(s2, e2);
        let (s3, a3) = s2.next(e2[0]);
        let e3 = e2.skip(1);
        let r3 = transitive_actions_from(s3, e3);
        assert(r2 == seq![a3] + r3);
        lemma_run_step(s3, e3);
        let (s4, a4) = s3.next(e3[0]);
        let e4 = e3.skip(1);
        let r4 = transitive_actions_from(s4, e4);
        assert(e3[0] == events[3]);
        assert(r3 == seq![a4] + r4);
        assert(run[7] == r4[2]);
        let sold = s4.stage->Fee_sold;
        assert(s4.stage == TransitiveStage::Fee { sold });
        lemma_purchase_order(s4, sold, e4);
        assert(e4[2] == events[6]);
    }
}

/// The fee of a transitive swap is skimmed between the legs. If a transfer
/// is part of the run, it is the fifth action and the only transfer; the
/// sell order was the third action; the transfer moves exactly one percent,
/// rounded down, of what the first two balance readings show the sale to
/// have brought, from the price wallet to the treasury; and an order that
/// follows it is the eighth action.
pub proof fn lemma_transitive_fee_between_legs(
    ctx: SwapTransitive,
    amount_in_max: u64,
    amount_out_min: u64,
    events: Seq<Event>,
    i: int,
)
    requires
        0 <= i < transitive_actions(ctx, amount_in_max, amount_out_min, events).len(),
        transitive_actions(ctx, amount_in_max, amount_out_min, events)[i] is Transfer,
    ensures
        ({
            let run = transitive_actions(ctx, amount_in_max, amount_out_min, events);
            &&& i == 4
            &&& run[2] is SendTake
            &&& events.len() >= 4
            &&& events[0] is Balances
            &&& events[3] is Balances
            &&& ({
                let sale = BalanceSnapshot {
                    before: events[0]->Balances_0,
                    after: events[3]->Balances_0,
                };
                &&& sale.amounts() is Some
                &&& run[4] == Action::Transfer(
                    Transfer {
                        from: ctx.pc_wallet,
                        to: ctx.treasury_usdc,
                        authority: ctx.pc_wallet,
                        amount: fee_of(sale.amounts()->Some_0.to_amount),
                        program_signed: false,
                    },
                )
            })
            &&& forall|j: int| 0 <= j < run.len() && j != 4 ==> !(run[j] is Transfer)
            &&& forall|j: int| 0 <= j < run.len() && run[j] is SendTake ==> j == 2 || j == 7
        }),
{
    let (s0, a0) = swap_transitive_start(ctx, amount_in_max, amount_out_min);
    let run = transitive_actions(ctx, amount_in_max, amount_out_min, events);
    let r0 = transitive_actions_from(s0, events);
    assert(run == seq![a0] + r0);
    assert forall|j: int| 0 <= j < run.len() implies (run[j] is Transfer ==> j == 4) && (
    run[j] is SendTake ==> j == 2 || j == 7) by {
        if j > 0 {
            assert(run[j] == r0[j - 1]);
            lemma_run_from_positions(s0, events, j - 1);
        }
    }
    assert(r0.len() >= 4);
    lemma_run_step(s0, events);
    let (s1, a1) = s0.next(events[0]);
    let e1 = events.skip(1);
    let r1 = transitive_actions_from(s1, e1);
    assert(r0 == seq![a1] + r1);
    lemma_run_step(s1, e1);
    let (s2, a2) = s1.next(e1[0]);
    let e2 = e1.skip(1);
    let r2 = transitive_actions_from(s2, e2);
    assert(r1 == seq![a2] + r2);
    lemma_run_step(s2, e2);
    let (s3, a3) = s2.next(e2[0]);
    let e3 = e2.skip(1);
    let r3 = transitive_actions_from(s3, e3);
    assert(r2 == seq![a3] + r3);
    lemma_run_step(s3, e3);
    let (s4, a4) = s3.next(e3[0]);
    assert(e3[0] == events[3]);
    assert(run[2] == a2);
    assert(run[4] == a4);
}

/// The verdict of a transitive swap, seen from the stage that waits for the
/// fee: it answers the fifth event from there, the balances after the buy
/// order.
proof fn lemma_purchase_verdict(state: TransitiveState, sold: Amounts, events: Seq<Event>)
    requires
        state.stage == (TransitiveStage::Fee { sold }),
        transitive_actions_from(state, events).len() > 4,
        transitive_actions_from(state, events)[4] is Succeed || transitive_actions_from(
            state,
            events,
        )[4] is Fail,
    ensures
        events.len() > 4,
        events[1] is Balances,
        events[4] is Balances,
        ({
            let purchase = BalanceSnapshot {
                before: events[1]->Balances_0,
                after: events[4]->Balances_0,
            };
            &&& purchase.amounts() is Some
            &&& spill_of(sold.to_amount, purchase.amounts()->Some_0.from_amount) is Some
            &&& transitive_actions_from(state, events)[4] == conclusion(
                state.amount_in_max,
                state.amount_out_min,
                Amounts {
                    from_amount: sold.from_amount,
                    to_amount: purchase.amounts()->Some_0.to_amount,
                },
                fee_of(sold.to_amount),
                spill_of(sold.to_amount, purchase.amounts()->Some_0.from_amount),
            )
        }),
{
    let r0 = transitive_actions_from(state, events);
    lemma_run_step(state, events);
    let (s1, a1) = state.next(events[0]);
    let e1 = events.skip(1);
    let r1 = transitive_actions_from(s1, e1);
    assert(r0 == seq![a1] + r1);
    lemma_run_step(s1, e1);
    let (s2, a2) = s1.next(e1[0]);
    let e2 = e1.skip(1);
    let r2 = transitive_actions_from(s2, e2);
    assert(r1 == seq![a2] + r2);
    lemma_run_step(s2, e2);
    let (s3, a3) = s2.next(e2[0]);
    let e3 = e2.skip(1);
    let r3 = transitive_actions_from(s3, e3);
    assert(r2 == seq![a3] + r3);
    lemma_run_step(s3, e3);
    let (s4, a4) = s3.next(e3[0]);
    let e4 = e3.skip(1);
    let r4 = transitive_actions_from(s4, e4);
    assert(r3 == seq![a4] + r4);
    lemma_run_step(s4, e4);
    let (s5, a5) = s4.next(e4[0]);
    assert(e1[0] == events[1]);
    assert(e2[0] == events[2]);
    assert(e3[0] == events[3]);
    assert(e4[0] == events[4]);
    assert(r0[4] == a5);
}

/// The end of a transitive swap is the verdict on what the wallets show. If
/// a run of a swap between base wallets of different assets ends in success
/// or in a typed error, that is its tenth action, and it is the verdict on
/// the input asset the sale drew and the output asset the purchase brought,
/// as the four balance readings show them, held against the caller's own
/// `amount_in_max` and `amount_out_min`. The fee and the spill are reported
/// and have no part in the verdict.
pub proof fn lemma_transitive_ends_with_the_verdict(
    ctx: SwapTransitive,
    amount_in_max: u64,
    amount_out_min: u64,
    events: Seq<Event>,
    i: int,
)
    requires
        ctx.from.coin_wallet.mint != ctx.to.coin_wallet.mint,
        0 <= i < transitive_actions(ctx, amount_in_max, amount_out_min, events).len(),
        transitive_actions(ctx, amount_in_max, amount_out_min, events)[i] is Succeed
            || transitive_actions(ctx, amount_in_max, amount_out_min, events)[i] is Fail,
    ensures
        ({
            let run = transitive_actions(ctx, amount_in_max, amount_out_min, events);
            &&& i == 9
            &&& run.len() == 10
            &&& events.len() >= 9
            &&& events[0] is Balances
            &&& events[3] is Balances
            &&& events[5] is Balances
            &&& events[8] is Balances
            &&& ({
                let sale = BalanceSnapshot {
                    before: events[0]->Balances_0,
                    after: events[3]->Balances_0,
                };
                let purchase = BalanceSnapshot {
                    before: events[5]->Balances_0,
                    after: events[8]->Balances_0,
                };
                &&& sale.amounts() is Some
                &&& purchase.amounts() is Some
                &&& ({
                    let sold = sale.amounts()->Some_0;
                    let bought = purchase.amounts()->Some_0;
                    &&& bought.from_amount <= net_of(sold.to_amount)
                    &&& run[9] == conclusion(
                        amount_in_max,
                        amount_out_min,
                        Amounts { from_amount: sold.from_amount, to_amount: bought.to_amount },
                        fee_of(sold.to_amount),
                        Some((net_of(sold.to_amount) - bought.from_amount) as u64),
                    )
                })
            })
        }),
{
    let (s0, a0) = swap_transitive_start(ctx, amount_in_max, amount_out_min);
    let run = transitive_actions(ctx, amount_in_max, amount_out_min, events);
    let r0 = transitive_actions_from(s0, events);
    assert(run == seq![a0] + r0);
    assert(run[i] == r0[i - 1]);
    lemma_run_from_positions(s0, events, i - 1);
    lemma_transitive_run_ends_once(ctx, amount_in_max, amount_out_min, events, i);
    assert(i == 9);
    lemma_run_step(s0, events);
    let (s1, a1) = s0.next(events[0]);
    let e1 = events.skip(1);
    let r1 = transitive_actions_from(s1, e1);
    assert(r0 == seq![a1] + r1);
    lemma_run_step(s1, e1);
    let (s2, a2) = s1.next(e1[0]);
    let e2 = e1.skip(1);
    let r2 = transitive_actions_from(s2, e2);
    assert(r1 == seq![a2] + r2);
    lemma_run_step(s2, e2);
    let (s3, a3) = s2.next(e2[0]);
    let e3 = e2.skip(1);
    let r3 = transitive_actions_from(s3, e3);
    assert(r2 == seq![a3] + r3);
    lemma_run_step(s3, e3);
    let (s4, a4) = s3.next(e3[0]);
    let e4 = e3.skip(1);
    let r4 = transitive_actions_from(s4, e4);
    assert(e3[0] == events[3]);
    assert(r3 == seq![a4] + r4);
    assert(run[9] == r4[4]);
    let sold = s4.stage->Fee_sold;
    assert(s4.stage == TransitiveStage::Fee { sold });
    lemma_purchase_verdict(s4, sold, e4);
    assert(e4[1] == events[5]);
    assert(e4[4] == events[8]);
}

/// The events of a transitive swap whose host could carry out every action.
/// The sale was read at `sell_before` and `sell_after` on a market in state
/// `sell_market`, the purchase at `buy_before` and `buy_after` on a market
/// in state `buy_market`.
pub open spec fn transitive_events(
    sell_before: Balances,
    sell_market: MarketDescriptor,
    sell_after: Balances,
    buy_before: Balances,
    buy_market: MarketDescriptor,
    buy_after: Balances,
) -> Seq<Event> {
    seq![
        Event::Balances(sell_before),
        Event::Market(sell_market),
        Event::OrderSent,
        Event::Balances(sell_after),
        Event::Transferred,
        Event::Balances(buy_before),
        Event::Market(buy_market),
        Event::OrderSent,
        Event::Balances(buy_after),
    ]
}

/// The sale of a transitive swap, from the first balance reading to the fee:
/// four events lead from the start to the stage that waits for the fee.
proof fn lemma_sale_course(
    state: TransitiveState,
    before: Balances,
    market: MarketDescriptor,
    after: Balances,
    events: Seq<Event>,
)
    requires
        state.stage == TransitiveStage::SellBalancesBefore,
        0 < market.lot_size <= state.amount_in_max,
        (BalanceSnapshot { before, after }).consistent(),
        events.len() >= 4,
        events[0] == Event::Balances(before),
        events[1] == Event::Market(market),
        events[2] == Event::OrderSent,
        events[3] == Event::Balances(after),
    ensures
        ({
            let sold = (BalanceSnapshot { before, after }).amounts()->Some_0;
            let read_sale = Action::ReadBalances {
                source: state.ctx.from.coin_wallet.key,
                destination: state.ctx.pc_wallet,
            };
            transitive_actions_from(state, events) == seq![
                Action::LoadMarket { market: state.ctx.from.market },
                Action::SendTake(
                    state.ctx.orderbook_from_spec().take_order(
                        ask_parameters(state.amount_in_max, 0, market.lot_size),
                    ),
                ),
                read_sale,
                Action::Transfer(
                    Transfer {
                        from: state.ctx.pc_wallet,
                        to: state.ctx.treasury_usdc,
                        authority: state.ctx.pc_wallet,
                        amount: fee_of(sold.to_amount),
                        program_signed: false,
                    },
                ),
            ] + transitive_actions_from(
                state.at(TransitiveStage::Fee { sold }),
                events.skip(4),
            )
        }),
{
    crate::market::lemma_lots_bracket(state.amount_in_max as int, market.lot_size as int);
    let (s1, a1) = state.next(events[0]);
    let e1 = events.skip(1);
    let (s2, a2) = s1.next(e1[0]);
    let e2 = e1.skip(1);
    let (s3, a3) = s2.next(e2[0]);
    let e3 = e2.skip(1);
    let (s4, a4) = s3.next(e3[0]);
    let e4 = e3.skip(1);
    assert(s1.stage == TransitiveStage::SellMarket { before });
    assert(s2.stage == TransitiveStage::SellOrder { before });
    assert(s3.stage == TransitiveStage::SellBalancesAfter { before });
    lemma_run_step(state, events);
    lemma_run_step(s1, e1);
    lemma_run_step(s2, e2);
    lemma_run_step(s3, e3);
    assert(e4 =~= events.skip(4));
    assert(transitive_actions_from(state, events) =~= seq![a1, a2, a3, a4]
        + transitive_actions_from(s4, e4));
}

/// The purchase of a transitive swap, from the arrival of the fee to the
/// verdict.
proof fn lemma_purchase_course(
    state: TransitiveState,
    sold: Amounts,
    before: Balances,
    market: MarketDescriptor,
    after: Balances,
    events: Seq<Event>,
)
    requires
        state.stage == (TransitiveStage::Fee { sold }),
        net_of(sold.to_amount) > 0,
        market.lot_size > 0,
        (BalanceSnapshot { before, after }).consistent(),
        before.source - after.source <= net_of(sold.to_amount),
        events.len() == 5,
        events[0] == Event::Transferred,
        events[1] == Event::Balances(before),
        events[2] == Event::Market(market),
        events[3] == Event::OrderSent,
        events[4] == Event::Balances(after),
    ensures
        ({
            let bought = (BalanceSnapshot { before, after }).amounts()->Some_0;
            let read_purchase = Action::ReadBalances {
                source: state.ctx.pc_wallet,
                destination: state.ctx.to.coin_wallet.key,
            };
            transitive_actions_from(state, events) == seq![
                read_purchase,
                Action::LoadMarket { market: state.ctx.to.market },
                Action::SendTake(
                    state.ctx.orderbook_to_spec().take_order(
                        bid_parameters(
                            net_of(sold.to_amount),
                            state.amount_out_min,
                            market.lot_size,
                        ),
                    ),
                ),
                read_purchase,
                conclusion(
                    state.amount_in_max,
                    state.amount_out_min,
                    Amounts { from_amount: sold.from_amount, to_amount: bought.to_amount },
                    fee_of(sold.to_amount),
                    Some((net_of(sold.to_amount) - bought.from_amount) as u64),
                ),
            ]
        }),
{
    let (s1, a1) = state.next(events[0]);
    let e1 = events.skip(1);
    let (s2, a2) = s1.next(e1[0]);
    let e2 = e1.skip(1);
    let (s3, a3) = s2.next(e2[0]);
    let e3 = e2.skip(1);
    let (s4, a4) = s3.next(e3[0]);
    let e4 = e3.skip(1);
    let (s5, a5) = s4.next(e4[0]);
    assert(s1.stage == TransitiveStage::BuyBalancesBefore { sold });
    assert(s2.stage == TransitiveStage::BuyMarket { sold, before });
    assert(s3.stage == TransitiveStage::BuyOrder { sold, before });
    assert(s4.stage == TransitiveStage::BuyBalancesAfter { sold, before });
    assert(a5.is_final());
    lemma_run_step(state, events);
    lemma_run_step(s1, e1);
    lemma_run_step(s2, e2);
    lemma_run_step(s3, e3);
    lemma_run_step(s4, e4);
    assert(transitive_actions_from(state, events) =~= seq![a1, a2, a3, a4, a5]);
}

/// The whole course of a transitive swap. With two markets that have a lot
/// size, an input of at least one lot, proceeds of which the fee leaves
/// something to trade, balances that moved with each trade and a purchase
/// within its cap, the swap reads the wallets of the sale, reads its market,
/// asks with the whole lots of the input and no minimum, reads the wallets
/// again, skims the fee from the proceeds, reads the wallets of the
/// purchase, reads its market, bids with what the fee left of the proceeds
/// for the caller's minimum, reads the wallets again and ends by holding the
/// input of the sale and the output of the purchase against the caller's own
/// bounds, with the unspent price currency as the spill.
pub proof fn lemma_transitive_course(
    ctx: SwapTransitive,
    amount_in_max: u64,
    amount_out_min: u64,
    sell_before: Balances,
    sell_market: MarketDescriptor,
    sell_after: Balances,
    buy_before: Balances,
    buy_market: MarketDescriptor,
    buy_after: Balances,
)
    requires
        ctx.from.coin_wallet.mint != ctx.to.coin_wallet.mint,
        0 < sell_market.lot_size <= amount_in_max,
        (BalanceSnapshot { before: sell_before, after: sell_after }).consistent(),
        net_of((sell_after.destination - sell_before.destination) as u64) > 0,
        buy_market.lot_size > 0,
        (BalanceSnapshot { before: buy_before, after: buy_after }).consistent(),
        buy_before.source - buy_after.source <= net_of(
            (sell_after.destination - sell_before.destination) as u64,
        ),
    ensures
        ({
            let sold = (BalanceSnapshot { before: sell_before, after: sell_after }).amounts()->Some_0;
            let bought = (BalanceSnapshot { before: buy_before, after: buy_after }).amounts()->Some_0;
            let read_sale = Action::ReadBalances {
                source: ctx.from.coin_wallet.key,
                destination: ctx.pc_wallet,
            };
            let read_purchase = Action::ReadBalances {
                source: ctx.pc_wallet,
                destination: ctx.to.coin_wallet.key,
            };
            transitive_actions(
                ctx,
                amount_in_max,
                amount_out_min,
                transitive_events(
                    sell_before,
                    sell_market,
                    sell_after,
                    buy_before,
                    buy_market,
                    buy_after,
                ),
            ) == seq![
                read_sale,
                Action::LoadMarket { market: ctx.from.market },
                Action::SendTake(
                    ctx.orderbook_from_spec().take_order(
                        ask_parameters(amount_in_max, 0, sell_market.lot_size),
                    ),
                ),
                read_sale,
                Action::Transfer(
                    Transfer {
                        from: ctx.pc_wallet,
                        to: ctx.treasury_usdc,
                        authority: ctx.pc_wallet,
                        amount: fee_of(sold.to_amount),
                        program_signed: false,
                    },
                ),
                read_purchase,
                Action::LoadMarket { market: ctx.to.market },
                Action::SendTake(
                    ctx.orderbook_to_spec().take_order(
                        bid_parameters(
                            net_of(sold.to_amount),
                            amount_out_min,
                            buy_market.lot_size,
                        ),
                    ),
                ),
                read_purchase,
                conclusion(
                    amount_in_max,
                    amount_out_min,
                    Amounts { from_amount: sold.from_amount, to_amount: bought.to_amount },
                    fee_of(sold.to_amount),
                    Some((net_of(sold.to_amount) - bought.from_amount) as u64),
                ),
            ]
        }),
{
    let events = transitive_events(
        sell_before,
        sell_market,
        sell_after,
        buy_before,
        buy_market,
        buy_after,
    );
    let sold = (BalanceSnapshot { before: sell_before, after: sell_after }).amounts()->Some_0;
    let (s0, a0) = swap_transitive_start(ctx, amount_in_max, amount_out_min);
    let s4 = s0.at(TransitiveStage::Fee { sold });
    let tail_events = events.skip(4);
    lemma_sale_course(s0, sell_before, sell_market, sell_after, events);
    lemma_purchase_course(s4, sold, buy_before, buy_market, buy_after, tail_events);
    let head = transitive_actions_from(s0, events);
    let tail = transitive_actions_from(s4, tail_events);
    let run = transitive_actions(ctx, amount_in_max, amount_out_min, events);
    assert(run == seq![a0] + head);
    assert(run =~= seq![
        a0,
        head[0],
        head[1],
        head[2],
        head[3],
        tail[0],
        tail[1],
        tail[2],
        tail[3],
        tail[4],
    ]);
}

} // verus!
