//! Runs of a single-market swap, and what holds of every run.
//!
//! A run is the sequence of actions a swap hands to its host from its start
//! to the action that ends it. The host's observations are arbitrary here:
//! what is proved of a run holds whatever the ledger and the exchange did.

use crate::accounts::Swap;
use crate::error::{Defect, ErrorCode};
use crate::fees::{fee_of, net_of};
use crate::host::{Action, BalanceSnapshot, Balances, Event, Transfer};
use crate::market::{ask_parameters, bid_parameters, MarketDescriptor, Side, ITERATION_LIMIT};
use crate::swap::{conclusion, swap_start, SwapStage, SwapState};
use vstd::prelude::*;

verus! {

/// The actions a swap in state `state` hands out while it is resumed with
/// `events` in turn. The run stops with the action that ends the swap.
pub open spec fn swap_actions_from(state: SwapState, events: Seq<Event>) -> Seq<Action>
    decreases events.len(),
{
    if events.len() == 0 {
        Seq::empty()
    } else {
        let (next, action) = state.next(events[0]);
        if action.is_final() {
            seq![action]
        } else {
            seq![action] + swap_actions_from(next, events.skip(1))
        }
    }
}

/// Every action of a swap from its start: the first action, then the answer
/// to each of `events` until the swap ends.
pub open spec fn swap_actions(
    ctx: Swap,
    side: Side,
    amount_in_max: u64,
    amount_out_min: u64,
    events: Seq<Event>,
) -> Seq<Action> {
    let (state, action) = swap_start(ctx, side, amount_in_max, amount_out_min);
    if action.is_final() {
        seq![action]
    } else {
        seq![action] + swap_actions_from(state, events)
    }
}

/// How many events a swap at `stage` is away from the balance reading before
/// its order.
pub open spec fn stage_position(stage: SwapStage) -> int {
    match stage {
        SwapStage::FeeBeforeTrade => -1,
        SwapStage::BalancesBefore => 0,
        SwapStage::Market { .. } => 1,
        SwapStage::Order { .. } => 2,
        SwapStage::BalancesAfter { .. } => 3,
        SwapStage::FeeAfterTrade { .. } => 4,
        SwapStage::Done => 5,
    }
}

/// One transition of a run: the run of no events is empty, and the run of
/// some events opens with the answer to the first.
proof fn lemma_run_step(state: SwapState, events: Seq<Event>)
    ensures
        events.len() == 0 ==> swap_actions_from(state, events).len() == 0,
        events.len() > 0 ==> swap_actions_from(state, events) == ({
            let (next, action) = state.next(events[0]);
            if action.is_final() {
                seq![action]
            } else {
                seq![action] + swap_actions_from(next, events.skip(1))
            }
        }),
{
}

/// A transition never changes the accounts, the direction or the bounds of a
/// swap.
pub proof fn lemma_swap_keeps_its_terms(state: SwapState, event: Event)
    ensures
        state.next(event).0.ctx == state.ctx,
        state.next(event).0.side == state.side,
        state.next(event).0.amount_in_max == state.amount_in_max,
        state.next(event).0.amount_out_min == state.amount_out_min,
{
}

/// A transition that does not end the swap moves it one stage on, and what
/// it asks of the host goes by the stage it leaves: a balance reading after
/// the first fee and after the order, the market after the first reading,
/// the order after the market, and the fee of an ask after the second
/// reading.
pub proof fn lemma_swap_advances(state: SwapState, event: Event)
    ensures
        ({
            let (next, action) = state.next(event);
            let position = stage_position(state.stage);
            &&& action.is_final() ==> next.stage == SwapStage::Done
            &&& !action.is_final() ==> {
                &&& stage_position(next.stage) == position + 1
                &&& position < 4
                &&& action is ReadBalances <==> position == -1 || position == 2
                &&& action is LoadMarket <==> position == 0
                &&& action is SendTake <==> position == 1
                &&& action is Transfer <==> position == 3
                &&& action is Transfer ==> state.side == Side::Ask
            }
            &&& action is Succeed || action is Fail ==> (position == 3 && state.side == Side::Bid)
                || position == 4
        }),
{
}

/// An action that ends a swap is the last of its run: nothing follows
/// success, a typed error or a defect.
pub proof fn lemma_swap_run_ends_once(
    ctx: Swap,
    side: Side,
    amount_in_max: u64,
    amount_out_min: u64,
    events: Seq<Event>,
    i: int,
)
    requires
        0 <= i < swap_actions(ctx, side, amount_in_max, amount_out_min, events).len(),
        swap_actions(ctx, side, amount_in_max, amount_out_min, events)[i].is_final(),
    ensures
        i == swap_actions(ctx, side, amount_in_max, amount_out_min, events).len() - 1,
{
    let (state, action) = swap_start(ctx, side, amount_in_max, amount_out_min);
    if !action.is_final() {
        lemma_run_from_ends_once(state, events, i - 1);
    }
}

proof fn lemma_run_from_ends_once(state: SwapState, events: Seq<Event>, i: int)
    requires
        0 <= i < swap_actions_from(state, events).len(),
        swap_actions_from(state, events)[i].is_final(),
    ensures
        i == swap_actions_from(state, events).len() - 1,
    decreases events.len(),
{
    let (next, action) = state.next(events[0]);
    if !action.is_final() {
        lemma_run_from_ends_once(next, events.skip(1), i - 1);
    }
}

/// Wallets of one asset: the swap fails with `SwapTokensCannotMatch` at once.
/// That error is its only action, so nothing is transferred, read or
/// submitted.
pub proof fn lemma_same_asset_fails_without_effect(
    ctx: Swap,
    side: Side,
    amount_in_max: u64,
    amount_out_min: u64,
    events: Seq<Event>,
)
    requires
        ctx.market.coin_wallet.mint == ctx.pc_wallet.mint,
    ensures
        swap_actions(ctx, side, amount_in_max, amount_out_min, events) == seq![
            Action::Fail(ErrorCode::SwapTokensCannotMatch),
        ],
{
}

/// A swap that succeeds kept the caller's bounds: no more than
/// `amount_in_max` left the input wallet, at least `amount_out_min` arrived,
/// and something arrived. A bid drew no more than what the fee had left of
/// `amount_in_max`, so trade and fee together stayed within it; the fee of an
/// ask was one percent of the proceeds and no more than they were.
pub proof fn lemma_swap_success_is_within_bounds(
    ctx: Swap,
    side: Side,
    amount_in_max: u64,
    amount_out_min: u64,
    events: Seq<Event>,
    i: int,
)
    requires
        0 <= i < swap_actions(ctx, side, amount_in_max, amount_out_min, events).len(),
        swap_actions(ctx, side, amount_in_max, amount_out_min, events)[i] is Succeed,
    ensures
        ({
            let receipt = swap_actions(ctx, side, amount_in_max, amount_out_min, events)[i]->Succeed_0;
            &&& receipt.from_amount <= amount_in_max
            &&& side == Side::Bid ==> receipt.from_amount <= net_of(amount_in_max)
            &&& receipt.to_amount >= amount_out_min
            &&& receipt.to_amount > 0
            &&& side == Side::Bid ==> receipt.fee == fee_of(amount_in_max)
            &&& side == Side::Bid ==> receipt.from_amount + receipt.fee <= amount_in_max
            &&& side == Side::Ask ==> receipt.fee == fee_of(receipt.to_amount)
            &&& side == Side::Ask ==> receipt.fee <= receipt.to_amount
        }),
{
    let (state, action) = swap_start(ctx, side, amount_in_max, amount_out_min);
    lemma_run_from_success_is_within_bounds(state, events, i - 1);
}

proof fn lemma_run_from_success_is_within_bounds(state: SwapState, events: Seq<Event>, i: int)
    requires
        0 <= i < swap_actions_from(state, events).len(),
        swap_actions_from(state, events)[i] is Succeed,
    ensures
        ({
            let receipt = swap_actions_from(state, events)[i]->Succeed_0;
            &&& receipt.from_amount <= state.amount_in_max
            &&& state.side == Side::Bid ==> receipt.from_amount <= net_of(state.amount_in_max)
            &&& receipt.to_amount >= state.amount_out_min
            &&& receipt.to_amount > 0
            &&& state.side == Side::Bid ==> receipt.fee == fee_of(state.amount_in_max)
            &&& state.side == Side::Bid ==> receipt.from_amount + receipt.fee
                <= state.amount_in_max
            &&& state.side == Side::Ask ==> receipt.fee == fee_of(receipt.to_amount)
            &&& state.side == Side::Ask ==> receipt.fee <= receipt.to_amount
        }),
    decreases events.len(),
{
    let (next, action) = state.next(events[0]);
    if !action.is_final() {
        if i > 0 {
            lemma_run_from_success_is_within_bounds(next, events.skip(1), i - 1);
        }
    }
}

/// Every order a swap submits is one the exchange takes: its limit price and
/// both maximum quantities are positive. It carries the fixed iteration
/// budget, the swap's own direction and the accounts of the swap's market,
/// and no referral account.
pub proof fn lemma_swap_orders_are_submittable(
    ctx: Swap,
    side: Side,
    amount_in_max: u64,
    amount_out_min: u64,
    events: Seq<Event>,
    i: int,
)
    requires
        0 <= i < swap_actions(ctx, side, amount_in_max, amount_out_min, events).len(),
        swap_actions(ctx, side, amount_in_max, amount_out_min, events)[i] is SendTake,
    ensures
        ({
            let take = swap_actions(ctx, side, amount_in_max, amount_out_min, events)[i]->SendTake_0;
            &&& take.wf()
            &&& take.order.iteration_limit == ITERATION_LIMIT
            &&& take.order.side == side
            &&& take.dex_program == ctx.dex_program
            &&& take.accounts == ctx.orderbook().take_accounts()
            &&& take.referral is None
        }),
{
    let (state, action) = swap_start(ctx, side, amount_in_max, amount_out_min);
    lemma_run_from_orders_are_submittable(state, events, i - 1);
}

proof fn lemma_run_from_orders_are_submittable(state: SwapState, events: Seq<Event>, i: int)
    requires
        0 <= i < swap_actions_from(state, events).len(),
        swap_actions_from(state, events)[i] is SendTake,
    ensures
        ({
            let take = swap_actions_from(state, events)[i]->SendTake_0;
            &&& take.wf()
            &&& take.order.iteration_limit == ITERATION_LIMIT
            &&& take.order.side == state.side
            &&& take.dex_program == state.ctx.dex_program
            &&& take.accounts == state.ctx.orderbook().take_accounts()
            &&& take.referral is None
        }),
    decreases events.len(),
{
    let (next, action) = state.next(events[0]);
    if !action.is_final() {
        if i > 0 {
            lemma_run_from_orders_are_submittable(next, events.skip(1), i - 1);
        }
    }
}

/// Where the actions of a run stand: the action at index `i` of the run from
/// `state` answers the event that finds the swap `i` stages further on, so a
/// transfer can only answer the balance reading after the order and an order
/// only the market's state.
proof fn lemma_run_from_positions(state: SwapState, events: Seq<Event>, i: int)
    requires
        0 <= i < swap_actions_from(state, events).len(),
    ensures
        swap_actions_from(state, events)[i] is Transfer ==> stage_position(state.stage) + i == 3
            && state.side == Side::Ask,
        swap_actions_from(state, events)[i] is SendTake ==> stage_position(state.stage) + i == 1,
        swap_actions_from(state, events)[i] is Succeed || swap_actions_from(state, events)[i] is Fail
            ==> (if stage_position(state.stage) <= 3 {
            (state.side == Side::Bid && stage_position(state.stage) + i == 3) || (state.side
                == Side::Ask && stage_position(state.stage) + i == 4)
        } else {
            stage_position(state.stage) == 4 && i == 0
        }),
    decreases events.len(),
{
    let (next, action) = state.next(events[0]);
    lemma_swap_advances(state, events[0]);
    if !action.is_final() && i > 0 {
        lemma_run_from_positions(next, events.skip(1), i - 1);
    }
}

/// The order of a swap is the caller's intent in the exchange's terms. If an
/// order is part of the run, it answers the market's state: it is the fourth
/// action of a bid and the third of an ask, and it is the bid for what the
/// fee left of `amount_in_max`, or the ask for `amount_in_max`, at the lot
/// size the host has just reported, with the caller's minimum. Together with
/// the fee, a bid cannot spend more than `amount_in_max`; the lots of an ask
/// cannot hold more than `amount_in_max`.
pub proof fn lemma_swap_order_follows_intent(
    ctx: Swap,
    side: Side,
    amount_in_max: u64,
    amount_out_min: u64,
    events: Seq<Event>,
    i: int,
)
    requires
        0 <= i < swap_actions(ctx, side, amount_in_max, amount_out_min, events).len(),
        swap_actions(ctx, side, amount_in_max, amount_out_min, events)[i] is SendTake,
    ensures
        ({
            let run = swap_actions(ctx, side, amount_in_max, amount_out_min, events);
            let asked = if side == Side::Bid {
                2int
            } else {
                1int
            };
            &&& i == asked + 1
            &&& events.len() > asked
            &&& events[asked] is Market
            &&& ({
                let lot_size = events[asked]->Market_0.lot_size;
                let order = run[i]->SendTake_0.order;
                &&& lot_size > 0
                &&& run[i] == Action::SendTake(
                    ctx.orderbook().take_order(
                        if side == Side::Bid {
                            bid_parameters(net_of(amount_in_max), amount_out_min, lot_size)
                        } else {
                            ask_parameters(amount_in_max, amount_out_min, lot_size)
                        },
                    ),
                )
                &&& side == Side::Bid ==> order.max_quote_qty_incl_fees + fee_of(amount_in_max)
                    <= amount_in_max
                &&& side == Side::Ask ==> order.max_base_qty * lot_size <= amount_in_max
            })
        }),
{
    let (s0, a0) = swap_start(ctx, side, amount_in_max, amount_out_min);
    let run = swap_actions(ctx, side, amount_in_max, amount_out_min, events);
    let r0 = swap_actions_from(s0, events);
    assert(run == seq![a0] + r0);
    assert(run[i] == r0[i - 1]);
    lemma_run_from_positions(s0, events, i - 1);
    lemma_run_step(s0, events);
    let (s1, a1) = s0.next(events[0]);
    let e1 = events.skip(1);
    let r1 = swap_actions_from(s1, e1);
    assert(r0 == seq![a1] + r1);
    lemma_run_step(s1, e1);
    let (s2, a2) = s1.next(e1[0]);
    let e2 = e1.skip(1);
    let r2 = swap_actions_from(s2, e2);
    assert(e1[0] == events[1]);
    if side == Side::Ask {
        assert(run[2] == a2);
        let lot_size = events[1]->Market_0.lot_size;
        crate::market::lemma_lots_bracket(amount_in_max as int, lot_size as int);
    } else {
        assert(r1 == seq![a2] + r2);
        lemma_run_step(s2, e2);
        let (s3, a3) = s2.next(e2[0]);
        assert(e2[0] == events[2]);
        assert(run[3] == a3);
    }
}

/// The fee of a bid is skimmed before anything else happens. The first action
/// of the run moves exactly one percent of `amount_in_max`, rounded down,
/// from the price wallet to the treasury; the order, if the run gets that
/// far, comes later; and no other transfer is part of the run.
pub proof fn lemma_bid_fee_precedes_order(
    ctx: Swap,
    amount_in_max: u64,
    amount_out_min: u64,
    events: Seq<Event>,
)
    requires
        ctx.market.coin_wallet.mint != ctx.pc_wallet.mint,
    ensures
        ({
            let run = swap_actions(ctx, Side::Bid, amount_in_max, amount_out_min, events);
            &&& run.len() >= 1
            &&& run[0] == Action::Transfer(
                Transfer {
                    from: ctx.pc_wallet.key,
                    to: ctx.treasury_usdc,
                    authority: ctx.pc_wallet.key,
                    amount: fee_of(amount_in_max),
                    program_signed: false,
                },
            )
            &&& forall|i: int| 0 <= i < run.len() && run[i] is SendTake ==> i == 3
            &&& forall|i: int| 0 < i < run.len() ==> !(run[i] is Transfer)
        }),
{
    let (state, action) = swap_start(ctx, Side::Bid, amount_in_max, amount_out_min);
    let run = swap_actions(ctx, Side::Bid, amount_in_max, amount_out_min, events);
    let rest = swap_actions_from(state, events);
    assert(run == seq![action] + rest);
    assert forall|i: int| 0 < i < run.len() implies !(run[i] is Transfer) && (run[i] is SendTake
        ==> i == 3) by {
        assert(run[i] == rest[i - 1]);
        lemma_run_from_positions(state, events, i - 1);
    }
}

/// The fee of an ask is skimmed after the order and before the verdict. If a
/// transfer is part of the run, it is the fifth action; the order was the
/// third; the transfer moves exactly one percent, rounded down, of what the
/// two balance readings show the trade to have brought, from the price
/// wallet to the treasury; it is the only transfer; and the one action that
/// can follow it is the verdict on the measured amounts, once the host has
/// reported the transfer.
pub proof fn lemma_ask_fee_follows_order(
    ctx: Swap,
    amount_in_max: u64,
    amount_out_min: u64,
    events: Seq<Event>,
    i: int,
)
    requires
        0 <= i < swap_actions(ctx, Side::Ask, amount_in_max, amount_out_min, events).len(),
        swap_actions(ctx, Side::Ask, amount_in_max, amount_out_min, events)[i] is Transfer,
    ensures
        ({
            let run = swap_actions(ctx, Side::Ask, amount_in_max, amount_out_min, events);
            &&& i == 4
            &&& run[2] is SendTake
            &&& events.len() >= 4
            &&& events[0] is Balances
            &&& events[3] is Balances
            &&& ({
                let snapshot = BalanceSnapshot {
                    before: events[0]->Balances_0,
                    after: events[3]->Balances_0,
                };
                &&& snapshot.amounts() is Some
                &&& run[4] == Action::Transfer(
                    Transfer {
                        from: ctx.pc_wallet.key,
                        to: ctx.treasury_usdc,
                        authority: ctx.pc_wallet.key,
                        amount: fee_of(snapshot.amounts()->Some_0.to_amount),
                        program_signed: false,
                    },
                )
                &&& run.len() > 5 ==> run.len() == 6 && run[5] == (if events[4] is Transferred {
                    conclusion(
                        amount_in_max,
                        amount_out_min,
                        snapshot.amounts()->Some_0,
                        fee_of(snapshot.amounts()->Some_0.to_amount),
                        None,
                    )
                } else {
                    Action::Abort(Defect::UnexpectedEvent)
                })
            })
            &&& forall|j: int| 0 <= j < run.len() && j != 4 ==> !(run[j] is Transfer)
        }),
{
    let (s0, a0) = swap_start(ctx, Side::Ask, amount_in_max, amount_out_min);
    let run = swap_actions(ctx, Side::Ask, amount_in_max, amount_out_min, events);
    let r0 = swap_actions_from(s0, events);
    assert(run == seq![a0] + r0);
    assert forall|j: int| 0 <= j < run.len() && run[j] is Transfer implies j == 4 by {
        assert(run[j] == r0[j - 1]);
        lemma_run_from_positions(s0, events, j - 1);
    }
    assert(r0.len() >= 4);
    lemma_run_step(s0, events);
    let (s1, a1) = s0.next(events[0]);
    let e1 = events.skip(1);
    let r1 = swap_actions_from(s1, e1);
    assert(r0 == seq![a1] + r1);
    lemma_run_step(s1, e1);
    let (s2, a2) = s1.next(e1[0]);
    let e2 = e1.skip(1);
    let r2 = swap_actions_from(s2, e2);
    assert(r1 == seq![a2] + r2);
    lemma_run_step(s2, e2);
    let (s3, a3) = s2.next(e2[0]);
    let e3 = e2.skip(1);
    let r3 = swap_actions_from(s3, e3);
    assert(r2 == seq![a3] + r3);
    lemma_run_step(s3, e3);
    let (s4, a4) = s3.next(e3[0]);
    let e4 = e3.skip(1);
    let r4 = swap_actions_from(s4, e4);
    assert(e3[0] == events[3]);
    assert(r3 == seq![a4] + r4);
    assert(run[2] == a2);
    assert(run[4] == a4);
    lemma_run_step(s4, e4);
    if e4.len() > 0 {
        assert(e4[0] == events[4]);
        let (s5, a5) = s4.next(e4[0]);
        assert(r4 == seq![a5]);
        assert(run[5] == a5);
    }
}

/// The end of a swap is the verdict on what the wallets show. If a run of a
/// swap between wallets of different assets ends in success or in a typed
/// error, that is its sixth action, and it is the verdict on the difference
/// between the balances read before and after the order, held against what
/// the fee left of `amount_in_max` for a bid, against `amount_in_max` itself
/// for an ask, and against `amount_out_min`.
pub proof fn lemma_swap_ends_with_the_verdict(
    ctx: Swap,
    side: Side,
    amount_in_max: u64,
    amount_out_min: u64,
    events: Seq<Event>,
    i: int,
)
    requires
        ctx.market.coin_wallet.mint != ctx.pc_wallet.mint,
        0 <= i < swap_actions(ctx, side, amount_in_max, amount_out_min, events).len(),
        swap_actions(ctx, side, amount_in_max, amount_out_min, events)[i] is Succeed
            || swap_actions(ctx, side, amount_in_max, amount_out_min, events)[i] is Fail,
    ensures
        ({
            let run = swap_actions(ctx, side, amount_in_max, amount_out_min, events);
            let first = if side == Side::Bid {
                1int
            } else {
                0int
            };
            &&& i == 5
            &&& run.len() == 6
            &&& events.len() >= 5
            &&& events[first] is Balances
            &&& events[first + 3] is Balances
            &&& ({
                let snapshot = BalanceSnapshot {
                    before: events[first]->Balances_0,
                    after: events[first + 3]->Balances_0,
                };
                &&& snapshot.amounts() is Some
                &&& run[5] == conclusion(
                    if side == Side::Bid {
                        net_of(amount_in_max)
                    } else {
                        amount_in_max
                    },
                    amount_out_min,
                    snapshot.amounts()->Some_0,
                    if side == Side::Bid {
                        fee_of(amount_in_max)
                    } else {
                        fee_of(snapshot.amounts()->Some_0.to_amount)
                    },
                    None,
                )
            })
        }),
{
    let (s0, a0) = swap_start(ctx, side, amount_in_max, amount_out_min);
    let run = swap_actions(ctx, side, amount_in_max, amount_out_min, events);
    let r0 = swap_actions_from(s0, events);
    assert(run == seq![a0] + r0);
    assert(run[i] == r0[i - 1]);
    lemma_run_from_positions(s0, events, i - 1);
    lemma_swap_run_ends_once(ctx, side, amount_in_max, amount_out_min, events, i);
    assert(i == 5);
    lemma_run_step(s0, events);
    let (s1, a1) = s0.next(events[0]);
    let e1 = events.skip(1);
    let r1 = swap_actions_from(s1, e1);
    assert(r0 == seq![a1] + r1);
    lemma_run_step(s1, e1);
    let (s2, a2) = s1.next(e1[0]);
    let e2 = e1.skip(1);
    let r2 = swap_actions_from(s2, e2);
    assert(r1 == seq![a2] + r2);
    lemma_run_step(s2, e2);
    let (s3, a3) = s2.next(e2[0]);
    let e3 = e2.skip(1);
    let r3 = swap_actions_from(s3, e3);
    assert(r2 == seq![a3] + r3);
    lemma_run_step(s3, e3);
    let (s4, a4) = s3.next(e3[0]);
    let e4 = e3.skip(1);
    let r4 = swap_actions_from(s4, e4);
    assert(r3 == seq![a4] + r4);
    lemma_run_step(s4, e4);
    let (s5, a5) = s4.next(e4[0]);
    assert(e1[0] == events[1]);
    assert(e2[0] == events[2]);
    assert(e3[0] == events[3]);
    assert(e4[0] == events[4]);
    assert(run[5] == a5);
}

/// The events of a bid whose host could carry out every action: the fee
/// arrived, the wallets read `before`, the market was in state `market`, the
/// order went through and the wallets read `after`.
pub open spec fn bid_events(before: Balances, market: MarketDescriptor, after: Balances) -> Seq<
    Event,
> {
    seq![
        Event::Transferred,
        Event::Balances(before),
        Event::Market(market),
        Event::OrderSent,
        Event::Balances(after),
    ]
}

/// The events of an ask whose host could carry out every action: the wallets
/// read `before`, the market was in state `market`, the order went through,
/// the wallets read `after` and the fee arrived.
pub open spec fn ask_events(before: Balances, market: MarketDescriptor, after: Balances) -> Seq<
    Event,
> {
    seq![
        Event::Balances(before),
        Event::Market(market),
        Event::OrderSent,
        Event::Balances(after),
        Event::Transferred,
    ]
}

/// The run of five events from a state, unfolded: each action is the answer
/// to the next event, as long as no action ends the swap.
proof fn lemma_run_of_five(state: SwapState, events: Seq<Event>)
    requires
        events.len() == 5,
        !state.next(events[0]).1.is_final(),
        !state.next(events[0]).0.next(events[1]).1.is_final(),
        !state.next(events[0]).0.next(events[1]).0.next(events[2]).1.is_final(),
        !state.next(events[0]).0.next(events[1]).0.next(events[2]).0.next(events[3]).1.is_final(),
    ensures
        ({
            let (s1, a1) = state.next(events[0]);
            let (s2, a2) = s1.next(events[1]);
            let (s3, a3) = s2.next(events[2]);
            let (s4, a4) = s3.next(events[3]);
            let (s5, a5) = s4.next(events[4]);
            a5.is_final() ==> swap_actions_from(state, events) == seq![a1, a2, a3, a4, a5]
        }),
{
    let (s1, a1) = state.next(events[0]);
    let (s2, a2) = s1.next(events[1]);
    let (s3, a3) = s2.next(events[2]);
    let (s4, a4) = s3.next(events[3]);
    let (s5, a5) = s4.next(events[4]);
    let e1 = events.skip(1);
    let e2 = e1.skip(1);
    let e3 = e2.skip(1);
    let e4 = e3.skip(1);
    lemma_run_step(state, events);
    lemma_run_step(s1, e1);
    lemma_run_step(s2, e2);
    lemma_run_step(s3, e3);
    lemma_run_step(s4, e4);
    assert(e1[0] == events[1]);
    assert(e2[0] == events[2]);
    assert(e3[0] == events[3]);
    assert(e4[0] == events[4]);
    if a5.is_final() {
        assert(swap_actions_from(s4, e4) == seq![a5]);
        assert(swap_actions_from(state, events) =~= seq![a1, a2, a3, a4, a5]);
    }
}

/// The whole course of a bid. On a market with a lot size, with an input of
/// which the fee leaves something to trade, and with balances that moved with
/// the trade, the swap skims the fee, reads the wallets, reads the market,
/// bids with what the fee left, reads the wallets again and gives its verdict
/// on the difference, held against what the fee left of `amount_in_max`.
pub proof fn lemma_bid_course(
    ctx: Swap,
    amount_in_max: u64,
    amount_out_min: u64,
    before: Balances,
    market: MarketDescriptor,
    after: Balances,
)
    requires
        ctx.market.coin_wallet.mint != ctx.pc_wallet.mint,
        market.lot_size > 0,
        net_of(amount_in_max) > 0,
        (BalanceSnapshot { before, after }).consistent(),
    ensures
        ({
            let moved = (BalanceSnapshot { before, after }).amounts()->Some_0;
            let read = Action::ReadBalances {
                source: ctx.pc_wallet.key,
                destination: ctx.market.coin_wallet.key,
            };
            swap_actions(
                ctx,
                Side::Bid,
                amount_in_max,
                amount_out_min,
                bid_events(before, market, after),
            ) == seq![
                Action::Transfer(
                    Transfer {
                        from: ctx.pc_wallet.key,
                        to: ctx.treasury_usdc,
                        authority: ctx.pc_wallet.key,
                        amount: fee_of(amount_in_max),
                        program_signed: false,
                    },
                ),
                read,
                Action::LoadMarket { market: ctx.market.market },
                Action::SendTake(
                    ctx.orderbook().take_order(
                        bid_parameters(net_of(amount_in_max), amount_out_min, market.lot_size),
                    ),
                ),
                read,
                conclusion(
                    net_of(amount_in_max),
                    amount_out_min,
                    moved,
                    fee_of(amount_in_max),
                    None,
                ),
            ]
        }),
{
    let events = bid_events(before, market, after);
    let (s0, a0) = swap_start(ctx, Side::Bid, amount_in_max, amount_out_min);
    let (s1, a1) = s0.next(events[0]);
    let (s2, a2) = s1.next(events[1]);
    let (s3, a3) = s2.next(events[2]);
    let (s4, a4) = s3.next(events[3]);
    let (s5, a5) = s4.next(events[4]);
    assert(s1.stage == SwapStage::BalancesBefore);
    assert(s2.stage == SwapStage::Market { before });
    assert(s3.stage == SwapStage::Order { before });
    assert(s4.stage == SwapStage::BalancesAfter { before });
    assert(a5.is_final());
    lemma_run_of_five(s0, events);
    let run = swap_actions(ctx, Side::Bid, amount_in_max, amount_out_min, events);
    assert(run =~= seq![a0, a1, a2, a3, a4, a5]);
}

/// The whole course of an ask. On a market with a lot size, with an input of
/// at least one lot, and with balances that moved with the trade, the swap
/// reads the wallets, reads the market, asks with the whole lots of the
/// input, reads the wallets again, skims the fee from the proceeds and gives
/// its verdict on the difference of the readings, held against the whole
/// `amount_in_max`.
pub proof fn lemma_ask_course(
    ctx: Swap,
    amount_in_max: u64,
    amount_out_min: u64,
    before: Balances,
    market: MarketDescriptor,
    after: Balances,
)
    requires
        ctx.market.coin_wallet.mint != ctx.pc_wallet.mint,
        0 < market.lot_size <= amount_in_max,
        (BalanceSnapshot { before, after }).consistent(),
    ensures
        ({
            let moved = (BalanceSnapshot { before, after }).amounts()->Some_0;
            let read = Action::ReadBalances {
                source: ctx.market.coin_wallet.key,
                destination: ctx.pc_wallet.key,
            };
            swap_actions(
                ctx,
                Side::Ask,
                amount_in_max,
                amount_out_min,
                ask_events(before, market, after),
            ) == seq![
                read,
                Action::LoadMarket { market: ctx.market.market },
                Action::SendTake(
                    ctx.orderbook().take_order(
                        ask_parameters(amount_in_max, amount_out_min, market.lot_size),
                    ),
                ),
                read,
                Action::Transfer(
                    Transfer {
                        from: ctx.pc_wallet.key,
                        to: ctx.treasury_usdc,
                        authority: ctx.pc_wallet.key,
                        amount: fee_of(moved.to_amount),
                        program_signed: false,
                    },
                ),
                conclusion(
                    amount_in_max,
                    amount_out_min,
                    moved,
                    fee_of(moved.to_amount),
                    None,
                ),
            ]
        }),
{
    crate::market::lemma_lots_bracket(amount_in_max as int, market.lot_size as int);
    let events = ask_events(before, market, after);
    let (s0, a0) = swap_start(ctx, Side::Ask, amount_in_max, amount_out_min);
    let (s1, a1) = s0.next(events[0]);
    let (s2, a2) = s1.next(events[1]);
    let (s3, a3) = s2.next(events[2]);
    let (s4, a4) = s3.next(events[3]);
    let (s5, a5) = s4.next(events[4]);
    assert(s1.stage == SwapStage::Market { before });
    assert(s2.stage == SwapStage::Order { before });
    assert(s3.stage == SwapStage::BalancesAfter { before });
    assert(s4.stage is FeeAfterTrade);
    assert(a5.is_final());
    lemma_run_of_five(s0, events);
    let run = swap_actions(ctx, Side::Ask, amount_in_max, amount_out_min, events);
    assert(run =~= seq![a0, a1, a2, a3, a4, a5]);
}

} // verus!
