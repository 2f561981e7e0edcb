use dexaggregator::accounts::{MarketAccounts, Swap, TokenWallet};
use dexaggregator::address::Address;
use dexaggregator::error::{Defect, ErrorCode};
use dexaggregator::host::{Action, Amounts, Balances, Event, Receipt, Transfer};
use dexaggregator::market::{ask, bid, MarketDescriptor, Side};
use dexaggregator::safety::is_valid_swap;
use dexaggregator::swap::{swap, SwapStage, SwapState};
use dexaggregator::OrderbookClient;

fn key(tag: u8) -> Address {
    Address::new([tag; 32])
}

const BASE_WALLET: u8 = 9;
const PRICE_WALLET: u8 = 12;
const TREASURY_WALLET: u8 = 17;

fn accounts() -> Swap {
    Swap {
        market: MarketAccounts {
            market: key(1),
            request_queue: key(2),
            event_queue: key(3),
            market_bids: key(4),
            market_asks: key(5),
            coin_vault: key(6),
            pc_vault: key(7),
            vault_signer: key(8),
            coin_wallet: TokenWallet { key: key(BASE_WALLET), mint: key(10) },
        },
        wallet_owner: key(11),
        mint_a: key(15),
        treasury: key(16),
        treasury_usdc: key(TREASURY_WALLET),
        pc_wallet: TokenWallet { key: key(PRICE_WALLET), mint: key(18) },
        system_program: key(19),
        associated_token_program: key(20),
        dex_program: key(13),
        token_program: key(14),
    }
}

fn same_asset_accounts() -> Swap {
    let mut ctx = accounts();
    ctx.pc_wallet.mint = ctx.market.coin_wallet.mint;
    ctx
}

fn fee_transfer(amount: u64) -> Action {
    Action::Transfer(Transfer {
        from: key(PRICE_WALLET),
        to: key(TREASURY_WALLET),
        authority: key(PRICE_WALLET),
        amount,
        program_signed: false,
    })
}

fn balances(source: u64, destination: u64) -> Event {
    Event::Balances(Balances { source, destination })
}

/// Runs a swap against a host that answers with `events` in turn and collects
/// every action up to the one that ends the swap.
fn run(
    ctx: &Swap,
    side: Side,
    amount_in_max: u64,
    amount_out_min: u64,
    events: &[Event],
) -> Vec<Action> {
    let (mut state, mut action) = swap(ctx, side, amount_in_max, amount_out_min);
    let mut actions = vec![action];
    for event in events {
        if action.ends_operation() {
            break;
        }
        let step = state.resume(*event);
        state = step.0;
        action = step.1;
        actions.push(action);
    }
    actions
}

#[test]
fn wallets_of_different_assets_are_valid() {
    assert_eq!(is_valid_swap(&accounts()), Ok(()));
}

#[test]
fn wallets_of_one_asset_are_rejected() {
    assert_eq!(is_valid_swap(&same_asset_accounts()), Err(ErrorCode::SwapTokensCannotMatch));
}

#[test]
fn swap_of_one_asset_fails_before_any_effect() {
    for side in [Side::Bid, Side::Ask] {
        let (state, action) = swap(&same_asset_accounts(), side, 1000, 1);
        assert_eq!(action, Action::Fail(ErrorCode::SwapTokensCannotMatch));
        assert_eq!(state.stage, SwapStage::Done);
        let actions = run(&same_asset_accounts(), side, 1000, 1, &[Event::Transferred]);
        assert_eq!(actions, vec![Action::Fail(ErrorCode::SwapTokensCannotMatch)]);
    }
}

#[test]
fn bid_runs_fee_first() {
    let ctx = accounts();
    let market = MarketDescriptor { lot_size: 10 };
    let events = [
        Event::Transferred,
        balances(5000, 40),
        Event::Market(market),
        Event::OrderSent,
        balances(4020, 140),
    ];
    let actions = run(&ctx, Side::Bid, 1000, 95, &events);
    let read =
        Action::ReadBalances { source: key(PRICE_WALLET), destination: key(BASE_WALLET) };
    let take = OrderbookClient::from(&ctx).bid(990, 95, &market).unwrap();
    assert_eq!(take.order, bid(990, 95, &market));
    assert_eq!(take.order.max_quote_qty_incl_fees, 990);
    assert_eq!(take.order.min_base_qty, 9);
    assert_eq!(
        actions,
        vec![
            fee_transfer(10),
            read,
            Action::LoadMarket { market: key(1) },
            Action::SendTake(take),
            read,
            Action::Succeed(Receipt { from_amount: 980, to_amount: 100, fee: 10, spill: None }),
        ]
    );
}

#[test]
fn bid_is_held_to_what_the_fee_left() {
    let events = [
        Event::Transferred,
        balances(5000, 0),
        Event::Market(MarketDescriptor { lot_size: 1 }),
        Event::OrderSent,
        balances(4009, 10),
    ];
    let actions = run(&accounts(), Side::Bid, 1000, 0, &events);
    assert_eq!(actions.last(), Some(&Action::Fail(ErrorCode::SwapTokenAmountExceedsMax)));
    let events = [
        Event::Transferred,
        balances(5000, 0),
        Event::Market(MarketDescriptor { lot_size: 1 }),
        Event::OrderSent,
        balances(4010, 10),
    ];
    let actions = run(&accounts(), Side::Bid, 1000, 0, &events);
    assert_eq!(
        actions.last(),
        Some(&Action::Succeed(Receipt { from_amount: 990, to_amount: 10, fee: 10, spill: None }))
    );
}

#[test]
fn bid_below_minimum_output_fails() {
    let events = [
        Event::Transferred,
        balances(5000, 0),
        Event::Market(MarketDescriptor { lot_size: 1 }),
        Event::OrderSent,
        balances(4500, 99),
    ];
    let actions = run(&accounts(), Side::Bid, 1000, 100, &events);
    assert_eq!(actions.len(), 6);
    assert_eq!(actions[5], Action::Fail(ErrorCode::SwapTokenAmountLessThanMin));
}

#[test]
fn bid_that_brings_nothing_fails() {
    let events = [
        Event::Transferred,
        balances(5000, 7),
        Event::Market(MarketDescriptor { lot_size: 1 }),
        Event::OrderSent,
        balances(5000, 7),
    ];
    let actions = run(&accounts(), Side::Bid, 1000, 0, &events);
    assert_eq!(actions[5], Action::Fail(ErrorCode::ZeroSwap));
}

#[test]
fn bid_too_small_to_trade_is_a_defect() {
    let events = [
        Event::Transferred,
        balances(5000, 0),
        Event::Market(MarketDescriptor { lot_size: 1 }),
        Event::OrderSent,
    ];
    let actions = run(&accounts(), Side::Bid, 1, 0, &events);
    let read =
        Action::ReadBalances { source: key(PRICE_WALLET), destination: key(BASE_WALLET) };
    assert_eq!(
        actions,
        vec![
            fee_transfer(0),
            read,
            Action::LoadMarket { market: key(1) },
            Action::Abort(Defect::ZeroOrderQuantity),
        ]
    );
}

#[test]
fn ask_runs_fee_last() {
    let ctx = accounts();
    let market = MarketDescriptor { lot_size: 100 };
    let events = [
        balances(800, 1000),
        Event::Market(market),
        Event::OrderSent,
        balances(300, 2234),
        Event::Transferred,
    ];
    let actions = run(&ctx, Side::Ask, 500, 1234, &events);
    let read =
        Action::ReadBalances { source: key(BASE_WALLET), destination: key(PRICE_WALLET) };
    let take = OrderbookClient::from(&ctx).ask(500, 1234, &market).unwrap();
    assert_eq!(take.order, ask(500, 1234, &market));
    assert_eq!(take.order.max_base_qty, 5);
    assert_eq!(take.order.min_base_qty, 5);
    assert_eq!(take.order.min_quote_qty, 1234);
    assert_eq!(
        actions,
        vec![
            read,
            Action::LoadMarket { market: key(1) },
            Action::SendTake(take),
            read,
            fee_transfer(12),
            Action::Succeed(Receipt { from_amount: 500, to_amount: 1234, fee: 12, spill: None }),
        ]
    );
}

#[test]
fn ask_passes_exactly_from_the_minimum_output_on() {
    let events = [
        balances(800, 1000),
        Event::Market(MarketDescriptor { lot_size: 100 }),
        Event::OrderSent,
        balances(300, 2234),
        Event::Transferred,
    ];
    let at_minimum = run(&accounts(), Side::Ask, 500, 1234, &events);
    assert!(matches!(at_minimum[5], Action::Succeed(_)));
    let above_minimum = run(&accounts(), Side::Ask, 500, 1235, &events);
    assert_eq!(above_minimum[4], fee_transfer(12));
    assert_eq!(above_minimum[5], Action::Fail(ErrorCode::SwapTokenAmountLessThanMin));
}

#[test]
fn ask_may_spend_its_whole_input() {
    let events = [
        balances(500, 0),
        Event::Market(MarketDescriptor { lot_size: 100 }),
        Event::OrderSent,
        balances(0, 50),
        Event::Transferred,
    ];
    let actions = run(&accounts(), Side::Ask, 500, 0, &events);
    assert_eq!(
        actions[5],
        Action::Succeed(Receipt { from_amount: 500, to_amount: 50, fee: 0, spill: None })
    );
}

#[test]
fn ask_that_spends_more_than_allowed_fails() {
    let events = [
        balances(800, 0),
        Event::Market(MarketDescriptor { lot_size: 100 }),
        Event::OrderSent,
        balances(299, 50),
        Event::Transferred,
    ];
    let actions = run(&accounts(), Side::Ask, 500, 0, &events);
    assert_eq!(actions[5], Action::Fail(ErrorCode::SwapTokenAmountExceedsMax));
}

#[test]
fn ask_that_brings_nothing_fails() {
    let events = [
        balances(800, 3),
        Event::Market(MarketDescriptor { lot_size: 100 }),
        Event::OrderSent,
        balances(800, 3),
        Event::Transferred,
    ];
    let actions = run(&accounts(), Side::Ask, 500, 0, &events);
    assert_eq!(actions[4], fee_transfer(0));
    assert_eq!(actions[5], Action::Fail(ErrorCode::ZeroSwap));
}

#[test]
fn ask_below_one_lot_is_a_defect() {
    let events = [balances(800, 0), Event::Market(MarketDescriptor { lot_size: 100 })];
    let actions = run(&accounts(), Side::Ask, 99, 0, &events);
    assert_eq!(actions.len(), 3);
    assert_eq!(actions[2], Action::Abort(Defect::ZeroOrderQuantity));
}

#[test]
fn market_without_lot_size_is_a_defect() {
    let events = [balances(800, 0), Event::Market(MarketDescriptor { lot_size: 0 })];
    let actions = run(&accounts(), Side::Ask, 500, 0, &events);
    assert_eq!(actions[2], Action::Abort(Defect::ZeroLotSize));
}

#[test]
fn balance_against_the_trade_is_a_defect() {
    let events = [
        balances(800, 10),
        Event::Market(MarketDescriptor { lot_size: 100 }),
        Event::OrderSent,
        balances(801, 20),
    ];
    let actions = run(&accounts(), Side::Ask, 500, 0, &events);
    assert_eq!(actions[4], Action::Abort(Defect::ArithmeticUnderflow));
    let events = [
        balances(800, 10),
        Event::Market(MarketDescriptor { lot_size: 100 }),
        Event::OrderSent,
        balances(700, 9),
    ];
    let actions = run(&accounts(), Side::Ask, 500, 0, &events);
    assert_eq!(actions[4], Action::Abort(Defect::ArithmeticUnderflow));
}

#[test]
fn unexpected_event_is_a_defect() {
    let (state, _) = swap(&accounts(), Side::Ask, 500, 0);
    let (state, action) = state.resume(Event::OrderSent);
    assert_eq!(action, Action::Abort(Defect::UnexpectedEvent));
    assert_eq!(state.stage, SwapStage::Done);
    let (_, action) = state.resume(Event::Transferred);
    assert_eq!(action, Action::Abort(Defect::UnexpectedEvent));
}

#[test]
fn swap_keeps_its_terms_through_every_step() {
    let ctx = accounts();
    let (state, _) = swap(&ctx, Side::Ask, 500, 7);
    let (state, _) = state.resume(balances(800, 0));
    assert_eq!(
        state,
        SwapState {
            ctx,
            side: Side::Ask,
            amount_in_max: 500,
            amount_out_min: 7,
            stage: SwapStage::Market { before: Balances { source: 800, destination: 0 } },
        }
    );
    let (state, _) = state.resume(Event::Market(MarketDescriptor { lot_size: 100 }));
    let (state, _) = state.resume(Event::OrderSent);
    let (state, _) = state.resume(balances(300, 90));
    assert_eq!(
        state.stage,
        SwapStage::FeeAfterTrade { moved: Amounts { from_amount: 500, to_amount: 90 } }
    );
    assert_eq!(state.ctx, ctx);
    assert_eq!(state.amount_in_max, 500);
    assert_eq!(state.amount_out_min, 7);
}

#[test]
fn swap_takes_the_largest_amounts() {
    let events = [
        Event::Transferred,
        balances(u64::MAX, 0),
        Event::Market(MarketDescriptor { lot_size: 1 }),
        Event::OrderSent,
        balances(0, u64::MAX),
    ];
    let actions = run(&accounts(), Side::Bid, u64::MAX, u64::MAX, &events);
    assert_eq!(actions[0], fee_transfer(184_467_440_737_095_516));
    assert_eq!(actions[5], Action::Fail(ErrorCode::SwapTokenAmountExceedsMax));
}
