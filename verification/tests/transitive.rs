use dexaggregator::accounts::{MarketAccounts, SwapTransitive, TokenWallet};
use dexaggregator::address::Address;
use dexaggregator::error::{Defect, ErrorCode};
use dexaggregator::host::{Action, Balances, Event, Receipt, Transfer};
use dexaggregator::market::{ask, bid, MarketDescriptor};
use dexaggregator::safety::is_valid_swap_transitive;
use dexaggregator::transitive::{spill_amount, swap_transitive, TransitiveStage};

fn address(tag: u8) -> Address {
    Address::new([tag; 32])
}

const INPUT_WALLET: u8 = 109;
const OUTPUT_WALLET: u8 = 209;
const SHARED_PRICE_WALLET: u8 = 12;
const FEE_WALLET: u8 = 17;

fn market_accounts(offset: u8, mint: u8) -> MarketAccounts {
    MarketAccounts {
        market: address(offset + 1),
        request_queue: address(offset + 2),
        event_queue: address(offset + 3),
        market_bids: address(offset + 4),
        market_asks: address(offset + 5),
        coin_vault: address(offset + 6),
        pc_vault: address(offset + 7),
        vault_signer: address(offset + 8),
        coin_wallet: TokenWallet { key: address(offset + 9), mint: address(mint) },
    }
}

fn two_markets() -> SwapTransitive {
    SwapTransitive {
        from: market_accounts(100, 30),
        to: market_accounts(200, 31),
        wallet_owner: address(11),
        pc_wallet: address(SHARED_PRICE_WALLET),
        treasury: address(16),
        treasury_usdc: address(FEE_WALLET),
        dex_program: address(13),
        token_program: address(14),
    }
}

fn read(source: u8, destination: u8) -> Action {
    Action::ReadBalances { source: address(source), destination: address(destination) }
}

fn skim(amount: u64) -> Action {
    Action::Transfer(Transfer {
        from: address(SHARED_PRICE_WALLET),
        to: address(FEE_WALLET),
        authority: address(SHARED_PRICE_WALLET),
        amount,
        program_signed: false,
    })
}

fn wallets(source: u64, destination: u64) -> Event {
    Event::Balances(Balances { source, destination })
}

fn run_transitive(
    ctx: &SwapTransitive,
    amount_in_max: u64,
    amount_out_min: u64,
    events: &[Event],
) -> Vec<Action> {
    let (mut state, mut action) = swap_transitive(ctx, amount_in_max, amount_out_min);
    let mut actions = vec![action];
    for event in events {
        if action.ends_operation() {
            break;
        }
        let step = state.resume(*event);
        state = step.0;
        action = step.1;
        actions.push(action);
    }
    actions
}

/// A sale of 500 of the input asset that brings `sell_proceeds`, followed by
/// a purchase that spends `buy_spent` and brings `bought`.
fn two_legs(sell_proceeds: u64, buy_spent: u64, bought: u64) -> [Event; 9] {
    [
        wallets(800, 5000),
        Event::Market(MarketDescriptor { lot_size: 100 }),
        Event::OrderSent,
        wallets(300, 5000 + sell_proceeds),
        Event::Transferred,
        wallets(6000, 40),
        Event::Market(MarketDescriptor { lot_size: 10 }),
        Event::OrderSent,
        wallets(6000 - buy_spent, 40 + bought),
    ]
}

#[test]
fn base_wallets_of_different_assets_are_valid() {
    assert_eq!(is_valid_swap_transitive(&two_markets()), Ok(()));
}

#[test]
fn base_wallets_of_one_asset_are_rejected() {
    let mut ctx = two_markets();
    ctx.to.coin_wallet.mint = ctx.from.coin_wallet.mint;
    assert_eq!(is_valid_swap_transitive(&ctx), Err(ErrorCode::SwapTokensCannotMatch));
    let (state, action) = swap_transitive(&ctx, 500, 1);
    assert_eq!(action, Action::Fail(ErrorCode::SwapTokensCannotMatch));
    assert_eq!(state.stage, TransitiveStage::Done);
    assert_eq!(
        run_transitive(&ctx, 500, 1, &two_legs(1000, 980, 70)),
        vec![Action::Fail(ErrorCode::SwapTokensCannotMatch)]
    );
}

#[test]
fn transitive_swap_sells_skims_and_buys() {
    let ctx = two_markets();
    let actions = run_transitive(&ctx, 500, 65, &two_legs(1000, 980, 70));
    let sell = ctx.orderbook_from().ask(500, 0, &MarketDescriptor { lot_size: 100 }).unwrap();
    let buy = ctx.orderbook_to().bid(990, 65, &MarketDescriptor { lot_size: 10 }).unwrap();
    assert_eq!(sell.order, ask(500, 0, &MarketDescriptor { lot_size: 100 }));
    assert_eq!(sell.accounts.market, address(101));
    assert_eq!(sell.accounts.coin_wallet, address(INPUT_WALLET));
    assert_eq!(buy.order, bid(990, 65, &MarketDescriptor { lot_size: 10 }));
    assert_eq!(buy.accounts.market, address(201));
    assert_eq!(buy.accounts.coin_wallet, address(OUTPUT_WALLET));
    assert_eq!(buy.accounts.pc_wallet, address(SHARED_PRICE_WALLET));
    assert_eq!(
        actions,
        vec![
            read(INPUT_WALLET, SHARED_PRICE_WALLET),
            Action::LoadMarket { market: address(101) },
            Action::SendTake(sell),
            read(INPUT_WALLET, SHARED_PRICE_WALLET),
            skim(10),
            read(SHARED_PRICE_WALLET, OUTPUT_WALLET),
            Action::LoadMarket { market: address(201) },
            Action::SendTake(buy),
            read(SHARED_PRICE_WALLET, OUTPUT_WALLET),
            Action::Succeed(Receipt {
                from_amount: 500,
                to_amount: 70,
                fee: 10,
                spill: Some(10),
            }),
        ]
    );
}

#[test]
fn spill_is_what_the_second_leg_left_of_the_net_proceeds() {
    assert_eq!(spill_amount(1000, 980), Some(10));
    assert_eq!(spill_amount(1000, 990), Some(0));
    assert_eq!(spill_amount(1000, 0), Some(990));
    assert_eq!(spill_amount(150, 148), Some(0));
    assert_eq!(spill_amount(1000, 991), None);
}

#[test]
fn spill_does_not_fail_a_swap_and_the_second_leg_keeps_its_minimum() {
    let ctx = two_markets();
    let actions = run_transitive(&ctx, 500, 65, &two_legs(1000, 980, 70));
    match actions[7] {
        Action::SendTake(take) => {
            assert_eq!(take.order.max_quote_qty_incl_fees, 990);
            assert_eq!(take.order.min_base_qty, 6);
        },
        other => panic!("expected an order, got {:?}", other),
    }
    match actions[9] {
        Action::Succeed(receipt) => assert_eq!(receipt.spill, Some(10)),
        other => panic!("expected success, got {:?}", other),
    }
}

#[test]
fn transitive_swap_is_judged_by_the_callers_own_bounds() {
    let ctx = two_markets();
    let too_little = run_transitive(&ctx, 500, 71, &two_legs(1000, 980, 70));
    assert_eq!(too_little[9], Action::Fail(ErrorCode::SwapTokenAmountLessThanMin));
    let nothing = run_transitive(&ctx, 500, 0, &two_legs(1000, 0, 0));
    assert_eq!(nothing[9], Action::Fail(ErrorCode::ZeroSwap));
    let mut events = two_legs(1000, 980, 70);
    events[3] = wallets(299, 6000);
    let too_much = run_transitive(&ctx, 500, 0, &events);
    assert_eq!(too_much[9], Action::Fail(ErrorCode::SwapTokenAmountExceedsMax));
    let all_of_it = run_transitive(&ctx, 500, 70, &two_legs(1000, 990, 70));
    assert_eq!(
        all_of_it[9],
        Action::Succeed(Receipt { from_amount: 500, to_amount: 70, fee: 10, spill: Some(0) })
    );
}

#[test]
fn second_leg_spending_past_its_cap_is_a_defect() {
    let actions = run_transitive(&two_markets(), 500, 0, &two_legs(1000, 991, 70));
    assert_eq!(actions[9], Action::Abort(Defect::ArithmeticUnderflow));
}

#[test]
fn sale_below_one_lot_is_a_defect() {
    let actions = run_transitive(&two_markets(), 99, 0, &two_legs(1000, 980, 70));
    assert_eq!(actions.len(), 3);
    assert_eq!(actions[2], Action::Abort(Defect::ZeroOrderQuantity));
}

#[test]
fn proceeds_too_small_to_trade_are_a_defect() {
    let actions = run_transitive(&two_markets(), 500, 0, &two_legs(1, 0, 0));
    assert_eq!(actions[4], skim(0));
    assert_eq!(actions.len(), 8);
    assert_eq!(actions[7], Action::Abort(Defect::ZeroOrderQuantity));
}

#[test]
fn either_market_without_lot_size_is_a_defect() {
    let mut events = two_legs(1000, 980, 70);
    events[6] = Event::Market(MarketDescriptor { lot_size: 0 });
    let actions = run_transitive(&two_markets(), 500, 0, &events);
    assert_eq!(actions[7], Action::Abort(Defect::ZeroLotSize));
    events[1] = Event::Market(MarketDescriptor { lot_size: 0 });
    let actions = run_transitive(&two_markets(), 500, 0, &events);
    assert_eq!(actions[2], Action::Abort(Defect::ZeroLotSize));
}

#[test]
fn balances_against_either_leg_are_a_defect() {
    let mut events = two_legs(1000, 980, 70);
    events[3] = wallets(300, 4999);
    let actions = run_transitive(&two_markets(), 500, 0, &events);
    assert_eq!(actions[4], Action::Abort(Defect::ArithmeticUnderflow));
    let mut events = two_legs(1000, 980, 70);
    events[8] = wallets(6001, 110);
    let actions = run_transitive(&two_markets(), 500, 0, &events);
    assert_eq!(actions[9], Action::Abort(Defect::ArithmeticUnderflow));
}

#[test]
fn transitive_swap_rejects_an_event_out_of_turn() {
    let (state, _) = swap_transitive(&two_markets(), 500, 0);
    let (state, action) = state.resume(Event::Transferred);
    assert_eq!(action, Action::Abort(Defect::UnexpectedEvent));
    assert_eq!(state.stage, TransitiveStage::Done);
}

#[test]
fn lot_size_of_one_leg_does_not_reach_the_other() {
    let actions = run_transitive(&two_markets(), 500, 65, &two_legs(1000, 980, 70));
    match (actions[2], actions[7]) {
        (Action::SendTake(sell), Action::SendTake(buy)) => {
            assert_eq!(sell.order.max_base_qty, 5);
            assert_eq!(sell.order.min_quote_qty, 0);
            assert_eq!(buy.order.min_base_qty, 6);
        },
        other => panic!("expected two orders, got {:?}", other),
    }
}
