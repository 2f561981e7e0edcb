use dexaggregator::accounts::{MarketAccounts, OrderbookClient, TokenWallet};
use dexaggregator::address::Address;
use dexaggregator::dex::{send_take, SendTake};
use dexaggregator::error::{Defect, ErrorCode};
use dexaggregator::fees::{fee_amount, net_amount};
use dexaggregator::host::{Amounts, BalanceSnapshot, Balances};
use dexaggregator::market::{ask, bid, coin_lots, MarketDescriptor, OrderParameters, Side};
use dexaggregator::safety::apply_safety_checks;

fn key(tag: u8) -> Address {
    Address::new([tag; 32])
}

fn client() -> OrderbookClient {
    OrderbookClient {
        market: MarketAccounts {
            market: key(1),
            request_queue: key(2),
            event_queue: key(3),
            market_bids: key(4),
            market_asks: key(5),
            coin_vault: key(6),
            pc_vault: key(7),
            vault_signer: key(8),
            coin_wallet: TokenWallet { key: key(9), mint: key(10) },
        },
        wallet_owner: key(11),
        pc_wallet: key(12),
        dex_program: key(13),
        token_program: key(14),
    }
}

fn expected_accounts() -> SendTake {
    SendTake {
        market: key(1),
        request_queue: key(2),
        event_queue: key(3),
        market_bids: key(4),
        market_asks: key(5),
        coin_wallet: key(9),
        pc_wallet: key(12),
        wallet_owner: key(11),
        coin_vault: key(6),
        pc_vault: key(7),
        token_program: key(14),
        vault_signer: key(8),
    }
}

#[test]
fn fee_is_one_percent_rounded_down() {
    assert_eq!(fee_amount(1000), 10);
    assert_eq!(fee_amount(1099), 10);
    assert_eq!(fee_amount(99), 0);
    assert_eq!(fee_amount(100), 1);
    assert_eq!(fee_amount(0), 0);
}

#[test]
fn net_is_ninety_nine_percent_rounded_down() {
    assert_eq!(net_amount(1000), 990);
    assert_eq!(net_amount(150), 148);
    assert_eq!(net_amount(1), 0);
    assert_eq!(net_amount(2), 1);
    assert_eq!(net_amount(0), 0);
}

#[test]
fn fee_and_net_take_the_largest_amount() {
    assert_eq!(fee_amount(u64::MAX), 184_467_440_737_095_516);
    assert_eq!(net_amount(u64::MAX), 18_262_276_632_972_456_098);
    assert!(fee_amount(u64::MAX) + net_amount(u64::MAX) <= u64::MAX);
    assert!(fee_amount(u64::MAX) + net_amount(u64::MAX) >= u64::MAX - 1);
}

#[test]
fn fee_and_net_lose_at_most_one_unit() {
    for amount in [0u64, 1, 2, 50, 99, 100, 101, 150, 999, 1000, 1001, 123_456_789] {
        let sum = fee_amount(amount) + net_amount(amount);
        assert!(sum <= amount);
        assert!(sum + 1 >= amount);
    }
}

#[test]
fn lots_round_down() {
    let market = MarketDescriptor { lot_size: 100 };
    assert_eq!(coin_lots(&market, 500), 5);
    assert_eq!(coin_lots(&market, 599), 5);
    assert_eq!(coin_lots(&market, 99), 0);
    assert_eq!(coin_lots(&market, 0), 0);
    assert_eq!(coin_lots(&MarketDescriptor { lot_size: 1 }, u64::MAX), u64::MAX);
}

#[test]
fn bid_opens_price_and_base_quantity() {
    let order = bid(990, 250, &MarketDescriptor { lot_size: 100 });
    assert_eq!(
        order,
        OrderParameters {
            side: Side::Bid,
            limit_price: u64::MAX,
            max_base_qty: u64::MAX,
            max_quote_qty_incl_fees: 990,
            min_base_qty: 2,
            min_quote_qty: 0,
            iteration_limit: 65535,
        }
    );
    assert!(order.is_submittable());
}

#[test]
fn bid_minimum_is_exact_to_one_lot() {
    let market = MarketDescriptor { lot_size: 100 };
    assert_eq!(bid(1, 199, &market).min_base_qty, 1);
    assert_eq!(bid(1, 200, &market).min_base_qty, 2);
    assert_eq!(bid(1, 99, &market).min_base_qty, 0);
}

#[test]
fn bid_without_input_is_not_submittable() {
    let order = bid(0, 10, &MarketDescriptor { lot_size: 1 });
    assert_eq!(order.max_quote_qty_incl_fees, 0);
    assert!(!order.is_submittable());
}

#[test]
fn ask_quantizes_its_input() {
    let order = ask(500, 77, &MarketDescriptor { lot_size: 100 });
    assert_eq!(
        order,
        OrderParameters {
            side: Side::Ask,
            limit_price: 1,
            max_base_qty: 5,
            max_quote_qty_incl_fees: u64::MAX,
            min_base_qty: 5,
            min_quote_qty: 77,
            iteration_limit: 65535,
        }
    );
    assert!(order.is_submittable());
    assert_eq!(ask(599, 0, &MarketDescriptor { lot_size: 100 }).max_base_qty, 5);
}

#[test]
fn ask_below_one_lot_quantizes_to_zero_and_is_refused() {
    let market = MarketDescriptor { lot_size: 100 };
    let order = ask(99, 0, &market);
    assert_eq!(order.max_base_qty, 0);
    assert_eq!(order.min_base_qty, 0);
    assert!(!order.is_submittable());
    assert_eq!(client().ask(99, 0, &market), Err(Defect::ZeroOrderQuantity));
    assert!(client().ask(100, 0, &market).is_ok());
}

#[test]
fn client_bid_names_the_markets_accounts() {
    let take = client().bid(990, 250, &MarketDescriptor { lot_size: 100 }).unwrap();
    assert_eq!(take.dex_program, key(13));
    assert_eq!(take.accounts, expected_accounts());
    assert_eq!(take.referral, None);
    assert_eq!(take.order, bid(990, 250, &MarketDescriptor { lot_size: 100 }));
}

#[test]
fn client_ask_names_the_markets_accounts() {
    let take = client().ask(500, 77, &MarketDescriptor { lot_size: 100 }).unwrap();
    assert_eq!(take.dex_program, key(13));
    assert_eq!(take.accounts, expected_accounts());
    assert_eq!(take.referral, None);
    assert_eq!(take.order, ask(500, 77, &MarketDescriptor { lot_size: 100 }));
}

#[test]
fn client_refuses_a_market_without_lot_size() {
    let market = MarketDescriptor { lot_size: 0 };
    assert_eq!(client().bid(990, 0, &market), Err(Defect::ZeroLotSize));
    assert_eq!(client().ask(500, 0, &market), Err(Defect::ZeroLotSize));
}

#[test]
fn client_refuses_a_bid_without_input() {
    let market = MarketDescriptor { lot_size: 10 };
    assert_eq!(client().bid(0, 0, &market), Err(Defect::ZeroOrderQuantity));
}

#[test]
fn send_take_cpi_fixes_the_iteration_budget() {
    let take = client().send_take_cpi(Side::Ask, 1, 5, u64::MAX, 5, 77).unwrap();
    assert_eq!(take.order.iteration_limit, 65535);
    assert_eq!(take.order.side, Side::Ask);
    assert_eq!(take.order.limit_price, 1);
    assert_eq!(take.order.max_base_qty, 5);
    assert_eq!(take.order.max_quote_qty_incl_fees, u64::MAX);
    assert_eq!(take.order.min_base_qty, 5);
    assert_eq!(take.order.min_quote_qty, 77);
    assert_eq!(take.accounts, expected_accounts());
}

#[test]
fn send_take_cpi_refuses_each_zero() {
    assert_eq!(client().send_take_cpi(Side::Bid, 0, 1, 1, 0, 0), Err(Defect::ZeroOrderQuantity));
    assert_eq!(client().send_take_cpi(Side::Bid, 1, 0, 1, 0, 0), Err(Defect::ZeroOrderQuantity));
    assert_eq!(client().send_take_cpi(Side::Bid, 1, 1, 0, 0, 0), Err(Defect::ZeroOrderQuantity));
    assert!(client().send_take_cpi(Side::Bid, 1, 1, 1, 0, 0).is_ok());
}

#[test]
fn send_take_keeps_every_argument() {
    let take = send_take(key(20), expected_accounts(), Some(key(21)), Side::Bid, 3, 4, 5, 6, 7, 8);
    assert_eq!(take.dex_program, key(20));
    assert_eq!(take.accounts, expected_accounts());
    assert_eq!(take.referral, Some(key(21)));
    assert_eq!(
        take.order,
        OrderParameters {
            side: Side::Bid,
            limit_price: 3,
            max_base_qty: 4,
            max_quote_qty_incl_fees: 5,
            min_base_qty: 6,
            min_quote_qty: 7,
            iteration_limit: 8,
        }
    );
}

#[test]
fn safety_checks_pass_within_bounds() {
    assert_eq!(apply_safety_checks(100, 50, 100, 50), Ok(()));
    assert_eq!(apply_safety_checks(100, 0, 0, 1), Ok(()));
}

#[test]
fn safety_checks_reject_too_much_input() {
    assert_eq!(apply_safety_checks(100, 50, 101, 60), Err(ErrorCode::SwapTokenAmountExceedsMax));
}

#[test]
fn safety_checks_reject_too_little_output() {
    assert_eq!(apply_safety_checks(100, 50, 100, 49), Err(ErrorCode::SwapTokenAmountLessThanMin));
}

#[test]
fn safety_checks_reject_an_empty_swap_without_minimum() {
    assert_eq!(apply_safety_checks(100, 0, 0, 0), Err(ErrorCode::ZeroSwap));
    assert_eq!(apply_safety_checks(100, 0, 100, 0), Err(ErrorCode::ZeroSwap));
}

#[test]
fn safety_checks_report_the_first_broken_bound() {
    assert_eq!(apply_safety_checks(100, 50, 101, 0), Err(ErrorCode::SwapTokenAmountExceedsMax));
    assert_eq!(apply_safety_checks(100, 50, 100, 0), Err(ErrorCode::SwapTokenAmountLessThanMin));
}

#[test]
fn snapshot_measures_both_wallets() {
    let snapshot = BalanceSnapshot {
        before: Balances { source: 1000, destination: 20 },
        after: Balances { source: 400, destination: 75 },
    };
    assert_eq!(snapshot.measure(), Some(Amounts { from_amount: 600, to_amount: 55 }));
}

#[test]
fn snapshot_of_an_idle_trade_measures_nothing_moved() {
    let same = Balances { source: 7, destination: 9 };
    let snapshot = BalanceSnapshot { before: same, after: same };
    assert_eq!(snapshot.measure(), Some(Amounts { from_amount: 0, to_amount: 0 }));
}

#[test]
fn snapshot_against_the_trade_has_no_measure() {
    let grew = BalanceSnapshot {
        before: Balances { source: 10, destination: 0 },
        after: Balances { source: 11, destination: 5 },
    };
    assert_eq!(grew.measure(), None);
    let shrank = BalanceSnapshot {
        before: Balances { source: 10, destination: 5 },
        after: Balances { source: 9, destination: 4 },
    };
    assert_eq!(shrank.measure(), None);
}

#[test]
fn error_messages_name_the_broken_rule() {
    assert_eq!(
        ErrorCode::SwapTokensCannotMatch.message(),
        "The tokens being swapped must have different mints"
    );
    assert_eq!(
        ErrorCode::SwapTokenAmountExceedsMax.message(),
        "The token input is greater than the max amount input"
    );
    assert_eq!(
        ErrorCode::SwapTokenAmountLessThanMin.message(),
        "The token output is less than the min amount output"
    );
    assert_eq!(ErrorCode::ZeroSwap.message(), "No token is received from the swap");
    assert_eq!(ErrorCode::Unauthorized.message(), "You are not owner of this program");
}

#[test]
fn addresses_compare_byte_for_byte() {
    let mut bytes = [7u8; 32];
    let a = Address::new(bytes);
    assert!(a == Address::new([7u8; 32]));
    assert_eq!(a.to_bytes(), [7u8; 32]);
    bytes[31] = 8;
    assert!(a != Address::new(bytes));
    bytes[31] = 7;
    bytes[0] = 6;
    assert!(a != Address::new(bytes));
}
