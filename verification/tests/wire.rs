use dexaggregator::address::Address;
use dexaggregator::dex::{send_take, AccountMeta, SendTake};
use dexaggregator::market::Side;
use serum_dex::instruction::{MarketInstruction, SendTakeInstruction};
use std::num::NonZeroU64;

fn account(tag: u8) -> Address {
    Address::new([tag; 32])
}

fn take_accounts() -> SendTake {
    SendTake {
        market: account(1),
        request_queue: account(2),
        event_queue: account(3),
        market_bids: account(4),
        market_asks: account(5),
        coin_wallet: account(6),
        pc_wallet: account(7),
        wallet_owner: account(8),
        coin_vault: account(9),
        pc_vault: account(10),
        token_program: account(11),
        vault_signer: account(12),
    }
}

fn writable(tag: u8) -> AccountMeta {
    AccountMeta { pubkey: account(tag), is_signer: false, is_writable: true }
}

fn readonly(tag: u8) -> AccountMeta {
    AccountMeta { pubkey: account(tag), is_signer: false, is_writable: false }
}

#[test]
fn ask_packs_to_the_exchange_layout() {
    let take = send_take(account(20), take_accounts(), None, Side::Ask, 1, 5, u64::MAX, 5, 77, 65535);
    let mut expected: Vec<u8> = vec![0];
    expected.extend_from_slice(&[13, 0, 0, 0]);
    expected.extend_from_slice(&[1, 0, 0, 0]);
    expected.extend_from_slice(&[1, 0, 0, 0, 0, 0, 0, 0]);
    expected.extend_from_slice(&[5, 0, 0, 0, 0, 0, 0, 0]);
    expected.extend_from_slice(&[0xff; 8]);
    expected.extend_from_slice(&[5, 0, 0, 0, 0, 0, 0, 0]);
    expected.extend_from_slice(&[77, 0, 0, 0, 0, 0, 0, 0]);
    expected.extend_from_slice(&[0xff, 0xff]);
    assert_eq!(expected.len(), 51);
    assert_eq!(take.data(), expected);
}

#[test]
fn bid_packs_to_the_exchange_layout() {
    let take = send_take(
        account(20),
        take_accounts(),
        None,
        Side::Bid,
        u64::MAX,
        u64::MAX,
        0x0102_0304_0506_0708,
        9,
        0,
        0x1234,
    );
    let mut expected: Vec<u8> = vec![0];
    expected.extend_from_slice(&[13, 0, 0, 0]);
    expected.extend_from_slice(&[0, 0, 0, 0]);
    expected.extend_from_slice(&[0xff; 8]);
    expected.extend_from_slice(&[0xff; 8]);
    expected.extend_from_slice(&[8, 7, 6, 5, 4, 3, 2, 1]);
    expected.extend_from_slice(&[9, 0, 0, 0, 0, 0, 0, 0]);
    expected.extend_from_slice(&[0; 8]);
    expected.extend_from_slice(&[0x34, 0x12]);
    assert_eq!(take.data(), expected);
}

#[test]
fn exchange_unpacks_what_the_order_packed() {
    let take = send_take(account(20), take_accounts(), None, Side::Bid, 3, 4, 990, 6, 7, 65535);
    let unpacked = MarketInstruction::unpack(&take.data());
    assert_eq!(
        unpacked,
        Some(MarketInstruction::SendTake(SendTakeInstruction {
            side: serum_dex::matching::Side::Bid,
            limit_price: NonZeroU64::new(3).unwrap(),
            max_coin_qty: NonZeroU64::new(4).unwrap(),
            max_native_pc_qty_including_fees: NonZeroU64::new(990).unwrap(),
            min_coin_qty: 6,
            min_native_pc_qty: 7,
            limit: 65535,
        }))
    );
    let take = send_take(account(20), take_accounts(), None, Side::Ask, 1, 5, u64::MAX, 5, 0, 1);
    match MarketInstruction::unpack(&take.data()) {
        Some(MarketInstruction::SendTake(inner)) => {
            assert_eq!(inner.side, serum_dex::matching::Side::Ask);
            assert_eq!(inner.max_coin_qty.get(), 5);
            assert_eq!(inner.limit, 1);
        },
        other => panic!("expected a take order, got {:?}", other),
    }
}

#[test]
fn instruction_names_the_accounts_in_the_exchanges_order() {
    let take = send_take(account(20), take_accounts(), None, Side::Ask, 1, 5, u64::MAX, 5, 77, 65535);
    let ix = take.instruction(account(30));
    assert_eq!(ix.program_id, account(30));
    assert_eq!(ix.data, take.data());
    assert_eq!(
        ix.accounts,
        vec![
            writable(1),
            writable(2),
            writable(3),
            writable(4),
            writable(5),
            writable(6),
            writable(7),
            AccountMeta { pubkey: account(8), is_signer: true, is_writable: false },
            writable(9),
            writable(10),
            readonly(11),
            readonly(12),
        ]
    );
}

#[test]
fn instruction_puts_the_referral_account_last() {
    let take = send_take(
        account(20),
        take_accounts(),
        Some(account(40)),
        Side::Ask,
        1,
        5,
        u64::MAX,
        5,
        77,
        65535,
    );
    let ix = take.instruction(account(30));
    assert_eq!(ix.accounts.len(), 13);
    assert_eq!(ix.accounts[11], readonly(12));
    assert_eq!(ix.accounts[12], readonly(40));
}
