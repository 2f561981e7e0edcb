//! The exchange's take order: an order that is matched at once against
//! resting liquidity and settles straight into the user's wallets.

use crate::address::Address;
use crate::market::{OrderParameters, Side};
use serum_dex::instruction::{MarketInstruction, SendTakeInstruction};
use std::num::NonZeroU64;
use vstd::bytes::{
    lemma_auto_spec_u16_to_from_le_bytes, lemma_auto_spec_u32_to_from_le_bytes,
    lemma_auto_spec_u64_to_from_le_bytes, spec_u16_to_le_bytes, spec_u32_to_le_bytes,
    spec_u64_to_le_bytes,
};
use vstd::prelude::*;

verus! {

/// The accounts a take order names, in the order the exchange expects them.
#[derive(Clone, Copy, Debug, PartialEq, Eq)]
pub struct SendTake {
    pub market: Address,
    pub request_queue: Address,
    pub event_queue: Address,
    pub market_bids: Address,
    pub market_asks: Address,
    pub coin_wallet: Address,
    pub pc_wallet: Address,
    pub wallet_owner: Address,
    pub coin_vault: Address,
    pub pc_vault: Address,
    pub token_program: Address,
    pub vault_signer: Address,
}

/// A take order ready for submission: where it goes, which accounts it
/// touches and what it asks for.
#[derive(Clone, Copy, Debug, PartialEq, Eq)]
pub struct TakeOrder {
    /// The exchange program that receives the order.
    pub dex_program: Address,
    pub accounts: SendTake,
    /// An optional trailing account that earns a fee discount or a referral.
    pub referral: Option<Address>,
    pub order: OrderParameters,
}

impl TakeOrder {
    /// The exchange's own precondition on an order holds.
    pub open spec fn wf(&self) -> bool {
        self.order.submittable()
    }
}

/// Assembles a take order for the exchange at `dex_program`.
///
/// The limit price and both maximum quantities must be positive: the
/// exchange takes no order without them.
pub fn send_take(
    dex_program: Address,
    accounts: SendTake,
    referral: Option<Address>,
    side: Side,
    limit_price: u64,
    max_coin_qty: u64,
    max_native_pc_qty_including_fees: u64,
    min_coin_qty: u64,
    min_native_pc_qty: u64,
    limit: u16,
) -> (take: TakeOrder)
    requires
        limit_price > 0,
        max_coin_qty > 0,
        max_native_pc_qty_including_fees > 0,
    ensures
        take.wf(),
        take == (TakeOrder {
            dex_program,
            accounts,
            referral,
            order: OrderParameters {
                side,
                limit_price,
                max_base_qty: max_coin_qty,
                max_quote_qty_incl_fees: max_native_pc_qty_including_fees,
                min_base_qty: min_coin_qty,
                min_quote_qty: min_native_pc_qty,
                iteration_limit: limit,
            },
        }),
{
    TakeOrder {
        dex_program,
        accounts,
        referral,
        order: OrderParameters {
            side,
            limit_price,
            max_base_qty: max_coin_qty,
            max_quote_qty_incl_fees: max_native_pc_qty_including_fees,
            min_base_qty: min_coin_qty,
            min_quote_qty: min_native_pc_qty,
            iteration_limit: limit,
        },
    }
}

/// An account as an instruction names it.
#[derive(Clone, Copy, Debug, PartialEq, Eq)]
pub struct AccountMeta {
    pub pubkey: Address,
    /// The account must have signed the transaction.
    pub is_signer: bool,
    /// The instruction may change the account.
    pub is_writable: bool,
}

/// An instruction for a program on the ledger, ready to be invoked.
#[derive(Debug, PartialEq, Eq)]
pub struct Instruction {
    pub program_id: Address,
    pub accounts: Vec<AccountMeta>,
    pub data: Vec<u8>,
}

/// The version byte that opens every instruction of the exchange.
pub const INSTRUCTION_VERSION: u8 = 0;

/// The tag of the take order among the exchange's instructions.
pub const SEND_TAKE_TAG: u32 = 13;

/// The length of a packed take order.
pub const SEND_TAKE_LEN: usize = 51;

/// An account the instruction may change.
pub open spec fn writable(pubkey: Address) -> AccountMeta {
    AccountMeta { pubkey, is_signer: false, is_writable: true }
}

/// An account the instruction only reads.
pub open spec fn readonly(pubkey: Address) -> AccountMeta {
    AccountMeta { pubkey, is_signer: false, is_writable: false }
}

/// The number the exchange's encoding gives a side.
pub open spec fn side_tag(side: Side) -> u32 {
    match side {
        Side::Bid => 0,
        Side::Ask => 1,
    }
}

/// The packed form of a take order: the version byte, the instruction's tag
/// and the side in four bytes each, the limit price and the four quantities in
/// eight bytes each and the iteration limit in two, all little-endian.
pub open spec fn send_take_data(order: OrderParameters) -> Seq<u8> {
    seq![INSTRUCTION_VERSION] + spec_u32_to_le_bytes(SEND_TAKE_TAG) + spec_u32_to_le_bytes(
        side_tag(order.side),
    ) + spec_u64_to_le_bytes(order.limit_price) + spec_u64_to_le_bytes(order.max_base_qty)
        + spec_u64_to_le_bytes(order.max_quote_qty_incl_fees) + spec_u64_to_le_bytes(
        order.min_base_qty,
    ) + spec_u64_to_le_bytes(order.min_quote_qty) + spec_u16_to_le_bytes(order.iteration_limit)
}

/// Packs a take order with `MarketInstruction::pack` of the exchange's own
/// crate, `serum_dex`.
///
/// The body is not verified; the contract is taken from the exchange's
/// source. `pack` serializes the pair of a zero version byte and the
/// instruction with fixed-width little-endian integers, the instruction's
/// variant and the side as 32-bit indices, and `unpack` reads a take order
/// back from exactly this layout under tag 13. The three fields that must be
/// positive are those the instruction holds as non-zero integers.
#[verifier::external_body]
fn pack_send_take(order: &OrderParameters) -> (data: Vec<u8>)
    requires
        order.submittable(),
    ensures
        data@ == send_take_data(*order),
{
    let side = match order.side {
        Side::Bid => serum_dex::matching::Side::Bid,
        Side::Ask => serum_dex::matching::Side::Ask,
    };
    MarketInstruction::SendTake(SendTakeInstruction {
        side,
        limit_price: NonZeroU64::new(order.limit_price).unwrap(),
        max_coin_qty: NonZeroU64::new(order.max_base_qty).unwrap(),
        max_native_pc_qty_including_fees: NonZeroU64::new(order.max_quote_qty_incl_fees).unwrap(),
        min_coin_qty: order.min_base_qty,
        min_native_pc_qty: order.min_quote_qty,
        limit: order.iteration_limit,
    }).pack()
}

impl TakeOrder {
    /// The accounts of the instruction, as the exchange expects them: the
    /// market, its queues and books, the two wallets, the owner as signer,
    /// the two vaults, the token program and the vault signer, then the
    /// referral account if there is one. All but the owner, the token
    /// program, the vault signer and the referral account are writable.
    pub open spec fn account_metas(&self) -> Seq<AccountMeta> {
        let fixed = seq![
            writable(self.accounts.market),
            writable(self.accounts.request_queue),
            writable(self.accounts.event_queue),
            writable(self.accounts.market_bids),
            writable(self.accounts.market_asks),
            writable(self.accounts.coin_wallet),
            writable(self.accounts.pc_wallet),
            AccountMeta { pubkey: self.accounts.wallet_owner, is_signer: true, is_writable: false },
            writable(self.accounts.coin_vault),
            writable(self.accounts.pc_vault),
            readonly(self.accounts.token_program),
            readonly(self.accounts.vault_signer),
        ];
        match self.referral {
            Some(key) => fixed.push(readonly(key)),
            None => fixed,
        }
    }

    /// Packs the order's parameters as the data of the exchange's
    /// instruction.
    pub fn data(&self) -> (data: Vec<u8>)
        requires
            self.wf(),
        ensures
            data@ == send_take_data(self.order),
            data@.len() == SEND_TAKE_LEN,
            data@[0] == INSTRUCTION_VERSION,
    {
        proof {
            lemma_send_take_data_len(self.order);
        }
        pack_send_take(&self.order)
    }

    /// Builds the instruction that submits the order to the exchange program
    /// `program_id`.
    pub fn instruction(&self, program_id: Address) -> (ix: Instruction)
        requires
            self.wf(),
        ensures
            ix.program_id == program_id,
            ix.accounts@ == self.account_metas(),
            ix.data@ == send_take_data(self.order),
            ix.accounts@.len() == (if self.referral is Some { 13int } else { 12int }),
            ix.data@.len() == SEND_TAKE_LEN,
    {
        let mut accounts: Vec<AccountMeta> = Vec::new();
        accounts.push(
            AccountMeta { pubkey: self.accounts.market, is_signer: false, is_writable: true },
        );
        accounts.push(
            AccountMeta {
                pubkey: self.accounts.request_queue,
                is_signer: false,
                is_writable: true,
            },
        );
        accounts.push(
            AccountMeta { pubkey: self.accounts.event_queue, is_signer: false, is_writable: true },
        );
        accounts.push(
            AccountMeta { pubkey: self.accounts.market_bids, is_signer: false, is_writable: true },
        );
        accounts.push(
            AccountMeta { pubkey: self.accounts.market_asks, is_signer: false, is_writable: true },
        );
        accounts.push(
            AccountMeta { pubkey: self.accounts.coin_wallet, is_signer: false, is_writable: true },
        );
        accounts.push(
            AccountMeta { pubkey: self.accounts.pc_wallet, is_signer: false, is_writable: true },
        );
        accounts.push(
            AccountMeta { pubkey: self.accounts.wallet_owner, is_signer: true, is_writable: false },
        );
        accounts.push(
            AccountMeta { pubkey: self.accounts.coin_vault, is_signer: false, is_writable: true },
        );
        accounts.push(
            AccountMeta { pubkey: self.accounts.pc_vault, is_signer: false, is_writable: true },
        );
        accounts.push(
            AccountMeta {
                pubkey: self.accounts.token_program,
                is_signer: false,
                is_writable: false,
            },
        );
        accounts.push(
            AccountMeta {
                pubkey: self.accounts.vault_signer,
                is_signer: false,
                is_writable: false,
            },
        );
        if let Some(key) = self.referral {
            accounts.push(AccountMeta { pubkey: key, is_signer: false, is_writable: false });
        }
        assert(accounts@ =~= self.account_metas());
        let data = self.data();
        Instruction { program_id, accounts, data }
    }
}

/// A packed take order is 51 bytes long and opens with the version byte.
pub proof fn lemma_send_take_data_len(order: OrderParameters)
    ensures
        send_take_data(order).len() == SEND_TAKE_LEN,
        send_take_data(order)[0] == INSTRUCTION_VERSION,
{
    lemma_auto_spec_u16_to_from_le_bytes();
    lemma_auto_spec_u32_to_from_le_bytes();
    lemma_auto_spec_u64_to_from_le_bytes();
}

} // verus!
