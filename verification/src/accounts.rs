//! The accounts an operation works on, named by their addresses.
//!
//! The host resolves every handle before it starts an operation and passes
//! the addresses here, together with the one thing the swap rules read from a
//! token wallet up front: the asset it holds. Balances change while an
//! operation runs, so they are not part of these records; the host reports
//! them when it is asked to.

use crate::address::Address;
use vstd::prelude::*;

verus! {

/// A token wallet: where it is, and which asset it holds.
#[derive(Clone, Copy, Debug, PartialEq, Eq)]
pub struct TokenWallet {
    pub key: Address,
    /// The identity of the asset in the wallet.
    pub mint: Address,
}

/// The accounts of one market that an order touches, without the accounts
/// shared by all markets (programs, the owner, the price wallet).
#[derive(Clone, Copy, Debug, PartialEq, Eq)]
pub struct MarketAccounts {
    pub market: Address,
    pub request_queue: Address,
    pub event_queue: Address,
    pub market_bids: Address,
    pub market_asks: Address,
    /// The exchange's vault for the base currency.
    pub coin_vault: Address,
    /// The exchange's vault for the price currency.
    pub pc_vault: Address,
    /// The derived owner of both vaults.
    pub vault_signer: Address,
    /// The user's wallet for the base currency.
    pub coin_wallet: TokenWallet,
}

/// The accounts of a swap on a single market.
#[derive(Clone, Copy, Debug, PartialEq, Eq)]
pub struct Swap {
    pub market: MarketAccounts,
    /// The user who swaps and signs.
    pub wallet_owner: Address,
    /// The mint of the treasury's fee wallet.
    pub mint_a: Address,
    /// The derived authority over the treasury.
    pub treasury: Address,
    /// The treasury's wallet, which collects the fees.
    pub treasury_usdc: Address,
    /// The user's wallet for the price currency.
    pub pc_wallet: TokenWallet,
    pub system_program: Address,
    pub associated_token_program: Address,
    pub dex_program: Address,
    pub token_program: Address,
}

/// The accounts of a swap from one base currency to another across two
/// markets priced in the same currency.
#[derive(Clone, Copy, Debug, PartialEq, Eq)]
pub struct SwapTransitive {
    /// The market on which the input asset is sold.
    pub from: MarketAccounts,
    /// The market on which the output asset is bought.
    pub to: MarketAccounts,
    pub wallet_owner: Address,
    /// The user's wallet for the price currency both markets share. Which
    /// asset it holds is taken on trust.
    pub pc_wallet: Address,
    pub treasury: Address,
    pub treasury_usdc: Address,
    pub dex_program: Address,
    pub token_program: Address,
}

/// Everything needed to place orders on one market for one user.
#[derive(Clone, Copy, Debug, PartialEq, Eq)]
pub struct OrderbookClient {
    pub market: MarketAccounts,
    pub wallet_owner: Address,
    pub pc_wallet: Address,
    pub dex_program: Address,
    pub token_program: Address,
}

impl Swap {
    /// The client of the swap's market.
    pub open spec fn orderbook(&self) -> OrderbookClient {
        OrderbookClient {
            market: self.market,
            wallet_owner: self.wallet_owner,
            pc_wallet: self.pc_wallet.key,
            dex_program: self.dex_program,
            token_program: self.token_program,
        }
    }
}

impl From<&Swap> for OrderbookClient {
    /// The client for the market of a single-market swap.
    fn from(accounts: &Swap) -> (client: OrderbookClient) {
        OrderbookClient {
            market: accounts.market,
            wallet_owner: accounts.wallet_owner,
            pc_wallet: accounts.pc_wallet.key,
            dex_program: accounts.dex_program,
            token_program: accounts.token_program,
        }
    }
}

impl vstd::std_specs::convert::FromSpecImpl<&Swap> for OrderbookClient {
    open spec fn obeys_from_spec() -> bool {
        true
    }

    open spec fn from_spec(accounts: &Swap) -> OrderbookClient {
        accounts.orderbook()
    }
}

impl SwapTransitive {
    /// The client of the market a transitive swap sells on.
    pub open spec fn orderbook_from_spec(&self) -> OrderbookClient {
        OrderbookClient {
            market: self.from,
            wallet_owner: self.wallet_owner,
            pc_wallet: self.pc_wallet,
            dex_program: self.dex_program,
            token_program: self.token_program,
        }
    }

    /// The client of the market a transitive swap buys on.
    pub open spec fn orderbook_to_spec(&self) -> OrderbookClient {
        OrderbookClient {
            market: self.to,
            wallet_owner: self.wallet_owner,
            pc_wallet: self.pc_wallet,
            dex_program: self.dex_program,
            token_program: self.token_program,
        }
    }

    /// Builds the client for the first leg: the market of the input asset.
    pub fn orderbook_from(&self) -> (client: OrderbookClient)
        ensures
            client == self.orderbook_from_spec(),
    {
        OrderbookClient {
            market: self.from,
            wallet_owner: self.wallet_owner,
            pc_wallet: self.pc_wallet,
            dex_program: self.dex_program,
            token_program: self.token_program,
        }
    }

    /// Builds the client for the second leg: the market of the output asset.
    pub fn orderbook_to(&self) -> (client: OrderbookClient)
        ensures
            client == self.orderbook_to_spec(),
    {
        OrderbookClient {
            market: self.to,
            wallet_owner: self.wallet_owner,
            pc_wallet: self.pc_wallet,
            dex_program: self.dex_program,
            token_program: self.token_program,
        }
    }
}

} // verus!
