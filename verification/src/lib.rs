//! A swap router for a limit-order-book exchange.
//!
//! The crate turns a bounded swap intent into the exchange's take-order
//! parameters, measures what a trade did from wallet balances, skims the
//! protocol fee and enforces the caller's bounds afterwards. It performs no
//! I/O itself: every operation is a state machine that tells its host which
//! transfer, balance read, market read or order submission comes next and is
//! resumed with what the host observed.

pub mod accounts;
pub mod address;
pub mod admin;
pub mod dex;
pub mod error;
pub mod fees;
pub mod host;
pub mod market;
pub mod orderbook;
pub mod safety;
pub mod swap;
pub mod swap_run;
pub mod transitive;
pub mod transitive_run;

pub use accounts::{MarketAccounts, OrderbookClient, Swap, SwapTransitive, TokenWallet};
pub use address::Address;
pub use admin::{initialize, withdraw, Initialize, State, TreasuryAccount, Withdraw};
pub use dex::{send_take, SendTake, TakeOrder};
pub use error::{Defect, ErrorCode};
pub use host::{Action, Amounts, BalanceSnapshot, Balances, Event, Receipt, Transfer};
pub use market::{MarketDescriptor, OrderParameters, Side};
pub use swap::{swap, SwapStage, SwapState};
pub use transitive::{swap_transitive, TransitiveStage, TransitiveState};
