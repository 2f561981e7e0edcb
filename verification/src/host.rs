//! The conversation between an operation and the host that runs it.
//!
//! An operation never touches the ledger. It hands the host one `Action` at a
//! time; the host performs it and resumes the operation with the matching
//! `Event`. If the host cannot perform an action it abandons the operation
//! with its own error and everything done so far is rolled back, so there is
//! no event for failure.

use crate::address::Address;
use crate::dex::TakeOrder;
use crate::error::{Defect, ErrorCode};
use crate::market::MarketDescriptor;
use vstd::prelude::*;

verus! {

/// A token transfer for the transfer service to carry out.
#[derive(Clone, Copy, Debug, PartialEq, Eq)]
pub struct Transfer {
    pub from: Address,
    pub to: Address,
    pub authority: Address,
    pub amount: u64,
    /// Whether the program signs for the authority with the treasury's seeds,
    /// rather than relying on the caller's signature.
    pub program_signed: bool,
}

/// The balances of the two wallets of a leg at one moment.
#[derive(Clone, Copy, Debug, PartialEq, Eq, Structural)]
pub struct Balances {
    /// The wallet the trade draws on.
    pub source: u64,
    /// The wallet the trade pays into.
    pub destination: u64,
}

/// The balances of a leg before and after its order.
#[derive(Clone, Copy, Debug, PartialEq, Eq, Structural)]
pub struct BalanceSnapshot {
    pub before: Balances,
    pub after: Balances,
}

/// What a leg moved.
#[derive(Clone, Copy, Debug, PartialEq, Eq, Structural)]
pub struct Amounts {
    /// What left the source wallet.
    pub from_amount: u64,
    /// What arrived in the destination wallet.
    pub to_amount: u64,
}

impl BalanceSnapshot {
    /// Both wallets moved in the direction of the trade, or not at all.
    pub open spec fn consistent(&self) -> bool {
        self.after.source <= self.before.source && self.before.destination
            <= self.after.destination
    }

    /// The amounts between the two readings.
    pub open spec fn amounts(&self) -> Option<Amounts> {
        if self.consistent() {
            Some(
                Amounts {
                    from_amount: (self.before.source - self.after.source) as u64,
                    to_amount: (self.after.destination - self.before.destination) as u64,
                },
            )
        } else {
            None
        }
    }

    /// Measures what the trade between the two readings moved. There is no
    /// measure if a wallet moved against the trade.
    pub fn measure(&self) -> (moved: Option<Amounts>)
        ensures
            moved == self.amounts(),
            moved is Some <==> self.consistent(),
            moved matches Some(m) ==> m.from_amount == self.before.source - self.after.source
                && m.to_amount == self.after.destination - self.before.destination,
    {
        let from_amount = self.before.source.checked_sub(self.after.source);
        let to_amount = self.after.destination.checked_sub(self.before.destination);
        match (from_amount, to_amount) {
            (Some(from_amount), Some(to_amount)) => Some(Amounts { from_amount, to_amount }),
            _ => None,
        }
    }
}

/// The account of a completed swap.
#[derive(Clone, Copy, Debug, PartialEq, Eq, Structural)]
pub struct Receipt {
    /// What left the input wallet through the trade.
    pub from_amount: u64,
    /// What the trade brought into the output wallet.
    pub to_amount: u64,
    /// What went to the treasury.
    pub fee: u64,
    /// For a transitive swap, the intermediary currency that the second leg
    /// could not spend and that stays in the caller's wallet.
    pub spill: Option<u64>,
}

/// What the host is to do next.
#[derive(Clone, Copy, Debug, PartialEq, Eq)]
pub enum Action {
    /// Carry out a token transfer, then report `Event::Transferred`.
    Transfer(Transfer),
    /// Read the balances of two wallets, then report them as
    /// `Event::Balances`.
    ReadBalances { source: Address, destination: Address },
    /// Read the state of a market, then report it as `Event::Market`.
    LoadMarket { market: Address },
    /// Submit a take order, then report `Event::OrderSent`.
    SendTake(TakeOrder),
    /// The operation is complete: commit.
    Succeed(Receipt),
    /// The operation failed with a typed error: roll everything back.
    Fail(ErrorCode),
    /// An invariant is broken: halt and roll everything back.
    Abort(Defect),
}

impl Action {
    /// The action ends the operation.
    pub open spec fn is_final(&self) -> bool {
        self is Succeed || self is Fail || self is Abort
    }

    /// Tells whether the action ends the operation.
    pub fn ends_operation(&self) -> (last: bool)
        ensures
            last == self.is_final(),
    {
        match self {
            Action::Succeed(_) | Action::Fail(_) | Action::Abort(_) => true,
            _ => false,
        }
    }
}

/// What the host observed when it carried out the last action.
#[derive(Clone, Copy, Debug, PartialEq, Eq, Structural)]
pub enum Event {
    /// The transfer went through.
    Transferred,
    /// The balances that were asked for.
    Balances(Balances),
    /// The market that was asked for.
    Market(MarketDescriptor),
    /// The exchange accepted and executed the order.
    OrderSent,
}

} // verus!
