//! How an operation can end without success.

use vstd::prelude::*;

verus! {

/// The typed errors an operation reports to its caller.
#[derive(Clone, Copy, Debug, PartialEq, Eq, Structural)]
pub enum ErrorCode {
    /// The two wallets of a leg hold the same asset.
    SwapTokensCannotMatch,
    /// More of the input asset left the wallet than the caller allowed.
    SwapTokenAmountExceedsMax,
    /// Less of the output asset arrived than the caller asked for.
    SwapTokenAmountLessThanMin,
    /// Nothing arrived at all.
    ZeroSwap,
    /// The signer of an administrative operation is not the owner.
    Unauthorized,
}

/// Broken invariants. They are not errors a caller can recover from: the host
/// halts the whole unit of work when it is handed one.
#[derive(Clone, Copy, Debug, PartialEq, Eq, Structural)]
pub enum Defect {
    /// A market reported a lot size of zero.
    ZeroLotSize,
    /// The limit price or one of the two maximum quantities of an order is zero.
    ZeroOrderQuantity,
    /// A balance moved against the direction of the trade, or an order spent
    /// more of the intermediary asset than it was capped at.
    ArithmeticUnderflow,
    /// The host resumed an operation with an observation it was not waiting for.
    UnexpectedEvent,
}

impl ErrorCode {
    /// The message shown to the caller for this error.
    pub fn message(&self) -> (text: String)
        ensures
            text@ == self.message_spec(),
    {
        match self {
            ErrorCode::SwapTokensCannotMatch => {
                "The tokens being swapped must have different mints".to_owned()
            },
            ErrorCode::SwapTokenAmountExceedsMax => {
                "The token input is greater than the max amount input".to_owned()
            },
            ErrorCode::SwapTokenAmountLessThanMin => {
                "The token output is less than the min amount output".to_owned()
            },
            ErrorCode::ZeroSwap => "No token is received from the swap".to_owned(),
            ErrorCode::Unauthorized => "You are not owner of this program".to_owned(),
        }
    }

    /// The text of `message`, as a sequence of characters.
    pub open spec fn message_spec(&self) -> Seq<char> {
        match self {
            ErrorCode::SwapTokensCannotMatch => {
                "The tokens being swapped must have different mints"@
            },
            ErrorCode::SwapTokenAmountExceedsMax => {
                "The token input is greater than the max amount input"@
            },
            ErrorCode::SwapTokenAmountLessThanMin => {
                "The token output is less than the min amount output"@
            },
            ErrorCode::ZeroSwap => "No token is received from the swap"@,
            ErrorCode::Unauthorized => "You are not owner of this program"@,
        }
    }
}

} // verus!
