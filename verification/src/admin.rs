//! Administration of the program: who owns it, and the owner's withdrawal of
//! the fees the treasury has collected.

use crate::address::Address;
use crate::error::ErrorCode;
use crate::host::Transfer;
use vstd::prelude::*;

verus! {

/// The seed from which the treasury's authority is derived. Only the program
/// can sign for an address derived from it.
pub const TREASURY_SEED: &'static str = "treasury";

/// The persistent state of the program.
#[derive(Clone, Copy, Debug, PartialEq, Eq)]
pub struct State {
    /// Who may withdraw from the treasury.
    pub owner: Address,
}

/// The accounts of `initialize`.
#[derive(Clone, Copy, Debug, PartialEq, Eq)]
pub struct Initialize {
    /// The state being created.
    pub state: State,
    /// Who pays for its creation.
    pub user: Address,
    pub system_program: Address,
}

/// The treasury's wallet as read at the start of an operation.
#[derive(Clone, Copy, Debug, PartialEq, Eq)]
pub struct TreasuryAccount {
    pub key: Address,
    /// The fees collected so far.
    pub amount: u64,
}

/// The accounts of `withdraw`.
#[derive(Clone, Copy, Debug, PartialEq, Eq)]
pub struct Withdraw {
    pub state: State,
    /// The derived authority over the treasury.
    pub treasury: Address,
    pub treasury_usdc: TreasuryAccount,
    /// The signer, who receives the funds.
    pub owner: Address,
    pub token_program: Address,
}

impl Withdraw {
    /// What a withdrawal comes to: the transfer of everything the treasury
    /// holds to the signer, signed by the program for the treasury, if the
    /// signer is the owner on record; else `Unauthorized`.
    pub open spec fn withdrawal(&self) -> Result<Transfer, ErrorCode> {
        if self.owner == self.state.owner {
            Ok(
                Transfer {
                    from: self.treasury,
                    to: self.owner,
                    authority: self.treasury,
                    amount: self.treasury_usdc.amount,
                    program_signed: true,
                },
            )
        } else {
            Err(ErrorCode::Unauthorized)
        }
    }
}

/// Records `owner` as the owner of the program.
pub fn initialize(ctx: &mut Initialize, owner: Address) -> (done: Result<(), ErrorCode>)
    ensures
        done is Ok,
        *final(ctx) == (Initialize { state: State { owner }, ..*old(ctx) }),
{
    ctx.state.owner = owner;
    Ok(())
}

/// Decides a withdrawal from the treasury. Returns the transfer for the host
/// to carry out, or `Unauthorized` if the signer is not the program's owner.
pub fn withdraw(ctx: &Withdraw) -> (decided: Result<Transfer, ErrorCode>)
    ensures
        decided == ctx.withdrawal(),
        decided is Ok <==> ctx.owner == ctx.state.owner,
        decided is Err ==> decided == Err::<Transfer, ErrorCode>(ErrorCode::Unauthorized),
{
    // Only the program's owner may empty the treasury.
    if ctx.owner != ctx.state.owner {
        return Err(ErrorCode::Unauthorized);
    }
    Ok(
        Transfer {
            from: ctx.treasury,
            to: ctx.owner,
            authority: ctx.treasury,
            amount: ctx.treasury_usdc.amount,
            program_signed: true,
        },
    )
}

} // verus!
