//! Withdrawing tokens from a custody account.

use vstd::prelude::*;
use crate::context::WithdrawTokens;
use crate::error::CCIPReceiverError;
use crate::transfer::{
    delegated_transfer, delegated_transfer_request, TransferAccounts, TransferRequest,
};

verus! {

/// The roles that the accounts of a withdrawal play in the transfer.
pub open spec fn withdrawal_accounts(ctx: WithdrawTokens) -> TransferAccounts {
    TransferAccounts {
        mint: ctx.mint.key,
        source: ctx.program_token_account.key,
        authority: ctx.token_admin.key,
        bump: ctx.bumps.token_admin,
        recipient: ctx.to_token_account.key,
        token_program: ctx.token_program.key,
    }
}

/// Prepares the withdrawal of `amount` units, for a token with `decimals`
/// decimals, by a caller who has been found authorized.
///
/// The request moves the tokens from the custody account to the destination
/// under the delegated authority. The number of decimals is the caller's:
/// the token program refuses the transfer where the mint declares another.
pub fn handler(ctx: &WithdrawTokens, amount: u64, decimals: u8) -> (r: Result<
    TransferRequest,
    CCIPReceiverError,
>)
    ensures
        r matches Ok(request) && request@ == delegated_transfer_request(
            withdrawal_accounts(*ctx),
            amount,
            decimals,
        ),
{
    let accounts = TransferAccounts {
        mint: ctx.mint.key,
        source: ctx.program_token_account.key,
        authority: ctx.token_admin.key,
        bump: ctx.bumps.token_admin,
        recipient: ctx.to_token_account.key,
        token_program: ctx.token_program.key,
    };
    Ok(delegated_transfer(&accounts, amount, decimals))
}

} // verus!
