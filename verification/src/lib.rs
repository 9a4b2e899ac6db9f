//! The receiving side of a cross-chain bridge.
//!
//! A relay delivers a message from another chain, with or without tokens.
//! The receiver establishes that the relay may deliver for that chain,
//! classifies the message, prepares the forwarding of the tokens under its
//! delegated authority, and records the message. It decides and does not act:
//! every operation takes the accounts of the call as plain values and hands
//! back what the host has to do, so that a call either takes effect as a
//! whole or not at all.

pub mod address;
pub mod constants;
pub mod context;
pub mod error;
pub mod events;
pub mod instructions;
pub mod pda;
pub mod price_feed;
pub mod state;
pub mod transfer;

use vstd::prelude::*;
use crate::address::Address;
use crate::constants::{TOKEN_2022_PROGRAM_ID, TOKEN_PROGRAM_ID};
use crate::context::{CcipReceive, CloseStorage, GetLatestMessage, Initialize, WithdrawTokens};
use crate::error::CCIPReceiverError;
use crate::events::ReceiverInitialized;
use crate::instructions::ccip_receive::{handled, ReceiveOutcome};
use crate::instructions::initialize::fresh_storage;
use crate::instructions::withdraw_tokens::withdrawal_accounts;
use crate::state::{Any2SVMMessage, BaseState, ReceivedMessage};
use crate::transfer::{delegated_transfer_request, is_token_program, TransferRequest};

verus! {

/// Size in bytes of a token account, under either token program.
pub const TOKEN_ACCOUNT_SPACE: usize = 165;

/// Reads `TokenAccount::LEN` of `anchor_spl`, the packed length of a token
/// account of the SPL Token program.
///
/// The contract claims that it is 165.
#[verifier::external_body]
fn token_account_len() -> (r: usize)
    ensures
        r == 165,
{
    anchor_spl::token::TokenAccount::LEN
}

/// Decides whether `program_id` is a token program that the receiver works
/// with: the SPL Token program or the Token-2022 program.
pub fn is_supported_token_program(program_id: &Address) -> (r: bool)
    ensures
        r == is_token_program(*program_id),
{
    *program_id == Address::new(TOKEN_PROGRAM_ID) || *program_id == Address::new(
        TOKEN_2022_PROGRAM_ID,
    )
}

/// The size in bytes of a token account of the token program `program_id`.
/// The base size is the same under both token programs.
pub fn get_token_account_space(program_id: &Address) -> (r: usize)
    ensures
        r == TOKEN_ACCOUNT_SPACE,
{
    if *program_id == Address::new(TOKEN_2022_PROGRAM_ID) {
        165
    } else {
        token_account_len()
    }
}

/// Initializes the receiver for the router `router`, at the time `now`.
///
/// The payer must have signed; then the payer becomes the owner, the router
/// is registered and the record is emptied. Otherwise nothing changes.
pub fn initialize(ctx: &mut Initialize, router: Address, now: i64) -> (r: Result<
    ReceiverInitialized,
    CCIPReceiverError,
>)
    ensures
        !old(ctx).payer.is_signer ==> r == Err::<ReceiverInitialized, CCIPReceiverError>(
            CCIPReceiverError::Unauthorized,
        ) && *final(ctx) == *old(ctx),
        old(ctx).payer.is_signer ==> {
            &&& r == Ok::<ReceiverInitialized, CCIPReceiverError>(
                ReceiverInitialized { owner: old(ctx).payer.key, router },
            )
            &&& final(ctx).state == (BaseState { owner: old(ctx).payer.key, router })
            &&& final(ctx).messages_storage@ == fresh_storage(now)
            &&& final(ctx).payer == old(ctx).payer
        },
{
    match ctx.verify() {
        Ok(()) => {},
        Err(e) => {
            return Err(e);
        },
    }
    instructions::initialize::handler(ctx, router, now)
}

/// Receives the message that a relay delivers, at the time `now`.
///
/// The caller's three proofs of authorization are examined first. Where one
/// fails, the call fails with its error and changes nothing. Otherwise the
/// message is handled as [`instructions::ccip_receive::handler`] describes:
/// an accepted message is written into the record and counted, and a message
/// that is not accepted changes nothing.
pub fn ccip_receive(ctx: &mut CcipReceive, message: Any2SVMMessage, now: i64) -> (r: Result<
    ReceiveOutcome,
    CCIPReceiverError,
>)
    ensures
        match old(ctx).authorization(message.source_chain_selector) {
            Err(e) => r matches Err(f) && f == e && *final(ctx) == *old(ctx),
            Ok(()) => handled(*old(ctx), *final(ctx), message@, now, r),
        },
        r is Err ==> *final(ctx) == *old(ctx),
        r is Ok ==> final(ctx).messages_storage.message_count == old(
            ctx,
        ).messages_storage.message_count + 1,
        r is Ok ==> final(ctx).messages_storage@.wf(),
        r matches Ok(told) ==> (told.transfer is Some <==> message@.token_amount() != 0),
{
    match ctx.verify(message.source_chain_selector) {
        Ok(()) => {},
        Err(e) => {
            return Err(e);
        },
    }
    instructions::ccip_receive::handler(ctx, message, now)
}

/// Returns a copy of the message that was accepted last.
pub fn get_latest_message(ctx: &GetLatestMessage) -> (r: Result<
    ReceivedMessage,
    CCIPReceiverError,
>)
    ensures
        r matches Ok(message) && message@ == ctx.messages_storage.latest_message@,
{
    instructions::get_latest_message::get_latest_message_handler(ctx)
}

/// Prepares the withdrawal of `amount` units of a token with `decimals`
/// decimals from a custody account.
///
/// The withdrawal is for the owner of the receiver alone, and the accounts
/// must fit each other as [`WithdrawTokens::verdict`] says. Then the request
/// moves the tokens from the custody account to the destination under the
/// delegated authority.
pub fn withdraw_tokens(ctx: &WithdrawTokens, amount: u64, decimals: u8) -> (r: Result<
    TransferRequest,
    CCIPReceiverError,
>)
    ensures
        match ctx.authorization() {
            Err(e) => r matches Err(f) && f == e,
            Ok(()) => r matches Ok(request) && request@ == delegated_transfer_request(
                withdrawal_accounts(*ctx),
                amount,
                decimals,
            ),
        },
{
    match ctx.verify() {
        Ok(()) => {},
        Err(e) => {
            return Err(e);
        },
    }
    instructions::withdraw_tokens::handler(ctx, amount, decimals)
}

/// Decides whether the caller may close the storage of the receiver: the
/// owner may, and nobody else. The closing itself is the host's.
pub fn close_storage(ctx: &CloseStorage) -> (r: Result<(), CCIPReceiverError>)
    ensures
        r == ctx.authorization(),
{
    ctx.verify()
}

} // verus!
