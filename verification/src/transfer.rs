//! Moving tokens out of a custody account under the delegated authority:
//! binding the accounts of a call to their roles, reading the mint's
//! precision, and building the instruction for the token program.

use vstd::prelude::*;
use vstd::bytes::spec_u64_to_le_bytes;
use anchor_lang::solana_program::program_error::ProgramError;
use anchor_lang::solana_program::program_pack::Pack;
use anchor_lang::solana_program::pubkey::Pubkey;
use anchor_spl::token_2022::spl_token_2022;
use crate::address::Address;
use crate::constants::{
    seed, token_2022_program_id, token_program_id, TOKEN_2022_PROGRAM_ID, TOKEN_ADMIN_SEED,
};
use crate::context::AccountHandle;
use crate::error::CCIPReceiverError;
use crate::pda::{bump_of, derived_view, derives, is_derived};

verus! {

/// Number of accounts that one token transfer needs: the mint, the custody
/// account, the delegated authority, the recipient account and the token
/// program.
pub const ROLES_PER_TRANSFER: usize = 5;

/// Length in bytes of the data of a mint account.
pub const MINT_LEN: usize = 82;

/// One account of an instruction, with what the instruction may do to it.
#[derive(Clone, Copy, Debug)]
pub struct AccountMeta {
    /// The address of the account.
    pub pubkey: Address,
    /// Whether the account must sign.
    pub is_signer: bool,
    /// Whether the instruction may change the account.
    pub is_writable: bool,
}

/// An instruction for another program.
#[derive(Debug)]
pub struct Instruction {
    /// The program that executes the instruction.
    pub program_id: Address,
    /// The accounts that the instruction works on.
    pub accounts: Vec<AccountMeta>,
    /// The instruction itself, in the encoding of the program.
    pub data: Vec<u8>,
}

/// The mathematical content of an [`Instruction`].
pub struct InstructionView {
    pub program_id: Address,
    pub accounts: Seq<AccountMeta>,
    pub data: Seq<u8>,
}

impl View for Instruction {
    type V = InstructionView;

    open spec fn view(&self) -> InstructionView {
        InstructionView {
            program_id: self.program_id,
            accounts: self.accounts@,
            data: self.data@,
        }
    }
}

/// Whether `id` is one of the two token programs.
pub open spec fn is_token_program(id: Address) -> bool {
    id == token_program_id() || id == token_2022_program_id()
}

/// The encoding of a checked transfer: the tag 12, the amount as eight
/// little-endian bytes, and the number of decimals.
pub open spec fn transfer_checked_data(amount: u64, decimals: u8) -> Seq<u8> {
    seq![12u8] + spec_u64_to_le_bytes(amount) + seq![decimals]
}

/// The accounts of a checked transfer: the source and the destination may
/// change, the mint is only read, and the authority signs.
pub open spec fn transfer_checked_accounts(
    source: Address,
    mint: Address,
    destination: Address,
    authority: Address,
) -> Seq<AccountMeta> {
    seq![
        AccountMeta { pubkey: source, is_signer: false, is_writable: true },
        AccountMeta { pubkey: mint, is_signer: false, is_writable: false },
        AccountMeta { pubkey: destination, is_signer: false, is_writable: true },
        AccountMeta { pubkey: authority, is_signer: true, is_writable: false },
    ]
}

/// Calls `spl_token_2022::instruction::transfer_checked` with a single
/// authority and no further signers.
///
/// The contract claims that an instruction is built exactly for the two
/// token programs, and that it names the given program, lists source, mint,
/// destination and authority in this order, source and destination
/// writable, the authority as the only signer, and carries the encoding of
/// [`transfer_checked_data`].
#[verifier::external_body]
pub(crate) fn transfer_checked(
    token_program: &Address,
    source: &Address,
    mint: &Address,
    destination: &Address,
    authority: &Address,
    amount: u64,
    decimals: u8,
) -> (r: Option<Instruction>)
    ensures
        r is Some <==> is_token_program(*token_program),
        r matches Some(built) ==> built@ == (InstructionView {
            program_id: *token_program,
            accounts: transfer_checked_accounts(*source, *mint, *destination, *authority),
            data: transfer_checked_data(amount, decimals),
        }),
{
    let key = |address: &Address| Pubkey::new_from_array(address.bytes);
    let (program, from, to) = (key(token_program), key(source), key(destination));
    let built = spl_token_2022::instruction::transfer_checked(
        &program, &from, &key(mint), &to, &key(authority), &[], amount, decimals,
    ).ok()?;
    let accounts = built.accounts.iter().map(|meta| AccountMeta {
        pubkey: Address { bytes: meta.pubkey.to_bytes() },
        is_signer: meta.is_signer,
        is_writable: meta.is_writable,
    }).collect();
    Some(Instruction { program_id: Address { bytes: built.program_id.to_bytes() }, accounts, data: built.data })
}

/// Whether the four bytes of `data` from `at` on tag an optional field: one
/// or zero, as a little-endian number of four bytes.
pub open spec fn option_tag(data: Seq<u8>, at: int) -> bool {
    (data[at] == 0 || data[at] == 1) && data[at + 1] == 0 && data[at + 2] == 0 && data[at + 3] == 0
}

/// The number of decimals that the data of a mint account declares.
///
/// A mint is 82 bytes: an optional mint authority (a tag of four bytes and
/// an address), the supply in eight bytes, the number of decimals in one,
/// a flag that says whether the mint is initialized, and an optional freeze
/// authority. Data of another length, with another tag or another flag is
/// no mint; a mint that is not initialized declares nothing.
pub open spec fn mint_decimals(data: Seq<u8>) -> Result<u8, CCIPReceiverError> {
    if data.len() != MINT_LEN || !option_tag(data, 0) || data[45] > 1 || !option_tag(data, 46) {
        Err(CCIPReceiverError::InvalidMintData)
    } else if data[45] == 0 {
        Err(CCIPReceiverError::UninitializedMint)
    } else {
        Ok(data[44])
    }
}

/// Calls `Mint::unpack` of `spl_token_2022` and picks the number of
/// decimals.
///
/// The contract claims that the call decodes the layout that
/// [`mint_decimals`] describes, and reports a mint that is not initialized
/// apart from data that is no mint.
#[verifier::external_body]
pub(crate) fn unpack_mint_decimals(data: &Vec<u8>) -> (r: Result<u8, CCIPReceiverError>)
    ensures
        r == mint_decimals(data@),
{
    match spl_token_2022::state::Mint::unpack(data.as_slice()) {
        Ok(mint) => Ok(mint.decimals),
        Err(ProgramError::UninitializedAccount) => Err(CCIPReceiverError::UninitializedMint),
        Err(_) => Err(CCIPReceiverError::InvalidMintData),
    }
}

/// The accounts of one token transfer, each in its role.
#[derive(Clone, Copy, Debug)]
pub struct TransferAccounts {
    /// The mint of the token.
    pub mint: Address,
    /// The custody account that the tokens leave.
    pub source: Address,
    /// The delegated authority over the custody account.
    pub authority: Address,
    /// The bump seed that completes the derivation of the authority.
    pub bump: u8,
    /// The account that the tokens go to.
    pub recipient: Address,
    /// The token program that executes the transfer.
    pub token_program: Address,
}

/// The roles of the accounts of a call, where the list has the shape of one
/// transfer.
///
/// The list must hold exactly the five accounts of one transfer: only the
/// first token transfer of a message is forwarded, however many it lists.
/// The account in the third place must be the delegated authority that the
/// receiver derives, and the custody account and the recipient account must
/// both be owned by the token program in the fifth place.
pub open spec fn bound_accounts(handles: Seq<AccountHandle>, token_admin: Option<(Seq<u8>, u8)>)
    -> Result<TransferAccounts, CCIPReceiverError> {
    if handles.len() != ROLES_PER_TRANSFER {
        Err(CCIPReceiverError::InvalidRemainingAccounts)
    } else if !derives(token_admin, handles[2].key) {
        Err(CCIPReceiverError::InvalidRemainingAccounts)
    } else if handles[1].owner != handles[4].key {
        Err(CCIPReceiverError::InvalidTokenAccountOwner)
    } else if handles[3].owner != handles[4].key {
        Err(CCIPReceiverError::InvalidTokenAccountOwner)
    } else {
        Ok(
            TransferAccounts {
                mint: handles[0].key,
                source: handles[1].key,
                authority: handles[2].key,
                bump: bump_of(token_admin),
                recipient: handles[3].key,
                token_program: handles[4].key,
            },
        )
    }
}

/// Binds the accounts of a call to the roles of one token transfer.
pub fn bind_accounts(handles: &Vec<AccountHandle>, token_admin: &Option<(Address, u8)>) -> (r:
    Result<TransferAccounts, CCIPReceiverError>)
    ensures
        r == bound_accounts(handles@, derived_view(*token_admin)),
        handles@.len() % (ROLES_PER_TRANSFER as nat) != 0 ==> r == Err::<
            TransferAccounts,
            CCIPReceiverError,
        >(CCIPReceiverError::InvalidRemainingAccounts),
{
    if handles.len() != ROLES_PER_TRANSFER {
        return Err(CCIPReceiverError::InvalidRemainingAccounts);
    }
    let bump = match token_admin {
        Some((_, bump)) => *bump,
        None => {
            return Err(CCIPReceiverError::InvalidRemainingAccounts);
        },
    };
    if !is_derived(token_admin, &handles[2].key) {
        return Err(CCIPReceiverError::InvalidRemainingAccounts);
    }
    if handles[1].owner != handles[4].key {
        return Err(CCIPReceiverError::InvalidTokenAccountOwner);
    }
    if handles[3].owner != handles[4].key {
        return Err(CCIPReceiverError::InvalidTokenAccountOwner);
    }
    Ok(
        TransferAccounts {
            mint: handles[0].key,
            source: handles[1].key,
            authority: handles[2].key,
            bump,
            recipient: handles[3].key,
            token_program: handles[4].key,
        },
    )
}

/// A list of accounts whose length is no multiple of the number of roles is
/// bound to nothing, whatever the accounts are.
pub proof fn lemma_partial_shape_rejected(
    handles: Seq<AccountHandle>,
    token_admin: Option<(Seq<u8>, u8)>,
)
    requires
        handles.len() % (ROLES_PER_TRANSFER as nat) != 0,
    ensures
        bound_accounts(handles, token_admin) == Err::<TransferAccounts, CCIPReceiverError>(
            CCIPReceiverError::InvalidRemainingAccounts,
        ),
{
}

/// A transfer for the host to execute: the instruction, and the seeds with
/// which the receiver signs it as the delegated authority.
#[derive(Debug)]
pub struct TransferRequest {
    /// The instruction for the token program.
    pub instruction: Instruction,
    /// The seeds of the delegated authority: the label and the bump seed.
    pub signer_seeds: Vec<Vec<u8>>,
}

/// The mathematical content of a [`TransferRequest`].
pub struct TransferRequestView {
    pub instruction: InstructionView,
    pub signer_seeds: Seq<Seq<u8>>,
}

impl View for TransferRequest {
    type V = TransferRequestView;

    open spec fn view(&self) -> TransferRequestView {
        TransferRequestView {
            instruction: self.instruction@,
            signer_seeds: crate::pda::seeds_view(self.signer_seeds@),
        }
    }
}

/// The request that moves `amount` units between the bound accounts: a
/// checked transfer from the custody account to the recipient, addressed to
/// the bound token program and signed with the seeds of the delegated
/// authority.
pub open spec fn delegated_transfer_request(accounts: TransferAccounts, amount: u64, decimals: u8)
    -> TransferRequestView {
    TransferRequestView {
        instruction: InstructionView {
            program_id: accounts.token_program,
            accounts: transfer_checked_accounts(
                accounts.source,
                accounts.mint,
                accounts.recipient,
                accounts.authority,
            ),
            data: transfer_checked_data(amount, decimals),
        },
        signer_seeds: seq![TOKEN_ADMIN_SEED@, seq![accounts.bump]],
    }
}

/// Builds the request that moves `amount` units from the custody account to
/// the recipient under the delegated authority.
///
/// The instruction is laid out as the Token-2022 program lays it out and
/// then addressed to the token program that the accounts name.
pub fn delegated_transfer(accounts: &TransferAccounts, amount: u64, decimals: u8) -> (r:
    TransferRequest)
    ensures
        r@ == delegated_transfer_request(*accounts, amount, decimals),
{
    let layout = Address::new(TOKEN_2022_PROGRAM_ID);
    let built = transfer_checked(
        &layout,
        &accounts.source,
        &accounts.mint,
        &accounts.recipient,
        &accounts.authority,
        amount,
        decimals,
    );
    let mut instruction = built.unwrap();
    instruction.program_id = accounts.token_program;
    let mut signer_seeds: Vec<Vec<u8>> = Vec::new();
    signer_seeds.push(seed(&TOKEN_ADMIN_SEED));
    let mut bump_seed: Vec<u8> = Vec::new();
    bump_seed.push(accounts.bump);
    signer_seeds.push(bump_seed);
    let r = TransferRequest { instruction, signer_seeds };
    assert(r@.signer_seeds =~= seq![TOKEN_ADMIN_SEED@, seq![accounts.bump]]);
    r
}

/// The transfer that a call with the given accounts asks for, or the reason
/// why there is none: the accounts are bound to their roles, the precision
/// is read from the mint, and the request is built for both.
pub open spec fn planned_transfer(
    handles: Seq<AccountHandle>,
    token_admin: Option<(Seq<u8>, u8)>,
    amount: u64,
) -> Result<TransferRequestView, CCIPReceiverError> {
    match bound_accounts(handles, token_admin) {
        Err(e) => Err(e),
        Ok(accounts) => match mint_decimals(handles[0].data@) {
            Err(e) => Err(e),
            Ok(decimals) => Ok(delegated_transfer_request(accounts, amount, decimals)),
        },
    }
}

/// Prepares the transfer of `amount` units for a call with the given
/// accounts, against a delegated authority that has been derived already.
pub fn prepare_transfer(
    handles: &Vec<AccountHandle>,
    token_admin: &Option<(Address, u8)>,
    amount: u64,
) -> (r: Result<TransferRequest, CCIPReceiverError>)
    ensures
        match planned_transfer(handles@, derived_view(*token_admin), amount) {
            Ok(request) => r matches Ok(built) && built@ == request,
            Err(e) => r matches Err(f) && f == e,
        },
{
    let accounts = match bind_accounts(handles, token_admin) {
        Ok(accounts) => accounts,
        Err(e) => {
            return Err(e);
        },
    };
    let decimals = match unpack_mint_decimals(&handles[0].data) {
        Ok(decimals) => decimals,
        Err(e) => {
            return Err(e);
        },
    };
    Ok(delegated_transfer(&accounts, amount, decimals))
}

} // verus!
