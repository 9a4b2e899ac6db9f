//! The accounts that accompany each operation, and the proofs of
//! authorization that they must carry.

use vstd::prelude::*;
use vstd::bytes::{spec_u64_to_le_bytes, u64_to_le_bytes};
use crate::address::Address;
use crate::constants::{
    program_id, seed, ALLOWED_OFFRAMP, EXTERNAL_EXECUTION_CONFIG_SEED, ID, STATE_SEED,
    TOKEN_ADMIN_SEED,
};
use crate::error::CCIPReceiverError;
use crate::pda::{
    bump_of, derived_view, derives, is_derived, program_address, seeds_view,
    try_find_program_address,
};
use crate::state::{BaseState, MessagesStorage};

verus! {

/// What a call says of one account that it brings along.
#[derive(Debug)]
pub struct AccountHandle {
    /// The address of the account.
    pub key: Address,
    /// The program that owns the account. An account that was never created
    /// is owned by the system program.
    pub owner: Address,
    /// Whether the account signed the call.
    pub is_signer: bool,
    /// The bytes that the account holds.
    pub data: Vec<u8>,
}

/// Seeds of the identity with which the relay program signs its deliveries
/// to this receiver: the label and the receiver's own identity.
pub open spec fn relay_authority_seeds() -> Seq<Seq<u8>> {
    seq![EXTERNAL_EXECUTION_CONFIG_SEED@, ID@]
}

/// Seeds of the router's allowlist entry for one source chain and one relay
/// program: the label, the chain selector as eight little-endian bytes, and
/// the relay program's identity.
pub open spec fn allowlist_seeds(source_chain_selector: u64, offramp: Address) -> Seq<Seq<u8>> {
    seq![ALLOWED_OFFRAMP@, spec_u64_to_le_bytes(source_chain_selector), offramp@]
}

/// Seeds of the account that holds the receiver's configuration.
pub open spec fn state_seeds() -> Seq<Seq<u8>> {
    seq![STATE_SEED@]
}

/// Seeds of the delegated authority over the custody accounts.
pub open spec fn token_admin_seeds() -> Seq<Seq<u8>> {
    seq![TOKEN_ADMIN_SEED@]
}

/// The address that the receiver derives for its delegated authority, with
/// its bump seed.
pub open spec fn token_admin_address() -> Option<(Seq<u8>, u8)> {
    program_address(token_admin_seeds(), program_id()@)
}

/// Derives the delegated authority over the custody accounts.
pub fn find_token_admin() -> (r: Option<(Address, u8)>)
    ensures
        derived_view(r) == token_admin_address(),
{
    let mut seeds: Vec<Vec<u8>> = Vec::new();
    seeds.push(seed(&TOKEN_ADMIN_SEED));
    assert(seeds_view(seeds@) =~= token_admin_seeds());
    try_find_program_address(&seeds, &Address::new(ID))
}

/// The accounts of a delivery.
#[derive(Debug)]
pub struct CcipReceive {
    /// The caller: the identity that the relay program signs with.
    pub authority: AccountHandle,
    /// The relay program that the caller claims to act for.
    pub offramp_program: AccountHandle,
    /// The router's allowlist entry for the source chain and the relay
    /// program. That the router created it is the permission.
    pub allowed_offramp: AccountHandle,
    /// The account from which the configuration was read.
    pub state_account: AccountHandle,
    /// The receiver's configuration.
    pub state: BaseState,
    /// The record of received messages.
    pub messages_storage: MessagesStorage,
    /// The accounts of the token transfer, in the order mint, custody
    /// account, delegated authority, recipient account, token program.
    pub remaining_accounts: Vec<AccountHandle>,
}

impl CcipReceive {
    /// Whether the accounts are those of `other`, the record apart.
    pub open spec fn same_accounts(self, other: CcipReceive) -> bool {
        &&& self.authority == other.authority
        &&& self.offramp_program == other.offramp_program
        &&& self.allowed_offramp == other.allowed_offramp
        &&& self.state_account == other.state_account
        &&& self.state == other.state
        &&& self.remaining_accounts == other.remaining_accounts
    }

    /// First proof: the caller signed, and is the identity that the claimed
    /// relay program derives for deliveries to this receiver.
    pub open spec fn relay_authority_proven(self, derived: Option<(Seq<u8>, u8)>) -> bool {
        self.authority.is_signer && derives(derived, self.authority.key)
    }

    /// Second proof: the allowlist entry is the one that the registered
    /// router derives for the source chain and the relay program, and the
    /// router owns it, which it does only once it has created it.
    pub open spec fn allowlisted(self, derived: Option<(Seq<u8>, u8)>) -> bool {
        self.allowed_offramp.owner == self.state.router && derives(
            derived,
            self.allowed_offramp.key,
        )
    }

    /// Third proof: the configuration that names the router was read from
    /// the receiver's own configuration account, so the router is the
    /// registered one and not a value of the caller's choosing.
    pub open spec fn router_registered(self, derived: Option<(Seq<u8>, u8)>) -> bool {
        self.state_account.owner == program_id() && derives(derived, self.state_account.key)
    }

    /// The verdict on a delivery, given the three derived identities. The
    /// proofs are examined in order and the first that fails decides.
    pub open spec fn verdict(
        self,
        relay_authority: Option<(Seq<u8>, u8)>,
        allowlist_entry: Option<(Seq<u8>, u8)>,
        configuration: Option<(Seq<u8>, u8)>,
    ) -> Result<(), CCIPReceiverError> {
        if !self.relay_authority_proven(relay_authority) {
            Err(CCIPReceiverError::InvalidCaller)
        } else if !self.allowlisted(allowlist_entry) {
            Err(CCIPReceiverError::InvalidCaller)
        } else if !self.router_registered(configuration) {
            Err(CCIPReceiverError::InvalidRouter)
        } else {
            Ok(())
        }
    }

    /// The verdict on a delivery from the chain `source_chain_selector`.
    pub open spec fn authorization(self, source_chain_selector: u64) -> Result<
        (),
        CCIPReceiverError,
    > {
        self.verdict(
            program_address(relay_authority_seeds(), self.offramp_program.key@),
            program_address(
                allowlist_seeds(source_chain_selector, self.offramp_program.key),
                self.state.router@,
            ),
            program_address(state_seeds(), program_id()@),
        )
    }

    /// Examines the three proofs of authorization against identities that
    /// have been derived already.
    pub fn check(
        &self,
        relay_authority: &Option<(Address, u8)>,
        allowlist_entry: &Option<(Address, u8)>,
        configuration: &Option<(Address, u8)>,
    ) -> (r: Result<(), CCIPReceiverError>)
        ensures
            r == self.verdict(
                derived_view(*relay_authority),
                derived_view(*allowlist_entry),
                derived_view(*configuration),
            ),
    {
        if !(self.authority.is_signer && is_derived(relay_authority, &self.authority.key)) {
            Err(CCIPReceiverError::InvalidCaller)
        } else if !(self.allowed_offramp.owner == self.state.router && is_derived(
            allowlist_entry,
            &self.allowed_offramp.key,
        )) {
            Err(CCIPReceiverError::InvalidCaller)
        } else if !(self.state_account.owner == Address::new(ID) && is_derived(
            configuration,
            &self.state_account.key,
        )) {
            Err(CCIPReceiverError::InvalidRouter)
        } else {
            Ok(())
        }
    }

    /// Decides whether the caller may deliver a message from the chain
    /// `source_chain_selector`.
    pub fn verify(&self, source_chain_selector: u64) -> (r: Result<(), CCIPReceiverError>)
        ensures
            r == self.authorization(source_chain_selector),
    {
        let mut relay_seeds: Vec<Vec<u8>> = Vec::new();
        relay_seeds.push(seed(&EXTERNAL_EXECUTION_CONFIG_SEED));
        relay_seeds.push(seed(&ID));
        assert(seeds_view(relay_seeds@) =~= relay_authority_seeds());
        let relay_authority = try_find_program_address(&relay_seeds, &self.offramp_program.key);

        let mut entry_seeds: Vec<Vec<u8>> = Vec::new();
        entry_seeds.push(seed(&ALLOWED_OFFRAMP));
        entry_seeds.push(u64_to_le_bytes(source_chain_selector));
        entry_seeds.push(self.offramp_program.key.to_vec());
        assert(seeds_view(entry_seeds@) =~= allowlist_seeds(
            source_chain_selector,
            self.offramp_program.key,
        ));
        let allowlist_entry = try_find_program_address(&entry_seeds, &self.state.router);

        let mut config_seeds: Vec<Vec<u8>> = Vec::new();
        config_seeds.push(seed(&STATE_SEED));
        assert(seeds_view(config_seeds@) =~= state_seeds());
        let configuration = try_find_program_address(&config_seeds, &Address::new(ID));

        self.check(&relay_authority, &allowlist_entry, &configuration)
    }
}

/// A delivery is authorized exactly when all three proofs hold. A caller
/// that fails the first or the second is an invalid caller, whatever the
/// third says; a router is invalid only for a caller that passed both.
pub proof fn lemma_verdict_examines_proofs_in_order(
    ctx: CcipReceive,
    relay_authority: Option<(Seq<u8>, u8)>,
    allowlist_entry: Option<(Seq<u8>, u8)>,
    configuration: Option<(Seq<u8>, u8)>,
)
    ensures
        ctx.verdict(relay_authority, allowlist_entry, configuration) is Ok <==> {
            &&& ctx.relay_authority_proven(relay_authority)
            &&& ctx.allowlisted(allowlist_entry)
            &&& ctx.router_registered(configuration)
        },
        !ctx.relay_authority_proven(relay_authority) || !ctx.allowlisted(allowlist_entry)
            ==> ctx.verdict(relay_authority, allowlist_entry, configuration) == Err::<
            (),
            CCIPReceiverError,
        >(CCIPReceiverError::InvalidCaller),
        ctx.relay_authority_proven(relay_authority) && ctx.allowlisted(allowlist_entry)
            && !ctx.router_registered(configuration) ==> ctx.verdict(
            relay_authority,
            allowlist_entry,
            configuration,
        ) == Err::<(), CCIPReceiverError>(CCIPReceiverError::InvalidRouter),
{
}


/// The accounts of the initialization.
#[derive(Debug)]
pub struct Initialize {
    /// Who pays for the accounts, and becomes the owner.
    pub payer: AccountHandle,
    /// The receiver's configuration.
    pub state: BaseState,
    /// The record of received messages.
    pub messages_storage: MessagesStorage,
}

impl Initialize {
    /// Whether the payer has signed.
    pub open spec fn authorization(self) -> Result<(), CCIPReceiverError> {
        if self.payer.is_signer {
            Ok(())
        } else {
            Err(CCIPReceiverError::Unauthorized)
        }
    }

    /// Decides whether the receiver may be initialized on behalf of the
    /// payer: the payer must have signed.
    pub fn verify(&self) -> (r: Result<(), CCIPReceiverError>)
        ensures
            r == self.authorization(),
    {
        if self.payer.is_signer {
            Ok(())
        } else {
            Err(CCIPReceiverError::Unauthorized)
        }
    }
}

/// The accounts of a look at the latest message.
#[derive(Debug)]
pub struct GetLatestMessage {
    /// The record of received messages.
    pub messages_storage: MessagesStorage,
}

/// What a call says of a token account that it brings along.
#[derive(Clone, Copy, Debug)]
pub struct TokenAccountHandle {
    /// The address of the account.
    pub key: Address,
    /// The token program that owns the account.
    pub owner: Address,
    /// The mint of the tokens that the account holds.
    pub mint: Address,
    /// Who may move the tokens.
    pub authority: Address,
}

/// The bump seeds of the derived accounts of a withdrawal.
#[derive(Clone, Copy, Debug)]
pub struct WithdrawTokensBumps {
    /// Bump seed of the delegated authority.
    pub token_admin: u8,
}

/// The accounts of a withdrawal.
#[derive(Debug)]
pub struct WithdrawTokens {
    /// The receiver's configuration.
    pub state: BaseState,
    /// The custody account that the tokens leave.
    pub program_token_account: TokenAccountHandle,
    /// The account that the tokens go to.
    pub to_token_account: TokenAccountHandle,
    /// The mint of the token.
    pub mint: AccountHandle,
    /// The token program that executes the transfer.
    pub token_program: AccountHandle,
    /// The delegated authority over the custody account.
    pub token_admin: AccountHandle,
    /// The caller, who must be the owner of the receiver.
    pub authority: AccountHandle,
    /// The bump seeds that belong to the derived accounts.
    pub bumps: WithdrawTokensBumps,
}

impl WithdrawTokens {
    /// The verdict on a withdrawal, given the derived delegated authority.
    ///
    /// The caller must have signed. The custody account must hold tokens of
    /// the mint, under the delegated authority and the token program; the
    /// destination must hold tokens of the mint under the token program;
    /// the token program must be the one that owns the mint; the delegated
    /// authority must be the derived one, with its bump seed; and the caller
    /// must be the owner of the receiver. The first failure decides.
    pub open spec fn verdict(self, token_admin: Option<(Seq<u8>, u8)>) -> Result<
        (),
        CCIPReceiverError,
    > {
        if !self.authority.is_signer {
            Err(CCIPReceiverError::Unauthorized)
        } else if self.program_token_account.mint != self.mint.key {
            Err(CCIPReceiverError::TokenMintMismatch)
        } else if self.program_token_account.authority != self.token_admin.key {
            Err(CCIPReceiverError::InvalidTokenAdmin)
        } else if self.program_token_account.owner != self.token_program.key {
            Err(CCIPReceiverError::InvalidTokenAccountOwner)
        } else if self.to_token_account.mint != self.mint.key {
            Err(CCIPReceiverError::TokenMintMismatch)
        } else if self.to_token_account.owner != self.token_program.key {
            Err(CCIPReceiverError::InvalidTokenAccountOwner)
        } else if self.token_program.key != self.mint.owner {
            Err(CCIPReceiverError::TokenMintMismatch)
        } else if !(derives(token_admin, self.token_admin.key) && bump_of(token_admin)
            == self.bumps.token_admin) {
            Err(CCIPReceiverError::InvalidTokenAdmin)
        } else if self.authority.key != self.state.owner {
            Err(CCIPReceiverError::Unauthorized)
        } else {
            Ok(())
        }
    }

    /// The verdict on a withdrawal.
    pub open spec fn authorization(self) -> Result<(), CCIPReceiverError> {
        self.verdict(token_admin_address())
    }

    /// Examines a withdrawal against a delegated authority that has been
    /// derived already.
    pub fn check(&self, token_admin: &Option<(Address, u8)>) -> (r: Result<(), CCIPReceiverError>)
        ensures
            r == self.verdict(derived_view(*token_admin)),
    {
        if !self.authority.is_signer {
            return Err(CCIPReceiverError::Unauthorized);
        }
        if self.program_token_account.mint != self.mint.key {
            return Err(CCIPReceiverError::TokenMintMismatch);
        }
        if self.program_token_account.authority != self.token_admin.key {
            return Err(CCIPReceiverError::InvalidTokenAdmin);
        }
        if self.program_token_account.owner != self.token_program.key {
            return Err(CCIPReceiverError::InvalidTokenAccountOwner);
        }
        if self.to_token_account.mint != self.mint.key {
            return Err(CCIPReceiverError::TokenMintMismatch);
        }
        if self.to_token_account.owner != self.token_program.key {
            return Err(CCIPReceiverError::InvalidTokenAccountOwner);
        }
        if self.token_program.key != self.mint.owner {
            return Err(CCIPReceiverError::TokenMintMismatch);
        }
        let bump_matches = match token_admin {
            Some((_, bump)) => *bump == self.bumps.token_admin,
            None => false,
        };
        if !(is_derived(token_admin, &self.token_admin.key) && bump_matches) {
            return Err(CCIPReceiverError::InvalidTokenAdmin);
        }
        if self.authority.key != self.state.owner {
            return Err(CCIPReceiverError::Unauthorized);
        }
        Ok(())
    }

    /// Decides whether the caller may withdraw between the given accounts.
    pub fn verify(&self) -> (r: Result<(), CCIPReceiverError>)
        ensures
            r == self.authorization(),
    {
        let token_admin = find_token_admin();
        self.check(&token_admin)
    }
}

/// The accounts of the closing of the receiver's storage.
#[derive(Debug)]
pub struct CloseStorage {
    /// The receiver's configuration.
    pub state: BaseState,
    /// The record of received messages.
    pub messages_storage: MessagesStorage,
    /// The caller, who must be the owner of the receiver and gets back what
    /// the accounts held.
    pub owner: AccountHandle,
}

impl CloseStorage {
    /// Whether the caller has signed and is the owner of the receiver.
    pub open spec fn authorization(self) -> Result<(), CCIPReceiverError> {
        if self.owner.is_signer && self.owner.key == self.state.owner {
            Ok(())
        } else {
            Err(CCIPReceiverError::Unauthorized)
        }
    }

    /// Decides whether the caller may close the storage.
    pub fn verify(&self) -> (r: Result<(), CCIPReceiverError>)
        ensures
            r == self.authorization(),
    {
        if self.owner.is_signer && self.owner.key == self.state.owner {
            Ok(())
        } else {
            Err(CCIPReceiverError::Unauthorized)
        }
    }
}

} // verus!
