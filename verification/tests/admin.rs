use anchor_lang::solana_program::pubkey::Pubkey;
use anchor_spl::token_2022::spl_token_2022;
use ccip_basic_receiver::address::{Address, ADDRESS_BYTES};
use ccip_basic_receiver::constants::{
    seed, ALLOWED_OFFRAMP, ANCHOR_DISCRIMINATOR, EXTERNAL_EXECUTION_CONFIG_SEED, ID,
    MESSAGES_STORAGE_SEED, STATE_SEED, TOKEN_2022_PROGRAM_ID, TOKEN_ADMIN_SEED, TOKEN_PROGRAM_ID,
};
use ccip_basic_receiver::context::{
    find_token_admin, AccountHandle, CloseStorage, GetLatestMessage, Initialize,
    TokenAccountHandle, WithdrawTokens, WithdrawTokensBumps,
};
use ccip_basic_receiver::error::CCIPReceiverError;
use ccip_basic_receiver::instructions::{
    get_latest_message_handler, initialize_handler, withdraw_tokens_handler,
};
use ccip_basic_receiver::pda::is_derived;
use ccip_basic_receiver::state::{
    BaseState, MessageType, MessagesStorage, ReceivedMessage, SVMTokenAmount,
};
use ccip_basic_receiver::transfer::{
    bind_accounts, delegated_transfer, prepare_transfer, TransferAccounts, MINT_LEN,
    ROLES_PER_TRANSFER,
};
use ccip_basic_receiver::{
    close_storage, get_latest_message, get_token_account_space, initialize,
    is_supported_token_program, withdraw_tokens, TOKEN_ACCOUNT_SPACE,
};
use std::str::FromStr;

const NOW: i64 = 1_700_000_000;

fn key(n: u8) -> Address {
    Address::new([n; 32])
}

fn pubkey(address: Address) -> Pubkey {
    Pubkey::new_from_array(address.to_bytes())
}

fn handle(key: Address, owner: Address) -> AccountHandle {
    AccountHandle { key, owner, is_signer: false, data: Vec::new() }
}

fn signer(key: Address) -> AccountHandle {
    AccountHandle { key, owner: Address::zero(), is_signer: true, data: Vec::new() }
}

fn token_admin() -> (Address, u8) {
    let (admin, bump) =
        Pubkey::find_program_address(&[b"token_admin"], &Pubkey::new_from_array(ID));
    (Address::new(admin.to_bytes()), bump)
}

fn used_storage() -> MessagesStorage {
    MessagesStorage {
        last_updated: 77,
        message_count: 12,
        latest_message: ReceivedMessage {
            message_id: [4u8; 32],
            message_type: MessageType::ProgrammaticTokenTransfer,
            data: vec![1, 2, 3],
            token_amounts: vec![SVMTokenAmount { token: key(20), amount: 9 }],
            received_timestamp: 77,
            source_chain_selector: 16015286601757825753,
            sender: vec![5; 20],
        },
    }
}

fn owner() -> Address {
    key(3)
}

fn token_program() -> Address {
    Address::new(TOKEN_PROGRAM_ID)
}

fn withdrawal() -> WithdrawTokens {
    let (admin, bump) = token_admin();
    WithdrawTokens {
        state: BaseState { owner: owner(), router: key(7) },
        program_token_account: TokenAccountHandle {
            key: key(21),
            owner: token_program(),
            mint: key(20),
            authority: admin,
        },
        to_token_account: TokenAccountHandle {
            key: key(22),
            owner: token_program(),
            mint: key(20),
            authority: key(40),
        },
        mint: handle(key(20), token_program()),
        token_program: handle(token_program(), key(2)),
        token_admin: handle(admin, Address::new(ID)),
        authority: signer(owner()),
        bumps: WithdrawTokensBumps { token_admin: bump },
    }
}

#[test]
fn identities_are_those_of_the_programs() {
    let own = Pubkey::from_str("BqmcnLFSbKwyMEgi7VhVeJCis1wW26VySztF34CJrKFq").unwrap();
    assert_eq!(own.to_bytes(), ID);
    assert_eq!(anchor_spl::token::ID.to_bytes(), TOKEN_PROGRAM_ID);
    assert_eq!(anchor_spl::token_2022::ID.to_bytes(), TOKEN_2022_PROGRAM_ID);
    assert_eq!(spl_token_2022::ID.to_bytes(), TOKEN_2022_PROGRAM_ID);
}

#[test]
fn labels_are_the_ascii_names() {
    assert_eq!(&STATE_SEED[..], b"state");
    assert_eq!(&MESSAGES_STORAGE_SEED[..], b"messages_storage");
    assert_eq!(&EXTERNAL_EXECUTION_CONFIG_SEED[..], b"external_execution_config");
    assert_eq!(&ALLOWED_OFFRAMP[..], b"allowed_offramp");
    assert_eq!(&TOKEN_ADMIN_SEED[..], b"token_admin");
    assert_eq!(ANCHOR_DISCRIMINATOR, 8);
    assert_eq!(seed(&TOKEN_ADMIN_SEED), b"token_admin".to_vec());
    assert_eq!(seed(&STATE_SEED), vec![115, 116, 97, 116, 101]);
}

#[test]
fn sizes_are_those_of_the_token_program() {
    assert_eq!(MINT_LEN, anchor_spl::token::Mint::LEN);
    assert_eq!(TOKEN_ACCOUNT_SPACE, anchor_spl::token::TokenAccount::LEN);
    assert_eq!(ROLES_PER_TRANSFER, 5);
    assert_eq!(ADDRESS_BYTES, 32);
}

#[test]
fn addresses_compare_by_their_bytes() {
    let mut bytes = [9u8; 32];
    assert_eq!(Address::new(bytes), key(9));
    bytes[31] = 8;
    assert_ne!(Address::new(bytes), key(9));
    bytes[31] = 9;
    bytes[0] = 8;
    assert_ne!(Address::new(bytes), key(9));
    assert_eq!(Address::zero().to_bytes(), [0u8; 32]);
    assert_eq!(key(5).to_vec(), vec![5u8; 32]);
    assert_eq!(key(5).to_bytes(), [5u8; 32]);
}

#[test]
fn delegated_authority_is_the_derived_address() {
    let (admin, bump) = token_admin();
    let found = find_token_admin();
    assert_eq!(found, Some((admin, bump)));
    // The address is derived, not handed back: it is none of the inputs.
    assert_ne!(admin, Address::new(ID));
    assert!(is_derived(&found, &admin));
    assert!(!is_derived(&found, &key(1)));
    assert!(!is_derived(&None, &admin));
    let again = Pubkey::create_program_address(&[b"token_admin", &[bump]], &pubkey(Address::new(ID)));
    assert_eq!(again.unwrap().to_bytes(), admin.to_bytes());
}

#[test]
fn supported_token_programs_are_the_two_token_programs() {
    assert!(is_supported_token_program(&Address::new(TOKEN_PROGRAM_ID)));
    assert!(is_supported_token_program(&Address::new(TOKEN_2022_PROGRAM_ID)));
    assert!(!is_supported_token_program(&Address::new(ID)));
    assert!(!is_supported_token_program(&Address::zero()));
    let mut near = TOKEN_PROGRAM_ID;
    near[31] ^= 1;
    assert!(!is_supported_token_program(&Address::new(near)));
}

#[test]
fn token_account_space_is_165_bytes() {
    assert_eq!(get_token_account_space(&Address::new(TOKEN_PROGRAM_ID)), 165);
    assert_eq!(get_token_account_space(&Address::new(TOKEN_2022_PROGRAM_ID)), 165);
    assert_eq!(get_token_account_space(&key(1)), 165);
}

#[test]
fn initialize_registers_owner_and_router_and_empties_the_record() {
    let mut ctx = Initialize {
        payer: signer(key(3)),
        state: BaseState::default(),
        messages_storage: used_storage(),
    };
    let told = initialize(&mut ctx, key(7), NOW).unwrap();
    assert_eq!(told.owner, key(3));
    assert_eq!(told.router, key(7));
    assert_eq!(ctx.state.owner, key(3));
    assert_eq!(ctx.state.router, key(7));
    assert_eq!(ctx.messages_storage.last_updated, NOW);
    assert_eq!(ctx.messages_storage.message_count, 0);
    let latest = &ctx.messages_storage.latest_message;
    assert_eq!(latest.message_id, [0u8; 32]);
    assert_eq!(latest.message_type, MessageType::TokenTransfer);
    assert!(latest.data.is_empty());
    assert!(latest.token_amounts.is_empty());
    assert_eq!(latest.received_timestamp, 0);
    assert_eq!(latest.source_chain_selector, 0);
    assert!(latest.sender.is_empty());
}

#[test]
fn initialize_can_be_run_again() {
    let mut ctx = Initialize {
        payer: signer(key(3)),
        state: BaseState::default(),
        messages_storage: used_storage(),
    };
    initialize(&mut ctx, key(7), NOW).unwrap();
    ctx.payer = signer(key(4));
    ctx.messages_storage.message_count = 5;
    initialize(&mut ctx, key(8), NOW + 1).unwrap();
    assert_eq!(ctx.state.owner, key(4));
    assert_eq!(ctx.state.router, key(8));
    assert_eq!(ctx.messages_storage.message_count, 0);
    assert_eq!(ctx.messages_storage.last_updated, NOW + 1);
}

#[test]
fn initialize_needs_the_payer_s_signature() {
    let mut ctx = Initialize {
        payer: handle(key(3), Address::zero()),
        state: BaseState { owner: key(1), router: key(2) },
        messages_storage: used_storage(),
    };
    assert_eq!(initialize(&mut ctx, key(7), NOW).unwrap_err(), CCIPReceiverError::Unauthorized);
    assert_eq!(ctx.state.owner, key(1));
    assert_eq!(ctx.state.router, key(2));
    assert_eq!(ctx.messages_storage.message_count, 12);
    assert_eq!(ctx.messages_storage.last_updated, 77);
    assert_eq!(ctx.messages_storage.latest_message.data, vec![1, 2, 3]);
    // The handler itself does not ask for the signature.
    assert!(initialize_handler(&mut ctx, key(7), NOW).is_ok());
    assert_eq!(ctx.state.owner, key(3));
}

#[test]
fn default_state_and_record_are_empty() {
    let state = BaseState::default();
    assert_eq!(state.owner, Address::zero());
    assert_eq!(state.router, Address::zero());
    let latest = ReceivedMessage::default();
    assert_eq!(latest.message_id, [0u8; 32]);
    assert_eq!(latest.message_type, MessageType::TokenTransfer);
    assert_eq!(latest.received_timestamp, 0);
}

#[test]
fn latest_message_is_returned_as_a_copy() {
    let ctx = GetLatestMessage { messages_storage: used_storage() };
    let latest = get_latest_message(&ctx).unwrap();
    assert_eq!(latest.message_id, [4u8; 32]);
    assert_eq!(latest.message_type, MessageType::ProgrammaticTokenTransfer);
    assert_eq!(latest.data, vec![1, 2, 3]);
    assert_eq!(latest.token_amounts.len(), 1);
    assert_eq!(latest.token_amounts[0].token, key(20));
    assert_eq!(latest.token_amounts[0].amount, 9);
    assert_eq!(latest.received_timestamp, 77);
    assert_eq!(latest.source_chain_selector, 16015286601757825753);
    assert_eq!(latest.sender, vec![5; 20]);
    assert_eq!(ctx.messages_storage.message_count, 12);
    let again = get_latest_message_handler(&ctx).unwrap();
    assert_eq!(again.data, latest.data);
    let copy = latest.clone();
    assert_eq!(copy.sender, latest.sender);
    assert_eq!(copy.token_amounts[0].amount, 9);
}

#[test]
fn record_counts_and_replaces() {
    let mut storage = used_storage();
    let message = ccip_basic_receiver::state::Any2SVMMessage {
        message_id: [8u8; 32],
        source_chain_selector: 3,
        sender: vec![1],
        data: vec![2, 2],
        token_amounts: Vec::new(),
    };
    storage.record(message, MessageType::ArbitraryMessaging, NOW).unwrap();
    assert_eq!(storage.message_count, 13);
    assert_eq!(storage.last_updated, NOW);
    assert_eq!(storage.latest_message.message_id, [8u8; 32]);
    assert_eq!(storage.latest_message.message_type, MessageType::ArbitraryMessaging);
    assert_eq!(storage.latest_message.data, vec![2, 2]);
    assert!(storage.latest_message.token_amounts.is_empty());
    assert_eq!(storage.latest_message.received_timestamp, NOW);
    assert_eq!(storage.latest_message.source_chain_selector, 3);
    assert_eq!(storage.latest_message.sender, vec![1]);
}

#[test]
fn owner_withdraws_under_the_delegated_authority() {
    let ctx = withdrawal();
    let (admin, bump) = token_admin();
    let request = withdraw_tokens(&ctx, 250, 6).unwrap();

    let mut expected = spl_token_2022::instruction::transfer_checked(
        &spl_token_2022::ID,
        &pubkey(key(21)),
        &pubkey(key(20)),
        &pubkey(key(22)),
        &pubkey(admin),
        &[],
        250,
        6,
    )
    .unwrap();
    expected.program_id = pubkey(token_program());
    assert_eq!(pubkey(request.instruction.program_id), expected.program_id);
    assert_eq!(request.instruction.data, expected.data);
    assert_eq!(request.instruction.data, vec![12, 250, 0, 0, 0, 0, 0, 0, 0, 6]);
    assert_eq!(request.instruction.accounts.len(), 4);
    for (ours, theirs) in request.instruction.accounts.iter().zip(expected.accounts.iter()) {
        assert_eq!(pubkey(ours.pubkey), theirs.pubkey);
        assert_eq!(ours.is_signer, theirs.is_signer);
        assert_eq!(ours.is_writable, theirs.is_writable);
    }
    assert_eq!(request.signer_seeds, vec![b"token_admin".to_vec(), vec![bump]]);
}

#[test]
fn withdrawal_is_for_the_owner_alone() {
    let mut ctx = withdrawal();
    ctx.authority = signer(key(99));
    assert_eq!(withdraw_tokens(&ctx, 1, 0).unwrap_err(), CCIPReceiverError::Unauthorized);
    let mut ctx = withdrawal();
    ctx.authority.is_signer = false;
    assert_eq!(withdraw_tokens(&ctx, 1, 0).unwrap_err(), CCIPReceiverError::Unauthorized);
    // The handler itself prepares the transfer for whoever has been let through.
    assert!(withdraw_tokens_handler(&ctx, 1, 0).is_ok());
}

#[test]
fn withdrawal_needs_the_derived_authority() {
    let mut ctx = withdrawal();
    ctx.token_admin.key = key(44);
    ctx.program_token_account.authority = key(44);
    assert_eq!(withdraw_tokens(&ctx, 1, 0).unwrap_err(), CCIPReceiverError::InvalidTokenAdmin);

    let mut ctx = withdrawal();
    ctx.bumps.token_admin = ctx.bumps.token_admin.wrapping_sub(1);
    assert_eq!(withdraw_tokens(&ctx, 1, 0).unwrap_err(), CCIPReceiverError::InvalidTokenAdmin);

    let mut ctx = withdrawal();
    ctx.program_token_account.authority = key(44);
    assert_eq!(withdraw_tokens(&ctx, 1, 0).unwrap_err(), CCIPReceiverError::InvalidTokenAdmin);

    let ctx = withdrawal();
    assert_eq!(ctx.check(&None), Err(CCIPReceiverError::InvalidTokenAdmin));
    assert_eq!(ctx.check(&find_token_admin()), Ok(()));
    assert_eq!(ctx.verify(), Ok(()));
}

#[test]
fn withdrawal_needs_accounts_of_one_mint_and_one_token_program() {
    let mut ctx = withdrawal();
    ctx.program_token_account.mint = key(60);
    assert_eq!(withdraw_tokens(&ctx, 1, 0).unwrap_err(), CCIPReceiverError::TokenMintMismatch);

    let mut ctx = withdrawal();
    ctx.to_token_account.mint = key(60);
    assert_eq!(withdraw_tokens(&ctx, 1, 0).unwrap_err(), CCIPReceiverError::TokenMintMismatch);

    let mut ctx = withdrawal();
    ctx.program_token_account.owner = key(60);
    assert_eq!(
        withdraw_tokens(&ctx, 1, 0).unwrap_err(),
        CCIPReceiverError::InvalidTokenAccountOwner
    );

    let mut ctx = withdrawal();
    ctx.to_token_account.owner = key(60);
    assert_eq!(
        withdraw_tokens(&ctx, 1, 0).unwrap_err(),
        CCIPReceiverError::InvalidTokenAccountOwner
    );

    let mut ctx = withdrawal();
    ctx.mint.owner = key(60);
    assert_eq!(withdraw_tokens(&ctx, 1, 0).unwrap_err(), CCIPReceiverError::TokenMintMismatch);
}

#[test]
fn withdrawal_reports_the_first_failure() {
    let mut ctx = withdrawal();
    ctx.program_token_account.mint = key(60);
    ctx.authority = signer(key(99));
    assert_eq!(withdraw_tokens(&ctx, 1, 0).unwrap_err(), CCIPReceiverError::TokenMintMismatch);
    ctx.authority.is_signer = false;
    assert_eq!(withdraw_tokens(&ctx, 1, 0).unwrap_err(), CCIPReceiverError::Unauthorized);
}

#[test]
fn storage_is_closed_by_the_owner_alone() {
    let mut ctx = CloseStorage {
        state: BaseState { owner: owner(), router: key(7) },
        messages_storage: used_storage(),
        owner: signer(owner()),
    };
    assert_eq!(close_storage(&ctx), Ok(()));
    assert_eq!(ctx.verify(), Ok(()));
    ctx.owner.is_signer = false;
    assert_eq!(close_storage(&ctx), Err(CCIPReceiverError::Unauthorized));
    ctx.owner = signer(key(99));
    assert_eq!(close_storage(&ctx), Err(CCIPReceiverError::Unauthorized));
}

#[test]
fn binding_gives_each_account_its_role() {
    let (admin, bump) = token_admin();
    let handles = vec![
        handle(key(20), token_program()),
        handle(key(21), token_program()),
        handle(admin, Address::new(ID)),
        handle(key(22), token_program()),
        handle(token_program(), key(2)),
    ];
    let bound = bind_accounts(&handles, &Some((admin, bump))).unwrap();
    assert_eq!(bound.mint, key(20));
    assert_eq!(bound.source, key(21));
    assert_eq!(bound.authority, admin);
    assert_eq!(bound.bump, bump);
    assert_eq!(bound.recipient, key(22));
    assert_eq!(bound.token_program, token_program());
    assert_eq!(
        bind_accounts(&handles, &None).unwrap_err(),
        CCIPReceiverError::InvalidRemainingAccounts
    );
    assert_eq!(
        bind_accounts(&handles, &Some((key(1), bump))).unwrap_err(),
        CCIPReceiverError::InvalidRemainingAccounts
    );
}

#[test]
fn binding_refuses_every_other_length() {
    let (admin, bump) = token_admin();
    for count in [0usize, 1, 4, 6, 9, 10, 11, 15] {
        let handles: Vec<AccountHandle> = (0..count)
            .map(|i| match i % 5 {
                2 => handle(admin, Address::new(ID)),
                4 => handle(token_program(), key(2)),
                _ => handle(key(20 + i as u8), token_program()),
            })
            .collect();
        assert_eq!(
            bind_accounts(&handles, &Some((admin, bump))).unwrap_err(),
            CCIPReceiverError::InvalidRemainingAccounts
        );
        assert_eq!(
            prepare_transfer(&handles, &Some((admin, bump)), 1).unwrap_err(),
            CCIPReceiverError::InvalidRemainingAccounts
        );
    }
}

#[test]
fn delegated_transfer_encodes_amount_and_precision() {
    let accounts = TransferAccounts {
        mint: key(1),
        source: key(2),
        authority: key(3),
        bump: 254,
        recipient: key(4),
        token_program: key(5),
    };
    let request = delegated_transfer(&accounts, 0x1122_3344_5566_7788, 3);
    assert_eq!(
        request.instruction.data,
        vec![12, 0x88, 0x77, 0x66, 0x55, 0x44, 0x33, 0x22, 0x11, 3]
    );
    assert_eq!(request.instruction.program_id, key(5));
    assert_eq!(request.instruction.accounts[0].pubkey, key(2));
    assert_eq!(request.instruction.accounts[1].pubkey, key(1));
    assert_eq!(request.instruction.accounts[2].pubkey, key(4));
    assert_eq!(request.instruction.accounts[3].pubkey, key(3));
    assert_eq!(request.signer_seeds, vec![b"token_admin".to_vec(), vec![254]]);
    let empty = delegated_transfer(&accounts, 0, 0);
    assert_eq!(empty.instruction.data, vec![12, 0, 0, 0, 0, 0, 0, 0, 0, 0]);
}

#[test]
fn every_error_has_its_text() {
    assert_eq!(
        CCIPReceiverError::InvalidCaller.message(),
        "Caller is not the configured CCIP router"
    );
    assert_eq!(
        CCIPReceiverError::Unauthorized.message(),
        "Unauthorized: Signer is not the program owner"
    );
    assert_eq!(
        CCIPReceiverError::InvalidRemainingAccounts.message(),
        "Invalid remaining accounts structure for token transfer"
    );
    assert_eq!(
        CCIPReceiverError::InvalidTokenAccountOwner.message(),
        "Provided token account owner does not match token program"
    );
    assert_eq!(
        CCIPReceiverError::InvalidTokenAdmin.message(),
        "Provided token admin PDA is incorrect"
    );
    assert_eq!(
        CCIPReceiverError::MessageDataTooLarge.message(),
        "Message data exceeds the maximum allowed size for this receiver"
    );
    assert_eq!(
        CCIPReceiverError::TooManyTokens.message(),
        "Number of tokens exceeds the maximum allowed for this receiver"
    );
    assert_eq!(
        CCIPReceiverError::SenderAddressTooLarge.message(),
        "Sender address exceeds the maximum allowed size for this receiver"
    );
    let all = [
        CCIPReceiverError::InvalidCaller,
        CCIPReceiverError::Unauthorized,
        CCIPReceiverError::InvalidRemainingAccounts,
        CCIPReceiverError::InvalidTokenAccountOwner,
        CCIPReceiverError::InvalidTokenAdmin,
        CCIPReceiverError::MessageDataTooLarge,
        CCIPReceiverError::TooManyTokens,
        CCIPReceiverError::SenderAddressTooLarge,
        CCIPReceiverError::InvalidRouter,
        CCIPReceiverError::TokenMintMismatch,
        CCIPReceiverError::InvalidMintData,
        CCIPReceiverError::UninitializedMint,
        CCIPReceiverError::CounterOverflow,
    ];
    for (i, a) in all.iter().enumerate() {
        for (j, b) in all.iter().enumerate() {
            assert_eq!(a.message() == b.message(), i == j);
        }
    }
}
