use jupiter_delegate::{
    process_token_receive, prorcess_transfer_in, prorcess_transfer_out, Access, Config, ErrorCode,
    Identity, TokenAccountState,
};

fn ident(n: u64) -> Identity {
    Identity { w0: n, w1: 0, w2: 0, w3: 0 }
}

fn to_pubkey(id: &Identity) -> anchor_lang::prelude::Pubkey {
    anchor_lang::prelude::Pubkey::new_from_array(id.to_bytes().as_slice().try_into().unwrap())
}

fn from_pubkey(k: &anchor_lang::prelude::Pubkey) -> Identity {
    Identity::from_bytes(&k.to_bytes())
}

fn ata_for_program(owner: &Identity, mint: &Identity, program: &Identity) -> Identity {
    from_pubkey(&anchor_spl::associated_token::get_associated_token_address_with_program_id(
        &to_pubkey(owner),
        &to_pubkey(mint),
        &to_pubkey(program),
    ))
}

fn live_config() -> Config {
    Config {
        admin: ident(1),
        operator: ident(2),
        vault: ident(3),
        pending_admin: Identity::zero(),
        last_trade_timestamp: 1000,
        is_initialized: true,
        is_paused: false,
        cooldown_duration: 60,
        bump: 255,
    }
}

#[test]
fn transfer_in_by_signing_owner() {
    let config = live_config();
    let owner = ident(4);
    let mut from = TokenAccountState {
        key: ident(30),
        owner,
        mint: ident(5),
        amount: 500,
        delegate: None,
        delegated_amount: 0,
    };
    let mut to = TokenAccountState {
        key: ident(31),
        owner: ident(3),
        mint: ident(5),
        amount: 0,
        delegate: None,
        delegated_amount: 0,
    };
    let r = prorcess_transfer_in(ident(2), &config, ident(3), owner, true, &mut from, &mut to, 200);
    assert_eq!(r, Ok(()));
    assert_eq!(from.amount, 300);
    assert_eq!(to.amount, 200);

    let r =
        prorcess_transfer_in(ident(2), &config, ident(3), owner, false, &mut from, &mut to, 100);
    assert_eq!(r, Err(ErrorCode::InvalidTokenAccount));

    let r = prorcess_transfer_in(ident(2), &config, ident(3), owner, true, &mut from, &mut to, 400);
    assert_eq!(r, Err(ErrorCode::InsufficientFunds));
}

#[test]
fn transfer_in_through_the_vault_delegation() {
    let config = live_config();
    let owner = ident(4);
    let mut from = TokenAccountState {
        key: ident(30),
        owner,
        mint: ident(5),
        amount: 500,
        delegate: Some(ident(3)),
        delegated_amount: 250,
    };
    let mut to = TokenAccountState {
        key: ident(31),
        owner: ident(3),
        mint: ident(5),
        amount: 0,
        delegate: None,
        delegated_amount: 0,
    };
    // the request's authority is not the owner, so the vault delegation
    // carries the transfer
    let r = prorcess_transfer_in(
        ident(2),
        &config,
        ident(3),
        ident(9),
        false,
        &mut from,
        &mut to,
        200,
    );
    assert_eq!(r, Ok(()));
    assert_eq!(from.amount, 300);
    assert_eq!(from.delegated_amount, 50);
    assert_eq!(to.amount, 200);

    let r = prorcess_transfer_in(
        ident(2),
        &config,
        ident(3),
        ident(9),
        false,
        &mut from,
        &mut to,
        100,
    );
    assert_eq!(r, Err(ErrorCode::InsufficientFunds));

    from.delegate = None;
    let r = prorcess_transfer_in(
        ident(2),
        &config,
        ident(3),
        ident(9),
        false,
        &mut from,
        &mut to,
        10,
    );
    assert_eq!(r, Err(ErrorCode::InvalidDelegateTokenAccount));
}

#[test]
fn transfer_in_requires_a_live_config() {
    let mut config = live_config();
    config.is_paused = true;
    let mut from = TokenAccountState {
        key: ident(30),
        owner: ident(4),
        mint: ident(5),
        amount: 500,
        delegate: None,
        delegated_amount: 0,
    };
    let mut to = TokenAccountState {
        key: ident(31),
        owner: ident(3),
        mint: ident(5),
        amount: 0,
        delegate: None,
        delegated_amount: 0,
    };
    let r = prorcess_transfer_in(
        ident(2),
        &config,
        ident(3),
        ident(4),
        true,
        &mut from,
        &mut to,
        10,
    );
    assert_eq!(r, Err(ErrorCode::ConfigPaused));
}

#[test]
fn transfer_out_enforces_the_cooldown() {
    let mut config = live_config();
    let mut from = TokenAccountState {
        key: ident(30),
        owner: ident(3),
        mint: ident(5),
        amount: 500,
        delegate: None,
        delegated_amount: 0,
    };
    let mut to = TokenAccountState {
        key: ident(31),
        owner: ident(4),
        mint: ident(5),
        amount: 0,
        delegate: None,
        delegated_amount: 0,
    };
    let r = prorcess_transfer_out(ident(2), &mut config, ident(3), &mut from, &mut to, 200, 1030);
    assert_eq!(r, Err(ErrorCode::SwapTooFrequent));
    assert_eq!(from.amount, 500);

    let r = prorcess_transfer_out(ident(2), &mut config, ident(3), &mut from, &mut to, 200, 1061);
    assert_eq!(r, Ok(()));
    assert_eq!(config.last_trade_timestamp, 1061);
    assert_eq!(from.amount, 300);
    assert_eq!(to.amount, 200);

    let r = prorcess_transfer_out(ident(9), &mut config, ident(3), &mut from, &mut to, 10, 2000);
    assert_eq!(r, Err(ErrorCode::InvalidOperator));

    let r = prorcess_transfer_out(ident(2), &mut config, ident(3), &mut from, &mut to, 900, 2000);
    assert_eq!(r, Err(ErrorCode::InsufficientFunds));
}

#[test]
fn token_receive_forwards_whole_balance_to_canonical_account() {
    let executor = ident(8);
    let receiver = ident(4);
    let output_mint = ident(6);
    let output_mint_program = ident(7);
    let access = Access { user: receiver, is_granted: true, bump: 250 };
    let mut executor_account = TokenAccountState {
        key: ident(30),
        owner: executor,
        mint: output_mint,
        amount: 750,
        delegate: None,
        delegated_amount: 0,
    };
    let mut receiver_account = TokenAccountState {
        key: ata_for_program(&receiver, &output_mint, &output_mint_program),
        owner: receiver,
        mint: output_mint,
        amount: 10,
        delegate: None,
        delegated_amount: 0,
    };
    let r = process_token_receive(
        &access,
        executor,
        &mut executor_account,
        &mut receiver_account,
        receiver,
        output_mint,
        output_mint_program,
    );
    assert_eq!(r, Ok(()));
    assert_eq!(executor_account.amount, 0);
    assert_eq!(receiver_account.amount, 760);
}

#[test]
fn token_receive_rejects_noncanonical_receiver_account() {
    let executor = ident(8);
    let receiver = ident(4);
    let access = Access { user: receiver, is_granted: true, bump: 250 };
    let mut executor_account = TokenAccountState {
        key: ident(30),
        owner: executor,
        mint: ident(6),
        amount: 750,
        delegate: None,
        delegated_amount: 0,
    };
    let mut receiver_account = TokenAccountState {
        key: ident(31),
        owner: receiver,
        mint: ident(6),
        amount: 0,
        delegate: None,
        delegated_amount: 0,
    };
    let r = process_token_receive(
        &access,
        executor,
        &mut executor_account,
        &mut receiver_account,
        receiver,
        ident(6),
        ident(7),
    );
    assert_eq!(r, Err(ErrorCode::FundVaultOutputTokenAccountNotFound));
    assert_eq!(executor_account.amount, 750);
}

#[test]
fn token_receive_rejects_empty_executor_and_missing_access() {
    let executor = ident(8);
    let receiver = ident(4);
    let mut executor_account = TokenAccountState {
        key: ident(30),
        owner: executor,
        mint: ident(6),
        amount: 0,
        delegate: None,
        delegated_amount: 0,
    };
    let mut receiver_account = TokenAccountState {
        key: ident(31),
        owner: receiver,
        mint: ident(6),
        amount: 0,
        delegate: None,
        delegated_amount: 0,
    };
    let access = Access { user: receiver, is_granted: true, bump: 250 };
    let r = process_token_receive(
        &access,
        executor,
        &mut executor_account,
        &mut receiver_account,
        receiver,
        ident(6),
        ident(7),
    );
    assert_eq!(r, Err(ErrorCode::ExecutorOutputTokenAccountIsInsufficient));

    executor_account.amount = 10;
    let revoked = Access { user: receiver, is_granted: false, bump: 250 };
    let r = process_token_receive(
        &revoked,
        executor,
        &mut executor_account,
        &mut receiver_account,
        receiver,
        ident(6),
        ident(7),
    );
    assert_eq!(r, Err(ErrorCode::AccessNotGranted));
}
