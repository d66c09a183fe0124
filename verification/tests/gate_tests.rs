use jupiter_delegate::{
    check_and_transfer, validate_and_transfer_input, Config, ErrorCode, Identity,
    TokenAccountState,
};

fn ident(n: u64) -> Identity {
    Identity { w0: n, w1: 0, w2: 0, w3: 0 }
}

fn to_pubkey(id: &Identity) -> anchor_lang::prelude::Pubkey {
    anchor_lang::prelude::Pubkey::new_from_array(id.to_bytes().as_slice().try_into().unwrap())
}

fn from_pubkey(k: &anchor_lang::prelude::Pubkey) -> Identity {
    Identity::from_bytes(&k.to_bytes())
}

fn ata(owner: &Identity, mint: &Identity) -> Identity {
    from_pubkey(&anchor_spl::associated_token::get_associated_token_address(
        &to_pubkey(owner),
        &to_pubkey(mint),
    ))
}

fn base_config(admin: Identity, operator: Identity, vault: Identity) -> Config {
    Config {
        admin,
        operator,
        vault,
        pending_admin: Identity::zero(),
        last_trade_timestamp: 1000,
        is_initialized: true,
        is_paused: false,
        cooldown_duration: 60,
        bump: 255,
    }
}

struct Setup {
    config: Config,
    vault: Identity,
    user: Identity,
    input_mint: Identity,
    delegate_account: TokenAccountState,
    vault_account: TokenAccountState,
}

fn setup() -> Setup {
    let admin = ident(1);
    let operator = ident(2);
    let vault = ident(3);
    let user = ident(4);
    let input_mint = ident(5);
    let delegate_account = TokenAccountState {
        key: ata(&user, &input_mint),
        owner: user,
        mint: input_mint,
        amount: 1_000_000,
        delegate: Some(vault),
        delegated_amount: 500_000,
    };
    let vault_account = TokenAccountState {
        key: ata(&vault, &input_mint),
        owner: vault,
        mint: input_mint,
        amount: 0,
        delegate: None,
        delegated_amount: 0,
    };
    Setup { config: base_config(admin, operator, vault), vault, user, input_mint, delegate_account, vault_account }
}

#[test]
fn gate_accepts_and_pulls_input() {
    let mut s = setup();
    let r = validate_and_transfer_input(
        ident(2),
        &mut s.config,
        s.vault,
        &mut s.delegate_account,
        s.input_mint,
        &mut s.vault_account,
        200_000,
        s.user,
        2000,
    );
    assert_eq!(r, Ok(()));
    assert_eq!(s.config.last_trade_timestamp, 2000);
    assert_eq!(s.delegate_account.amount, 800_000);
    assert_eq!(s.delegate_account.delegated_amount, 300_000);
    assert_eq!(s.vault_account.amount, 200_000);
}

#[test]
fn gate_accepts_admin_as_caller() {
    let mut s = setup();
    let r = validate_and_transfer_input(
        ident(1),
        &mut s.config,
        s.vault,
        &mut s.delegate_account,
        s.input_mint,
        &mut s.vault_account,
        100,
        s.user,
        2000,
    );
    assert_eq!(r, Ok(()));
}

#[test]
fn gate_rejects_unknown_caller_and_changes_nothing() {
    let mut s = setup();
    let config_before = s.config;
    let delegate_before = s.delegate_account;
    let vault_before = s.vault_account;
    let r = validate_and_transfer_input(
        ident(9),
        &mut s.config,
        s.vault,
        &mut s.delegate_account,
        s.input_mint,
        &mut s.vault_account,
        100,
        s.user,
        2000,
    );
    assert_eq!(r, Err(ErrorCode::InvalidOperator));
    assert_eq!(s.config, config_before);
    assert_eq!(s.delegate_account, delegate_before);
    assert_eq!(s.vault_account, vault_before);
}

#[test]
fn gate_rejects_uninitialized_config() {
    let mut s = setup();
    s.config.is_initialized = false;
    let r = validate_and_transfer_input(
        ident(2),
        &mut s.config,
        s.vault,
        &mut s.delegate_account,
        s.input_mint,
        &mut s.vault_account,
        100,
        s.user,
        2000,
    );
    assert_eq!(r, Err(ErrorCode::ConfigNotInitialized));
}

#[test]
fn gate_rejects_paused_config() {
    let mut s = setup();
    s.config.is_paused = true;
    let r = validate_and_transfer_input(
        ident(2),
        &mut s.config,
        s.vault,
        &mut s.delegate_account,
        s.input_mint,
        &mut s.vault_account,
        100,
        s.user,
        2000,
    );
    assert_eq!(r, Err(ErrorCode::ConfigPaused));
}

#[test]
fn gate_rejects_missing_delegation() {
    let mut s = setup();
    s.delegate_account.delegate = None;
    let r = validate_and_transfer_input(
        ident(2),
        &mut s.config,
        s.vault,
        &mut s.delegate_account,
        s.input_mint,
        &mut s.vault_account,
        100,
        s.user,
        2000,
    );
    assert_eq!(r, Err(ErrorCode::DelegateNotApproved));
}

#[test]
fn gate_rejects_delegation_to_someone_else() {
    let mut s = setup();
    s.delegate_account.delegate = Some(ident(9));
    let r = validate_and_transfer_input(
        ident(2),
        &mut s.config,
        s.vault,
        &mut s.delegate_account,
        s.input_mint,
        &mut s.vault_account,
        100,
        s.user,
        2000,
    );
    assert_eq!(r, Err(ErrorCode::DelegateNotApproved));
}

#[test]
fn gate_rejects_insufficient_delegated_amount() {
    // a delegation of 100 does not cover a requested amount of 150,
    // and nothing is transferred
    let mut s = setup();
    s.delegate_account.delegated_amount = 100;
    let delegate_before = s.delegate_account;
    let vault_before = s.vault_account;
    let r = validate_and_transfer_input(
        ident(2),
        &mut s.config,
        s.vault,
        &mut s.delegate_account,
        s.input_mint,
        &mut s.vault_account,
        150,
        s.user,
        2000,
    );
    assert_eq!(r, Err(ErrorCode::InsufficientDelegatedAmount));
    assert_eq!(s.delegate_account, delegate_before);
    assert_eq!(s.vault_account, vault_before);
}

#[test]
fn gate_rejects_substituted_delegate_account() {
    // the record's address is not the canonical derived address for
    // (user, input asset)
    let mut s = setup();
    s.delegate_account.key = ident(77);
    let r = validate_and_transfer_input(
        ident(2),
        &mut s.config,
        s.vault,
        &mut s.delegate_account,
        s.input_mint,
        &mut s.vault_account,
        100,
        s.user,
        2000,
    );
    assert_eq!(r, Err(ErrorCode::InvalidDelegateTokenAccount));
}

#[test]
fn gate_rejects_wrong_user_for_delegate_account() {
    // the account is the canonical one of another user
    let mut s = setup();
    let r = validate_and_transfer_input(
        ident(2),
        &mut s.config,
        s.vault,
        &mut s.delegate_account,
        s.input_mint,
        &mut s.vault_account,
        100,
        ident(40),
        2000,
    );
    assert_eq!(r, Err(ErrorCode::InvalidDelegateTokenAccount));
}

#[test]
fn gate_cooldown_scenario() {
    // cooldown 60s, last trade at 1000: an attempt at 1030 is rejected,
    // one at 1061 succeeds and records 1061
    let mut s = setup();
    let r = validate_and_transfer_input(
        ident(2),
        &mut s.config,
        s.vault,
        &mut s.delegate_account,
        s.input_mint,
        &mut s.vault_account,
        100,
        s.user,
        1030,
    );
    assert_eq!(r, Err(ErrorCode::SwapTooFrequent));
    assert_eq!(s.config.last_trade_timestamp, 1000);

    let r = validate_and_transfer_input(
        ident(2),
        &mut s.config,
        s.vault,
        &mut s.delegate_account,
        s.input_mint,
        &mut s.vault_account,
        100,
        s.user,
        1061,
    );
    assert_eq!(r, Ok(()));
    assert_eq!(s.config.last_trade_timestamp, 1061);
}

#[test]
fn gate_rejects_boundary_instant() {
    // exactly last trade + cooldown has not yet elapsed
    let mut s = setup();
    let r = validate_and_transfer_input(
        ident(2),
        &mut s.config,
        s.vault,
        &mut s.delegate_account,
        s.input_mint,
        &mut s.vault_account,
        100,
        s.user,
        1060,
    );
    assert_eq!(r, Err(ErrorCode::SwapTooFrequent));
}

#[test]
fn second_accepted_request_within_cooldown_is_rejected() {
    let mut s = setup();
    let r = validate_and_transfer_input(
        ident(2),
        &mut s.config,
        s.vault,
        &mut s.delegate_account,
        s.input_mint,
        &mut s.vault_account,
        100,
        s.user,
        2000,
    );
    assert_eq!(r, Ok(()));
    let r = validate_and_transfer_input(
        ident(2),
        &mut s.config,
        s.vault,
        &mut s.delegate_account,
        s.input_mint,
        &mut s.vault_account,
        100,
        s.user,
        2060,
    );
    assert_eq!(r, Err(ErrorCode::SwapTooFrequent));
}

#[test]
fn gate_rejects_insufficient_balance() {
    let mut s = setup();
    s.delegate_account.amount = 50;
    let r = validate_and_transfer_input(
        ident(2),
        &mut s.config,
        s.vault,
        &mut s.delegate_account,
        s.input_mint,
        &mut s.vault_account,
        100,
        s.user,
        2000,
    );
    assert_eq!(r, Err(ErrorCode::InsufficientFunds));
}

#[test]
fn gate_rejects_overflowing_destination() {
    let mut s = setup();
    s.vault_account.amount = u64::MAX - 10;
    let r = validate_and_transfer_input(
        ident(2),
        &mut s.config,
        s.vault,
        &mut s.delegate_account,
        s.input_mint,
        &mut s.vault_account,
        100,
        s.user,
        2000,
    );
    assert_eq!(r, Err(ErrorCode::SwapFailed));
}

#[test]
fn reduced_gate_accepts_and_pulls() {
    let mut s = setup();
    let r = check_and_transfer(
        ident(2),
        &mut s.config,
        s.vault,
        &mut s.delegate_account,
        &mut s.vault_account,
        300,
        2000,
    );
    assert_eq!(r, Ok(()));
    assert_eq!(s.config.last_trade_timestamp, 2000);
    assert_eq!(s.delegate_account.amount, 999_700);
    assert_eq!(s.vault_account.amount, 300);
}

#[test]
fn reduced_gate_still_needs_the_delegation_at_the_pull() {
    let mut s = setup();
    s.delegate_account.delegate = None;
    let r = check_and_transfer(
        ident(2),
        &mut s.config,
        s.vault,
        &mut s.delegate_account,
        &mut s.vault_account,
        300,
        2000,
    );
    assert_eq!(r, Err(ErrorCode::DelegateNotApproved));
}
