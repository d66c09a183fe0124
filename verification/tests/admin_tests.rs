use jupiter_delegate::{
    process_accept_admin_transfer, process_grant_access, process_init_config,
    process_modify_cooldown_duration, process_pause, process_propose_new_admin,
    process_revoke_access, process_swap, Access, AccountRef, Config, ErrorCode, Identity,
    SwapParams, TokenAccountState, MINIMUM_TRADE_INTERVAL,
};

fn ident(n: u64) -> Identity {
    Identity { w0: n, w1: 0, w2: 0, w3: 0 }
}

fn fresh_config() -> Config {
    Config {
        admin: Identity::zero(),
        operator: Identity::zero(),
        vault: Identity::zero(),
        pending_admin: Identity::zero(),
        last_trade_timestamp: 0,
        is_initialized: false,
        is_paused: false,
        cooldown_duration: 0,
        bump: 0,
    }
}

#[test]
fn init_config_writes_every_field() {
    let mut config = fresh_config();
    let r = process_init_config(&mut config, ident(1), ident(3), ident(2), 60, 254);
    assert_eq!(r, Ok(()));
    assert_eq!(config.admin, ident(1));
    assert_eq!(config.operator, ident(2));
    assert_eq!(config.vault, ident(3));
    assert_eq!(config.pending_admin, Identity::zero());
    assert_eq!(config.last_trade_timestamp, 0);
    assert!(config.is_initialized);
    assert!(!config.is_paused);
    assert_eq!(config.cooldown_duration, 60);
    assert_eq!(config.bump, 254);
}

#[test]
fn init_config_rejects_a_second_initialization() {
    let mut config = fresh_config();
    process_init_config(&mut config, ident(1), ident(3), ident(2), 60, 254).unwrap();
    let r = process_init_config(&mut config, ident(9), ident(9), ident(9), 10, 0);
    assert_eq!(r, Err(ErrorCode::ConfigAlreadyInitialized));
    assert_eq!(config.admin, ident(1));
}

#[test]
fn init_config_rejects_too_short_cooldown() {
    let mut config = fresh_config();
    let r = process_init_config(
        &mut config,
        ident(1),
        ident(3),
        ident(2),
        MINIMUM_TRADE_INTERVAL - 1,
        254,
    );
    assert_eq!(r, Err(ErrorCode::InvalidCooldownDuration));
    assert!(!config.is_initialized);
}

#[test]
fn grant_access_sets_the_flag_once() {
    let mut config = fresh_config();
    process_init_config(&mut config, ident(1), ident(3), ident(2), 60, 254).unwrap();
    let mut access = Access { user: Identity::zero(), is_granted: false, bump: 0 };
    assert_eq!(process_grant_access(ident(1), &config, &mut access, ident(4), 7), Ok(()));
    assert_eq!(access, Access { user: ident(4), is_granted: true, bump: 7 });
    assert_eq!(
        process_grant_access(ident(1), &config, &mut access, ident(4), 7),
        Err(ErrorCode::AccessAlreadyGranted)
    );
}

#[test]
fn grant_access_is_admin_only() {
    let mut config = fresh_config();
    process_init_config(&mut config, ident(1), ident(3), ident(2), 60, 254).unwrap();
    let mut access = Access { user: Identity::zero(), is_granted: false, bump: 0 };
    assert_eq!(
        process_grant_access(ident(2), &config, &mut access, ident(4), 7),
        Err(ErrorCode::AdminAuthorityMismatch)
    );
    assert!(!access.is_granted);
}

#[test]
fn revoke_access_requires_a_granted_record() {
    let mut config = fresh_config();
    process_init_config(&mut config, ident(1), ident(3), ident(2), 60, 254).unwrap();
    let mut access = Access { user: ident(4), is_granted: false, bump: 7 };
    assert_eq!(
        process_revoke_access(ident(1), &config, &mut access),
        Err(ErrorCode::AccessNotGranted)
    );
}

#[test]
fn grant_then_revoke_round_trip_blocks_swaps() {
    let mut config = fresh_config();
    process_init_config(&mut config, ident(1), ident(3), ident(2), 60, 254).unwrap();
    let mut access = Access { user: Identity::zero(), is_granted: false, bump: 0 };
    process_grant_access(ident(1), &config, &mut access, ident(4), 7).unwrap();
    assert!(access.is_granted);
    process_revoke_access(ident(1), &config, &mut access).unwrap();
    assert!(!access.is_granted);

    // a subsequent swap attempt on behalf of that user is rejected
    let mut delegate_account = TokenAccountState {
        key: ident(30),
        owner: ident(4),
        mint: ident(5),
        amount: 1000,
        delegate: Some(ident(3)),
        delegated_amount: 1000,
    };
    let mut vault_account = TokenAccountState {
        key: ident(31),
        owner: ident(3),
        mint: ident(5),
        amount: 0,
        delegate: None,
        delegated_amount: 0,
    };
    let params = SwapParams { data: Vec::new(), in_amount: 100, delegate: ident(4) };
    let remaining: Vec<AccountRef> = Vec::new();
    let r = process_swap(
        ident(2),
        &mut config,
        ident(3),
        &access,
        ident(4),
        &mut delegate_account,
        ident(5),
        &mut vault_account,
        ident(6),
        jupiter_delegate::jupiter_program_id(),
        &remaining,
        &params,
        100,
    );
    assert_eq!(r.unwrap_err(), ErrorCode::AccessNotGranted);
    assert_eq!(delegate_account.amount, 1000);
}

#[test]
fn modify_cooldown_is_admin_only_and_bounded() {
    let mut config = fresh_config();
    process_init_config(&mut config, ident(1), ident(3), ident(2), 60, 254).unwrap();
    assert_eq!(
        process_modify_cooldown_duration(ident(2), &mut config, 120),
        Err(ErrorCode::OnlyAdminCanModifyCooldownDuration)
    );
    assert_eq!(
        process_modify_cooldown_duration(ident(1), &mut config, MINIMUM_TRADE_INTERVAL - 1),
        Err(ErrorCode::InvalidCooldownDuration)
    );
    assert_eq!(process_modify_cooldown_duration(ident(1), &mut config, 120), Ok(()));
    assert_eq!(config.cooldown_duration, 120);
}

#[test]
fn pause_toggles_the_flag() {
    let mut config = fresh_config();
    process_init_config(&mut config, ident(1), ident(3), ident(2), 60, 254).unwrap();
    process_pause(&mut config, true);
    assert!(config.is_paused);
    process_pause(&mut config, false);
    assert!(!config.is_paused);
}

#[test]
fn admin_handover_needs_both_halves() {
    let mut config = fresh_config();
    process_init_config(&mut config, ident(1), ident(3), ident(2), 60, 254).unwrap();
    assert_eq!(
        process_accept_admin_transfer(ident(8), &mut config),
        Err(ErrorCode::NoPendingAdminTransfer)
    );
    assert_eq!(
        process_propose_new_admin(ident(2), &mut config, ident(8)),
        Err(ErrorCode::OnlyAdminCanProposeNewAdmin)
    );
    assert_eq!(
        process_propose_new_admin(ident(1), &mut config, ident(1)),
        Err(ErrorCode::ProposedAdminIsCurrentAdmin)
    );
    assert_eq!(process_propose_new_admin(ident(1), &mut config, ident(8)), Ok(()));
    assert_eq!(config.pending_admin, ident(8));
    assert_eq!(
        process_propose_new_admin(ident(1), &mut config, ident(9)),
        Err(ErrorCode::ProposedAdminAlreadySet)
    );
    assert_eq!(
        process_accept_admin_transfer(ident(9), &mut config),
        Err(ErrorCode::OnlyProposedAdminCanAccept)
    );
    assert_eq!(process_accept_admin_transfer(ident(8), &mut config), Ok(()));
    assert_eq!(config.admin, ident(8));
    assert_eq!(config.pending_admin, Identity::zero());
}
