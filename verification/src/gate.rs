use crate::addresses::{associated_token_key, derive_associated_token_address};
use crate::error::ErrorCode;
use crate::identity::Identity;
use crate::state::Config;
use crate::token_account::{spec_transfer_error, transfer_tokens, TokenAccountState};
use vstd::prelude::*;

verus! {

/// Why the delegation-and-cooldown gate rejects a swap request, or `None`
/// if it accepts. The checks run in this order: caller identity, lifecycle
/// flags, delegation approval, delegated allowance, canonical delegate
/// account address, cooldown.
pub open spec fn spec_gate_error(
    operator: Identity,
    config: Config,
    vault: Identity,
    delegate_account: TokenAccountState,
    input_mint: Identity,
    delegate_pubkey: Identity,
    in_amount: u64,
    now: i64,
) -> Option<ErrorCode> {
    if !config.is_authorized_operator(operator) {
        Some(ErrorCode::InvalidOperator)
    } else if !config.is_initialized {
        Some(ErrorCode::ConfigNotInitialized)
    } else if config.is_paused {
        Some(ErrorCode::ConfigPaused)
    } else if delegate_account.delegate != Some(vault) {
        Some(ErrorCode::DelegateNotApproved)
    } else if delegate_account.delegated_amount < in_amount {
        Some(ErrorCode::InsufficientDelegatedAmount)
    } else if associated_token_key(delegate_pubkey, input_mint) != delegate_account.key {
        Some(ErrorCode::InvalidDelegateTokenAccount)
    } else if !config.cooldown_elapsed(now) {
        Some(ErrorCode::SwapTooFrequent)
    } else {
        None
    }
}

/// The authorization checks followed by the input pull: the first failing
/// check if any, else the first failure of the delegated transfer into the
/// vault.
pub open spec fn spec_validate_and_transfer_error(
    operator: Identity,
    config: Config,
    vault: Identity,
    delegate_account: TokenAccountState,
    input_mint: Identity,
    vault_account: TokenAccountState,
    delegate_pubkey: Identity,
    in_amount: u64,
    now: i64,
) -> Option<ErrorCode> {
    match spec_gate_error(
        operator,
        config,
        vault,
        delegate_account,
        input_mint,
        delegate_pubkey,
        in_amount,
        now,
    ) {
        Some(e) => Some(e),
        None => spec_transfer_error(delegate_account, vault_account, vault, in_amount),
    }
}

/// Why the reduced gate (no delegation-proof inspection) rejects, or `None`.
pub open spec fn spec_check_error(operator: Identity, config: Config, now: i64) -> Option<
    ErrorCode,
> {
    if !config.is_authorized_operator(operator) {
        Some(ErrorCode::InvalidOperator)
    } else if !config.is_initialized {
        Some(ErrorCode::ConfigNotInitialized)
    } else if config.is_paused {
        Some(ErrorCode::ConfigPaused)
    } else if !config.cooldown_elapsed(now) {
        Some(ErrorCode::SwapTooFrequent)
    } else {
        None
    }
}

/// The reduced gate followed by the input pull.
pub open spec fn spec_check_and_transfer_error(
    operator: Identity,
    config: Config,
    vault: Identity,
    delegate_account: TokenAccountState,
    vault_account: TokenAccountState,
    in_amount: u64,
    now: i64,
) -> Option<ErrorCode> {
    match spec_check_error(operator, config, now) {
        Some(e) => Some(e),
        None => spec_transfer_error(delegate_account, vault_account, vault, in_amount),
    }
}

/// The delegation-and-cooldown gate followed by the delegated input pull.
///
/// Validates the caller against the configuration, the configuration's
/// lifecycle flags, the delegation proof carried by the user's token account
/// (spender, allowance, and canonical address for `(delegate_pubkey,
/// input_mint)`), and the trade cooldown at time `now`; then moves
/// `in_amount` of the input asset from the user's delegated account into the
/// vault's holding account under the vault's authority, and finally records
/// `now` as the last trade time. On any rejection nothing is changed and the
/// abort signal carries the first failing check's error.
pub fn validate_and_transfer_input(
    operator: Identity,
    config: &mut Config,
    vault: Identity,
    delegate_input_token_account: &mut TokenAccountState,
    input_mint: Identity,
    vault_input_token_account: &mut TokenAccountState,
    in_amount: u64,
    delegate_pubkey: Identity,
    now: i64,
) -> (r: Result<(), ErrorCode>)
    requires
        old(config).wf(),
        old(config).last_trade_timestamp + old(config).cooldown_duration <= i64::MAX,
        old(delegate_input_token_account).key != old(vault_input_token_account).key,
    ensures
        match r {
            Ok(()) => {
                &&& spec_validate_and_transfer_error(
                    operator,
                    *old(config),
                    vault,
                    *old(delegate_input_token_account),
                    input_mint,
                    *old(vault_input_token_account),
                    delegate_pubkey,
                    in_amount,
                    now,
                ) is None
                &&& *final(config) == (Config { last_trade_timestamp: now, ..*old(config) })
                &&& final(delegate_input_token_account).amount == old(
                    delegate_input_token_account,
                ).amount - in_amount
                &&& final(vault_input_token_account).amount == old(
                    vault_input_token_account,
                ).amount + in_amount
                &&& final(delegate_input_token_account).delegated_amount == if vault == old(
                    delegate_input_token_account,
                ).owner {
                    old(delegate_input_token_account).delegated_amount
                } else {
                    (old(delegate_input_token_account).delegated_amount - in_amount) as u64
                }
                &&& *final(delegate_input_token_account) == (TokenAccountState {
                    amount: final(delegate_input_token_account).amount,
                    delegated_amount: final(delegate_input_token_account).delegated_amount,
                    ..*old(delegate_input_token_account)
                })
                &&& *final(vault_input_token_account) == (TokenAccountState {
                    amount: final(vault_input_token_account).amount,
                    ..*old(vault_input_token_account)
                })
            },
            Err(e) => {
                &&& Some(e) == spec_validate_and_transfer_error(
                    operator,
                    *old(config),
                    vault,
                    *old(delegate_input_token_account),
                    input_mint,
                    *old(vault_input_token_account),
                    delegate_pubkey,
                    in_amount,
                    now,
                )
                &&& *final(config) == *old(config)
                &&& *final(delegate_input_token_account) == *old(delegate_input_token_account)
                &&& *final(vault_input_token_account) == *old(vault_input_token_account)
            },
        },
{
    if !(operator == config.operator || operator == config.admin) {
        return Err(ErrorCode::InvalidOperator);
    }
    if !config.is_initialized {
        return Err(ErrorCode::ConfigNotInitialized);
    }
    if config.is_paused {
        return Err(ErrorCode::ConfigPaused);
    }
    let delegate_approved = match delegate_input_token_account.delegate {
        Some(d) => d == vault,
        None => false,
    };
    if !delegate_approved {
        return Err(ErrorCode::DelegateNotApproved);
    }
    if delegate_input_token_account.delegated_amount < in_amount {
        return Err(ErrorCode::InsufficientDelegatedAmount);
    }
    let expected_key = derive_associated_token_address(&delegate_pubkey, &input_mint);
    if expected_key != delegate_input_token_account.key {
        return Err(ErrorCode::InvalidDelegateTokenAccount);
    }
    if !(config.last_trade_timestamp + config.cooldown_duration < now) {
        return Err(ErrorCode::SwapTooFrequent);
    }
    transfer_tokens(delegate_input_token_account, vault_input_token_account, vault, in_amount)?;
    config.last_trade_timestamp = now;
    Ok(())
}

/// The reduced gate followed by the delegated input pull: as
/// `validate_and_transfer_input`, but without inspecting the delegation
/// proof first — the pull itself still fails unless the vault holds a
/// sufficient delegation or owns the source account.
pub fn check_and_transfer(
    operator: Identity,
    config: &mut Config,
    vault: Identity,
    delegate_input_token_account: &mut TokenAccountState,
    vault_input_token_account: &mut TokenAccountState,
    in_amount: u64,
    now: i64,
) -> (r: Result<(), ErrorCode>)
    requires
        old(config).wf(),
        old(config).last_trade_timestamp + old(config).cooldown_duration <= i64::MAX,
        old(delegate_input_token_account).key != old(vault_input_token_account).key,
    ensures
        match r {
            Ok(()) => {
                &&& spec_check_and_transfer_error(
                    operator,
                    *old(config),
                    vault,
                    *old(delegate_input_token_account),
                    *old(vault_input_token_account),
                    in_amount,
                    now,
                ) is None
                &&& *final(config) == (Config { last_trade_timestamp: now, ..*old(config) })
                &&& final(delegate_input_token_account).amount == old(
                    delegate_input_token_account,
                ).amount - in_amount
                &&& final(vault_input_token_account).amount == old(
                    vault_input_token_account,
                ).amount + in_amount
                &&& final(delegate_input_token_account).delegated_amount == if vault == old(
                    delegate_input_token_account,
                ).owner {
                    old(delegate_input_token_account).delegated_amount
                } else {
                    (old(delegate_input_token_account).delegated_amount - in_amount) as u64
                }
                &&& *final(delegate_input_token_account) == (TokenAccountState {
                    amount: final(delegate_input_token_account).amount,
                    delegated_amount: final(delegate_input_token_account).delegated_amount,
                    ..*old(delegate_input_token_account)
                })
                &&& *final(vault_input_token_account) == (TokenAccountState {
                    amount: final(vault_input_token_account).amount,
                    ..*old(vault_input_token_account)
                })
            },
            Err(e) => {
                &&& Some(e) == spec_check_and_transfer_error(
                    operator,
                    *old(config),
                    vault,
                    *old(delegate_input_token_account),
                    *old(vault_input_token_account),
                    in_amount,
                    now,
                )
                &&& *final(config) == *old(config)
                &&& *final(delegate_input_token_account) == *old(delegate_input_token_account)
                &&& *final(vault_input_token_account) == *old(vault_input_token_account)
            },
        },
{
    if !(operator == config.operator || operator == config.admin) {
        return Err(ErrorCode::InvalidOperator);
    }
    if !config.is_initialized {
        return Err(ErrorCode::ConfigNotInitialized);
    }
    if config.is_paused {
        return Err(ErrorCode::ConfigPaused);
    }
    if !(config.last_trade_timestamp + config.cooldown_duration < now) {
        return Err(ErrorCode::SwapTooFrequent);
    }
    transfer_tokens(delegate_input_token_account, vault_input_token_account, vault, in_amount)?;
    config.last_trade_timestamp = now;
    Ok(())
}

} // verus!
