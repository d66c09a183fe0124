use crate::addresses::{
    associated_token_key_for_program, derive_associated_token_address_with_program_id,
};
use crate::error::ErrorCode;
use crate::identity::Identity;
use crate::state::{Access, Config};
use crate::token_account::{spec_transfer_error, transfer_tokens, TokenAccountState};
use vstd::prelude::*;

verus! {

/// The first failure of a plain inbound transfer, or `None`. The source is
/// either spent by its present, signing owner, or pulled through the
/// vault's standing delegation.
pub open spec fn spec_transfer_in_error(
    operator: Identity,
    config: Config,
    vault: Identity,
    authority: Identity,
    authority_is_signer: bool,
    from_account: TokenAccountState,
    to_account: TokenAccountState,
    amounts: u64,
) -> Option<ErrorCode> {
    if !config.is_authorized_operator(operator) {
        Some(ErrorCode::InvalidOperator)
    } else if !config.is_initialized {
        Some(ErrorCode::ConfigNotInitialized)
    } else if config.is_paused {
        Some(ErrorCode::ConfigPaused)
    } else if from_account.owner == authority {
        if !authority_is_signer {
            Some(ErrorCode::InvalidTokenAccount)
        } else if from_account.amount < amounts {
            Some(ErrorCode::InsufficientFunds)
        } else {
            spec_transfer_error(from_account, to_account, authority, amounts)
        }
    } else {
        if from_account.delegate != Some(vault) {
            Some(ErrorCode::InvalidDelegateTokenAccount)
        } else if from_account.delegated_amount < amounts {
            Some(ErrorCode::InsufficientFunds)
        } else {
            spec_transfer_error(from_account, to_account, vault, amounts)
        }
    }
}

/// A plain inbound transfer into the vault's holding account: moved by the
/// source's owner if the owner signed the request, else pulled through the
/// vault's standing delegation. No cooldown applies on the way in.
pub fn prorcess_transfer_in(
    operator: Identity,
    config: &Config,
    vault: Identity,
    authority: Identity,
    authority_is_signer: bool,
    from_token_account: &mut TokenAccountState,
    to_token_account: &mut TokenAccountState,
    amounts: u64,
) -> (r: Result<(), ErrorCode>)
    requires
        old(from_token_account).key != old(to_token_account).key,
    ensures
        match r {
            Ok(()) => {
                &&& spec_transfer_in_error(
                    operator,
                    *config,
                    vault,
                    authority,
                    authority_is_signer,
                    *old(from_token_account),
                    *old(to_token_account),
                    amounts,
                ) is None
                &&& final(from_token_account).amount == old(from_token_account).amount - amounts
                &&& final(to_token_account).amount == old(to_token_account).amount + amounts
                &&& final(from_token_account).delegated_amount == if old(
                    from_token_account,
                ).owner == authority || old(from_token_account).owner == vault {
                    old(from_token_account).delegated_amount
                } else {
                    (old(from_token_account).delegated_amount - amounts) as u64
                }
                &&& *final(from_token_account) == (TokenAccountState {
                    amount: final(from_token_account).amount,
                    delegated_amount: final(from_token_account).delegated_amount,
                    ..*old(from_token_account)
                })
                &&& *final(to_token_account) == (TokenAccountState {
                    amount: final(to_token_account).amount,
                    ..*old(to_token_account)
                })
            },
            Err(e) => {
                &&& Some(e) == spec_transfer_in_error(
                    operator,
                    *config,
                    vault,
                    authority,
                    authority_is_signer,
                    *old(from_token_account),
                    *old(to_token_account),
                    amounts,
                )
                &&& *final(from_token_account) == *old(from_token_account)
                &&& *final(to_token_account) == *old(to_token_account)
            },
        },
{
    if !(operator == config.operator || operator == config.admin) {
        return Err(ErrorCode::InvalidOperator);
    }
    if !config.is_initialized {
        return Err(ErrorCode::ConfigNotInitialized);
    }
    if config.is_paused {
        return Err(ErrorCode::ConfigPaused);
    }
    if from_token_account.owner == authority {
        if !authority_is_signer {
            return Err(ErrorCode::InvalidTokenAccount);
        }
        if from_token_account.amount < amounts {
            return Err(ErrorCode::InsufficientFunds);
        }
        transfer_tokens(from_token_account, to_token_account, authority, amounts)
    } else {
        let delegate_approved = match from_token_account.delegate {
            Some(d) => d == vault,
            None => false,
        };
        if !delegate_approved {
            return Err(ErrorCode::InvalidDelegateTokenAccount);
        }
        if from_token_account.delegated_amount < amounts {
            return Err(ErrorCode::InsufficientFunds);
        }
        transfer_tokens(from_token_account, to_token_account, vault, amounts)
    }
}

/// The first failure of an outbound transfer from the vault, or `None`.
pub open spec fn spec_transfer_out_error(
    operator: Identity,
    config: Config,
    from_account: TokenAccountState,
    to_account: TokenAccountState,
    amounts: u64,
    now: i64,
) -> Option<ErrorCode> {
    if !config.is_authorized_operator(operator) {
        Some(ErrorCode::InvalidOperator)
    } else if !config.is_initialized {
        Some(ErrorCode::ConfigNotInitialized)
    } else if config.is_paused {
        Some(ErrorCode::ConfigPaused)
    } else if from_account.amount < amounts {
        Some(ErrorCode::InsufficientFunds)
    } else if !config.cooldown_elapsed(now) {
        Some(ErrorCode::SwapTooFrequent)
    } else if to_account.amount + amounts > u64::MAX {
        Some(ErrorCode::SwapFailed)
    } else {
        None
    }
}

/// An outbound transfer out of the vault's holding account, under the
/// vault's own authority. Leaving funds counts as a trade: the cooldown is
/// enforced and the last-trade time advances to `now`.
pub fn prorcess_transfer_out(
    operator: Identity,
    config: &mut Config,
    vault: Identity,
    from_token_account: &mut TokenAccountState,
    to_token_account: &mut TokenAccountState,
    amounts: u64,
    now: i64,
) -> (r: Result<(), ErrorCode>)
    requires
        old(config).wf(),
        old(config).last_trade_timestamp + old(config).cooldown_duration <= i64::MAX,
        old(from_token_account).key != old(to_token_account).key,
        old(from_token_account).owner == vault,
    ensures
        match r {
            Ok(()) => {
                &&& spec_transfer_out_error(
                    operator,
                    *old(config),
                    *old(from_token_account),
                    *old(to_token_account),
                    amounts,
                    now,
                ) is None
                &&& *final(config) == (Config { last_trade_timestamp: now, ..*old(config) })
                &&& final(from_token_account).amount == old(from_token_account).amount - amounts
                &&& final(to_token_account).amount == old(to_token_account).amount + amounts
                &&& *final(from_token_account) == (TokenAccountState {
                    amount: final(from_token_account).amount,
                    ..*old(from_token_account)
                })
                &&& *final(to_token_account) == (TokenAccountState {
                    amount: final(to_token_account).amount,
                    ..*old(to_token_account)
                })
            },
            Err(e) => {
                &&& Some(e) == spec_transfer_out_error(
                    operator,
                    *old(config),
                    *old(from_token_account),
                    *old(to_token_account),
                    amounts,
                    now,
                )
                &&& *final(config) == *old(config)
                &&& *final(from_token_account) == *old(from_token_account)
                &&& *final(to_token_account) == *old(to_token_account)
            },
        },
{
    if !(operator == config.operator || operator == config.admin) {
        return Err(ErrorCode::InvalidOperator);
    }
    if !config.is_initialized {
        return Err(ErrorCode::ConfigNotInitialized);
    }
    if config.is_paused {
        return Err(ErrorCode::ConfigPaused);
    }
    if from_token_account.amount < amounts {
        return Err(ErrorCode::InsufficientFunds);
    }
    if !(config.last_trade_timestamp + config.cooldown_duration < now) {
        return Err(ErrorCode::SwapTooFrequent);
    }
    transfer_tokens(from_token_account, to_token_account, vault, amounts)?;
    config.last_trade_timestamp = now;
    Ok(())
}

/// The first failure of a proceeds hand-over, or `None`.
pub open spec fn spec_token_receive_error(
    access: Access,
    executor: Identity,
    executor_account: TokenAccountState,
    receiver_account_key: Identity,
    receiver: Identity,
    output_mint: Identity,
    output_mint_program: Identity,
    receiver_account: TokenAccountState,
) -> Option<ErrorCode> {
    if !access.is_granted {
        Some(ErrorCode::AccessNotGranted)
    } else if executor_account.amount == 0 {
        Some(ErrorCode::ExecutorOutputTokenAccountIsInsufficient)
    } else if associated_token_key_for_program(receiver, output_mint, output_mint_program)
        != receiver_account_key {
        Some(ErrorCode::FundVaultOutputTokenAccountNotFound)
    } else if receiver_account.amount + executor_account.amount > u64::MAX {
        Some(ErrorCode::SwapFailed)
    } else {
        None
    }
}

/// Hands an executor's whole output balance over to an access-granted
/// receiver, but only into the receiver's canonical token account for the
/// output asset.
pub fn process_token_receive(
    access: &Access,
    executor: Identity,
    executor_output_token_account: &mut TokenAccountState,
    receiver_output_token_account: &mut TokenAccountState,
    receiver: Identity,
    output_mint: Identity,
    output_mint_program: Identity,
) -> (r: Result<(), ErrorCode>)
    requires
        old(executor_output_token_account).key != old(receiver_output_token_account).key,
        old(executor_output_token_account).owner == executor,
    ensures
        match r {
            Ok(()) => {
                &&& spec_token_receive_error(
                    *access,
                    executor,
                    *old(executor_output_token_account),
                    old(receiver_output_token_account).key,
                    receiver,
                    output_mint,
                    output_mint_program,
                    *old(receiver_output_token_account),
                ) is None
                &&& final(executor_output_token_account).amount == 0
                &&& final(receiver_output_token_account).amount == old(
                    receiver_output_token_account,
                ).amount + old(executor_output_token_account).amount
                &&& *final(executor_output_token_account) == (TokenAccountState {
                    amount: 0,
                    ..*old(executor_output_token_account)
                })
                &&& *final(receiver_output_token_account) == (TokenAccountState {
                    amount: final(receiver_output_token_account).amount,
                    ..*old(receiver_output_token_account)
                })
            },
            Err(e) => {
                &&& Some(e) == spec_token_receive_error(
                    *access,
                    executor,
                    *old(executor_output_token_account),
                    old(receiver_output_token_account).key,
                    receiver,
                    output_mint,
                    output_mint_program,
                    *old(receiver_output_token_account),
                )
                &&& *final(executor_output_token_account) == *old(executor_output_token_account)
                &&& *final(receiver_output_token_account) == *old(receiver_output_token_account)
            },
        },
{
    if !access.is_granted {
        return Err(ErrorCode::AccessNotGranted);
    }
    if executor_output_token_account.amount == 0 {
        return Err(ErrorCode::ExecutorOutputTokenAccountIsInsufficient);
    }
    let expected = derive_associated_token_address_with_program_id(
        &receiver,
        &output_mint,
        &output_mint_program,
    );
    if expected != receiver_output_token_account.key {
        return Err(ErrorCode::FundVaultOutputTokenAccountNotFound);
    }
    let whole_balance = executor_output_token_account.amount;
    transfer_tokens(
        executor_output_token_account,
        receiver_output_token_account,
        executor,
        whole_balance,
    )
}

} // verus!
