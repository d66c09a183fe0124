use crate::addresses::{
    associated_token_key, associated_token_key_for_program, derive_associated_token_address,
    derive_associated_token_address_with_program_id,
};
use crate::dispatch::{
    contains_account_key, execute_cross_program_invocation, prepare_cpi_accounts,
    prepare_cross_program_accounts, spec_account_metas, spec_contains_key, spec_dedup_accounts,
    AccountMeta, AccountRef,
};
use crate::error::ErrorCode;
use crate::gate::{check_and_transfer, spec_check_and_transfer_error, spec_validate_and_transfer_error, validate_and_transfer_input};
use crate::identity::Identity;
use crate::perpetuals::{spec_parse_perpetuals_action, JupiterPerpetualsParams};
use crate::registry::{
    dflow_program_id, jupiter_order_engine_program_id, jupiter_program_id, perpetuals_program_id,
    spec_dflow_program_id, spec_jupiter_order_engine_program_id, spec_jupiter_program_id,
    spec_perpetuals_program_id,
};
use crate::settlement::spec_settle_error;
use crate::state::{Access, Config};
use crate::token_account::TokenAccountState;
use vstd::prelude::*;

verus! {

/// Per-call parameters of a plain aggregator swap: the opaque payload, the
/// declared input amount, and the delegating user.
#[derive(Clone, Debug, PartialEq, Eq)]
pub struct SwapParams {
    pub data: Vec<u8>,
    pub in_amount: u64,
    pub delegate: Identity,
}

/// Per-call parameters of the aggregator-route swap variant.
#[derive(Clone, Debug, PartialEq, Eq)]
pub struct JupiterSwapParams {
    pub data: Vec<u8>,
    pub in_amount: u64,
    pub delegate: Identity,
}

/// Per-call parameters of an order-engine fill.
#[derive(Clone, Debug, PartialEq, Eq)]
pub struct FillOrderEngineParams {
    pub data: Vec<u8>,
    pub in_amount: u64,
    pub delegate: Identity,
}

/// Per-call parameters of an alternate-aggregator swap.
#[derive(Clone, Debug, PartialEq, Eq)]
pub struct DflowAggregatorParams {
    pub data: Vec<u8>,
    pub in_amount: u64,
    pub delegate: Identity,
}

/// Per-call parameters of the shared-accounts route variant.
#[derive(Clone, Debug, PartialEq, Eq)]
pub struct SharedAccountsRouteV2Args {
    pub data: Vec<u8>,
    pub in_amount: u64,
    pub out_amount: u64,
    pub delegate: Identity,
}

/// The first failure of a plain aggregator swap, or `None`: access flag,
/// gate and pull, receiver presence among the auxiliary accounts (at the
/// user's canonical output account), then the registry's identity check.
pub open spec fn spec_swap_error(
    operator: Identity,
    config: Config,
    vault: Identity,
    access: Access,
    delegate_account: TokenAccountState,
    input_mint: Identity,
    vault_input: TokenAccountState,
    user: Identity,
    output_mint: Identity,
    jupiter_program: Identity,
    remaining: Seq<AccountRef>,
    in_amount: u64,
    delegate: Identity,
    now: i64,
) -> Option<ErrorCode> {
    if !access.is_granted {
        Some(ErrorCode::AccessNotGranted)
    } else {
        match spec_validate_and_transfer_error(
            operator,
            config,
            vault,
            delegate_account,
            input_mint,
            vault_input,
            delegate,
            in_amount,
            now,
        ) {
            Some(e) => Some(e),
            None => {
                if !spec_contains_key(remaining, associated_token_key(user, output_mint)) {
                    Some(ErrorCode::ReceiverTokenAccountNotFound)
                } else if jupiter_program != spec_jupiter_program_id() {
                    Some(ErrorCode::TargetProgramMismatch)
                } else {
                    None
                }
            },
        }
    }
}

/// A plain aggregator swap without settlement: gate and pull, then verify
/// that the user's canonical output token account is among the auxiliary
/// accounts and that the supplied program is the registry's primary
/// aggregator, and build the call description. The external call itself and
/// its settlement are the host's; this request trusts the receiver-presence
/// check to route the proceeds.
pub fn process_swap(
    operator: Identity,
    config: &mut Config,
    vault: Identity,
    access: &Access,
    user: Identity,
    delegate_input_token_account: &mut TokenAccountState,
    input_mint: Identity,
    vault_input_token_account: &mut TokenAccountState,
    output_mint: Identity,
    jupiter_program: Identity,
    remaining_accounts: &Vec<AccountRef>,
    params: &SwapParams,
    now: i64,
) -> (r: Result<(Vec<AccountMeta>, Vec<AccountRef>), ErrorCode>)
    requires
        old(config).wf(),
        old(config).last_trade_timestamp + old(config).cooldown_duration <= i64::MAX,
        old(delegate_input_token_account).key != old(vault_input_token_account).key,
    ensures
        match r {
            Ok(plan) => {
                &&& spec_swap_error(
                    operator,
                    *old(config),
                    vault,
                    *access,
                    *old(delegate_input_token_account),
                    input_mint,
                    *old(vault_input_token_account),
                    user,
                    output_mint,
                    jupiter_program,
                    remaining_accounts@,
                    params.in_amount,
                    params.delegate,
                    now,
                ) is None
                &&& plan.0@ == spec_account_metas(remaining_accounts@, vault)
                &&& plan.1@ == spec_dedup_accounts(remaining_accounts@)
                &&& *final(config) == (Config { last_trade_timestamp: now, ..*old(config) })
                &&& final(delegate_input_token_account).amount == old(
                    delegate_input_token_account,
                ).amount - params.in_amount
                &&& final(vault_input_token_account).amount == old(
                    vault_input_token_account,
                ).amount + params.in_amount
                &&& *final(delegate_input_token_account) == (TokenAccountState {
                    amount: final(delegate_input_token_account).amount,
                    delegated_amount: final(delegate_input_token_account).delegated_amount,
                    ..*old(delegate_input_token_account)
                })
                &&& *final(vault_input_token_account) == (TokenAccountState {
                    amount: final(vault_input_token_account).amount,
                    ..*old(vault_input_token_account)
                })
            },
            Err(e) => {
                &&& Some(e) == spec_swap_error(
                    operator,
                    *old(config),
                    vault,
                    *access,
                    *old(delegate_input_token_account),
                    input_mint,
                    *old(vault_input_token_account),
                    user,
                    output_mint,
                    jupiter_program,
                    remaining_accounts@,
                    params.in_amount,
                    params.delegate,
                    now,
                )
                &&& if !access.is_granted || spec_validate_and_transfer_error(
                    operator,
                    *old(config),
                    vault,
                    *old(delegate_input_token_account),
                    input_mint,
                    *old(vault_input_token_account),
                    params.delegate,
                    params.in_amount,
                    now,
                ) is Some {
                    &&& *final(config) == *old(config)
                    &&& *final(delegate_input_token_account) == *old(delegate_input_token_account)
                    &&& *final(vault_input_token_account) == *old(vault_input_token_account)
                } else {
                    &&& *final(config) == (Config { last_trade_timestamp: now, ..*old(config) })
                    &&& final(delegate_input_token_account).amount == old(
                        delegate_input_token_account,
                    ).amount - params.in_amount
                    &&& final(vault_input_token_account).amount == old(
                        vault_input_token_account,
                    ).amount + params.in_amount
                }
            },
        },
{
    if !access.is_granted {
        return Err(ErrorCode::AccessNotGranted);
    }
    validate_and_transfer_input(
        operator,
        config,
        vault,
        delegate_input_token_account,
        input_mint,
        vault_input_token_account,
        params.in_amount,
        params.delegate,
        now,
    )?;
    let receiver_output_token_account = derive_associated_token_address(&user, &output_mint);
    if !contains_account_key(remaining_accounts, receiver_output_token_account) {
        return Err(ErrorCode::ReceiverTokenAccountNotFound);
    }
    let expected = jupiter_program_id();
    if jupiter_program != expected {
        return Err(ErrorCode::TargetProgramMismatch);
    }
    Ok(prepare_cross_program_accounts(remaining_accounts, vault))
}

/// As `spec_swap_error`, with the user's canonical output account derived
/// under the explicitly chosen token program.
pub open spec fn spec_jupiter_swap_error(
    operator: Identity,
    config: Config,
    vault: Identity,
    access: Access,
    delegate_account: TokenAccountState,
    input_mint: Identity,
    vault_input: TokenAccountState,
    user: Identity,
    output_mint: Identity,
    output_mint_program: Identity,
    jupiter_program: Identity,
    remaining: Seq<AccountRef>,
    in_amount: u64,
    delegate: Identity,
    now: i64,
) -> Option<ErrorCode> {
    if !access.is_granted {
        Some(ErrorCode::AccessNotGranted)
    } else {
        match spec_validate_and_transfer_error(
            operator,
            config,
            vault,
            delegate_account,
            input_mint,
            vault_input,
            delegate,
            in_amount,
            now,
        ) {
            Some(e) => Some(e),
            None => {
                if !spec_contains_key(
                    remaining,
                    associated_token_key_for_program(user, output_mint, output_mint_program),
                ) {
                    Some(ErrorCode::ReceiverTokenAccountNotFound)
                } else if jupiter_program != spec_jupiter_program_id() {
                    Some(ErrorCode::TargetProgramMismatch)
                } else {
                    None
                }
            },
        }
    }
}

/// The aggregator-route swap variant: as `process_swap`, but the user's
/// canonical output account is derived under the request's own token
/// program.
pub fn process_jupiter_swap(
    operator: Identity,
    config: &mut Config,
    vault: Identity,
    access: &Access,
    user: Identity,
    delegate_input_token_account: &mut TokenAccountState,
    input_mint: Identity,
    vault_input_token_account: &mut TokenAccountState,
    output_mint: Identity,
    output_mint_program: Identity,
    jupiter_program: Identity,
    remaining_accounts: &Vec<AccountRef>,
    params: &JupiterSwapParams,
    now: i64,
) -> (r: Result<(Vec<AccountMeta>, Vec<AccountRef>), ErrorCode>)
    requires
        old(config).wf(),
        old(config).last_trade_timestamp + old(config).cooldown_duration <= i64::MAX,
        old(delegate_input_token_account).key != old(vault_input_token_account).key,
    ensures
        match r {
            Ok(plan) => {
                &&& spec_jupiter_swap_error(
                    operator,
                    *old(config),
                    vault,
                    *access,
                    *old(delegate_input_token_account),
                    input_mint,
                    *old(vault_input_token_account),
                    user,
                    output_mint,
                    output_mint_program,
                    jupiter_program,
                    remaining_accounts@,
                    params.in_amount,
                    params.delegate,
                    now,
                ) is None
                &&& plan.0@ == spec_account_metas(remaining_accounts@, vault)
                &&& plan.1@ == spec_dedup_accounts(remaining_accounts@)
                &&& *final(config) == (Config { last_trade_timestamp: now, ..*old(config) })
                &&& final(delegate_input_token_account).amount == old(
                    delegate_input_token_account,
                ).amount - params.in_amount
                &&& final(vault_input_token_account).amount == old(
                    vault_input_token_account,
                ).amount + params.in_amount
                &&& *final(delegate_input_token_account) == (TokenAccountState {
                    amount: final(delegate_input_token_account).amount,
                    delegated_amount: final(delegate_input_token_account).delegated_amount,
                    ..*old(delegate_input_token_account)
                })
                &&& *final(vault_input_token_account) == (TokenAccountState {
                    amount: final(vault_input_token_account).amount,
                    ..*old(vault_input_token_account)
                })
            },
            Err(e) => {
                &&& Some(e) == spec_jupiter_swap_error(
                    operator,
                    *old(config),
                    vault,
                    *access,
                    *old(delegate_input_token_account),
                    input_mint,
                    *old(vault_input_token_account),
                    user,
                    output_mint,
                    output_mint_program,
                    jupiter_program,
                    remaining_accounts@,
                    params.in_amount,
                    params.delegate,
                    now,
                )
                &&& if !access.is_granted || spec_validate_and_transfer_error(
                    operator,
                    *old(config),
                    vault,
                    *old(delegate_input_token_account),
                    input_mint,
                    *old(vault_input_token_account),
                    params.delegate,
                    params.in_amount,
                    now,
                ) is Some {
                    &&& *final(config) == *old(config)
                    &&& *final(delegate_input_token_account) == *old(delegate_input_token_account)
                    &&& *final(vault_input_token_account) == *old(vault_input_token_account)
                } else {
                    &&& *final(config) == (Config { last_trade_timestamp: now, ..*old(config) })
                    &&& final(delegate_input_token_account).amount == old(
                        delegate_input_token_account,
                    ).amount - params.in_amount
                    &&& final(vault_input_token_account).amount == old(
                        vault_input_token_account,
                    ).amount + params.in_amount
                }
            },
        },
{
    if !access.is_granted {
        return Err(ErrorCode::AccessNotGranted);
    }
    validate_and_transfer_input(
        operator,
        config,
        vault,
        delegate_input_token_account,
        input_mint,
        vault_input_token_account,
        params.in_amount,
        params.delegate,
        now,
    )?;
    let receiver_output_token_account = derive_associated_token_address_with_program_id(
        &user,
        &output_mint,
        &output_mint_program,
    );
    if !contains_account_key(remaining_accounts, receiver_output_token_account) {
        return Err(ErrorCode::ReceiverTokenAccountNotFound);
    }
    let expected = jupiter_program_id();
    if jupiter_program != expected {
        return Err(ErrorCode::TargetProgramMismatch);
    }
    Ok(prepare_cross_program_accounts(remaining_accounts, vault))
}

/// The first failure of a shared-accounts route request, or `None`: access
/// flag, reduced gate and pull, the registry's identity check, then
/// receiver presence at the supplied receiver account.
pub open spec fn spec_shared_accounts_route_v2_error(
    operator: Identity,
    config: Config,
    vault: Identity,
    access: Access,
    delegate_account: TokenAccountState,
    vault_input: TokenAccountState,
    receiver_output_token_account: Identity,
    jupiter_program: Identity,
    remaining: Seq<AccountRef>,
    in_amount: u64,
    now: i64,
) -> Option<ErrorCode> {
    if !access.is_granted {
        Some(ErrorCode::AccessNotGranted)
    } else {
        match spec_check_and_transfer_error(
            operator,
            config,
            vault,
            delegate_account,
            vault_input,
            in_amount,
            now,
        ) {
            Some(e) => Some(e),
            None => {
                if jupiter_program != spec_jupiter_program_id() {
                    Some(ErrorCode::TargetProgramMismatch)
                } else if !spec_contains_key(remaining, receiver_output_token_account) {
                    Some(ErrorCode::ReceiverTokenAccountNotFound)
                } else {
                    None
                }
            },
        }
    }
}

/// The shared-accounts route variant: reduced gate and pull, the registry's
/// identity check, the receiver-presence check at the supplied receiver
/// account, and the call description with repeated addresses dropped.
pub fn process_shared_accounts_route_v2(
    operator: Identity,
    config: &mut Config,
    vault: Identity,
    access: &Access,
    delegate_input_token_account: &mut TokenAccountState,
    vault_input_token_account: &mut TokenAccountState,
    receiver_output_token_account: Identity,
    jupiter_program: Identity,
    remaining_accounts: &Vec<AccountRef>,
    args: &SharedAccountsRouteV2Args,
    now: i64,
) -> (r: Result<(Vec<AccountMeta>, Vec<AccountRef>), ErrorCode>)
    requires
        old(config).wf(),
        old(config).last_trade_timestamp + old(config).cooldown_duration <= i64::MAX,
        old(delegate_input_token_account).key != old(vault_input_token_account).key,
    ensures
        match r {
            Ok(plan) => {
                &&& spec_shared_accounts_route_v2_error(
                    operator,
                    *old(config),
                    vault,
                    *access,
                    *old(delegate_input_token_account),
                    *old(vault_input_token_account),
                    receiver_output_token_account,
                    jupiter_program,
                    remaining_accounts@,
                    args.in_amount,
                    now,
                ) is None
                &&& plan.0@ == spec_account_metas(remaining_accounts@, vault)
                &&& plan.1@ == spec_dedup_accounts(remaining_accounts@)
                &&& *final(config) == (Config { last_trade_timestamp: now, ..*old(config) })
                &&& final(delegate_input_token_account).amount == old(
                    delegate_input_token_account,
                ).amount - args.in_amount
                &&& final(vault_input_token_account).amount == old(
                    vault_input_token_account,
                ).amount + args.in_amount
                &&& *final(delegate_input_token_account) == (TokenAccountState {
                    amount: final(delegate_input_token_account).amount,
                    delegated_amount: final(delegate_input_token_account).delegated_amount,
                    ..*old(delegate_input_token_account)
                })
                &&& *final(vault_input_token_account) == (TokenAccountState {
                    amount: final(vault_input_token_account).amount,
                    ..*old(vault_input_token_account)
                })
            },
            Err(e) => {
                &&& Some(e) == spec_shared_accounts_route_v2_error(
                    operator,
                    *old(config),
                    vault,
                    *access,
                    *old(delegate_input_token_account),
                    *old(vault_input_token_account),
                    receiver_output_token_account,
                    jupiter_program,
                    remaining_accounts@,
                    args.in_amount,
                    now,
                )
                &&& if !access.is_granted || spec_check_and_transfer_error(
                    operator,
                    *old(config),
                    vault,
                    *old(delegate_input_token_account),
                    *old(vault_input_token_account),
                    args.in_amount,
                    now,
                ) is Some {
                    &&& *final(config) == *old(config)
                    &&& *final(delegate_input_token_account) == *old(delegate_input_token_account)
                    &&& *final(vault_input_token_account) == *old(vault_input_token_account)
                } else {
                    &&& *final(config) == (Config { last_trade_timestamp: now, ..*old(config) })
                    &&& final(delegate_input_token_account).amount == old(
                        delegate_input_token_account,
                    ).amount - args.in_amount
                    &&& final(vault_input_token_account).amount == old(
                        vault_input_token_account,
                    ).amount + args.in_amount
                }
            },
        },
{
    if !access.is_granted {
        return Err(ErrorCode::AccessNotGranted);
    }
    check_and_transfer(
        operator,
        config,
        vault,
        delegate_input_token_account,
        vault_input_token_account,
        args.in_amount,
        now,
    )?;
    let expected = jupiter_program_id();
    if jupiter_program != expected {
        return Err(ErrorCode::TargetProgramMismatch);
    }
    if !contains_account_key(remaining_accounts, receiver_output_token_account) {
        return Err(ErrorCode::ReceiverTokenAccountNotFound);
    }
    Ok(prepare_cpi_accounts(remaining_accounts, vault))
}

/// The fixed accounts an order-engine fill addresses, in the order the
/// order-engine program expects them.
#[derive(Clone, Copy, Debug, PartialEq, Eq, Structural)]
pub struct FillOrderAccounts {
    pub maker: Identity,
    pub taker_input_mint_token_account: Identity,
    pub maker_input_mint_token_account: Identity,
    pub taker_output_mint_token_account: Identity,
    pub maker_output_mint_token_account: Identity,
    pub input_mint: Identity,
    pub input_mint_program: Identity,
    pub output_mint: Identity,
    pub output_mint_program: Identity,
    pub system_program: Identity,
}

/// The call description of an order-engine fill: the vault as signing
/// taker, the maker as second signer, the four leg token accounts, the
/// mints and their programs, the system program, and then the auxiliary
/// accounts with their own reported flags.
pub open spec fn spec_fill_order_metas(
    vault: Identity,
    accounts: FillOrderAccounts,
    remaining: Seq<AccountRef>,
) -> Seq<AccountMeta> {
    seq![
        AccountMeta { pubkey: vault, is_signer: true, is_writable: true },
        AccountMeta { pubkey: accounts.maker, is_signer: true, is_writable: true },
        AccountMeta {
            pubkey: accounts.taker_input_mint_token_account,
            is_signer: false,
            is_writable: true,
        },
        AccountMeta {
            pubkey: accounts.maker_input_mint_token_account,
            is_signer: false,
            is_writable: true,
        },
        AccountMeta {
            pubkey: accounts.taker_output_mint_token_account,
            is_signer: false,
            is_writable: false,
        },
        AccountMeta {
            pubkey: accounts.maker_output_mint_token_account,
            is_signer: false,
            is_writable: true,
        },
        AccountMeta { pubkey: accounts.input_mint, is_signer: false, is_writable: false },
        AccountMeta { pubkey: accounts.input_mint_program, is_signer: false, is_writable: false },
        AccountMeta { pubkey: accounts.output_mint, is_signer: false, is_writable: false },
        AccountMeta { pubkey: accounts.output_mint_program, is_signer: false, is_writable: false },
        AccountMeta { pubkey: accounts.system_program, is_signer: false, is_writable: false },
    ] + remaining.map_values(
        |acc: AccountRef|
            AccountMeta { pubkey: acc.key, is_signer: acc.is_signer, is_writable: acc.is_writable },
    )
}

/// The first failure of an order-engine fill, or `None`: access flag,
/// reduced gate and pull, then the registry's identity check.
pub open spec fn spec_fill_order_engine_error(
    operator: Identity,
    config: Config,
    vault: Identity,
    access: Access,
    delegate_account: TokenAccountState,
    vault_input: TokenAccountState,
    order_engine_program: Identity,
    in_amount: u64,
    now: i64,
) -> Option<ErrorCode> {
    if !access.is_granted {
        Some(ErrorCode::AccessNotGranted)
    } else {
        match spec_check_and_transfer_error(
            operator,
            config,
            vault,
            delegate_account,
            vault_input,
            in_amount,
            now,
        ) {
            Some(e) => Some(e),
            None => {
                if order_engine_program != spec_jupiter_order_engine_program_id() {
                    Some(ErrorCode::TargetProgramMismatch)
                } else {
                    None
                }
            },
        }
    }
}

/// An order-engine fill: reduced gate and pull, the registry's identity
/// check against the order-engine program, and the fill's call description
/// — the vault projected in as the signing taker.
pub fn process_fill_order_engine(
    operator: Identity,
    config: &mut Config,
    vault: Identity,
    access: &Access,
    delegate_input_token_account: &mut TokenAccountState,
    vault_input_token_account: &mut TokenAccountState,
    accounts: &FillOrderAccounts,
    order_engine_program: Identity,
    remaining_accounts: &Vec<AccountRef>,
    params: &FillOrderEngineParams,
    now: i64,
) -> (r: Result<Vec<AccountMeta>, ErrorCode>)
    requires
        old(config).wf(),
        old(config).last_trade_timestamp + old(config).cooldown_duration <= i64::MAX,
        old(delegate_input_token_account).key != old(vault_input_token_account).key,
    ensures
        match r {
            Ok(metas) => {
                &&& spec_fill_order_engine_error(
                    operator,
                    *old(config),
                    vault,
                    *access,
                    *old(delegate_input_token_account),
                    *old(vault_input_token_account),
                    order_engine_program,
                    params.in_amount,
                    now,
                ) is None
                &&& metas@ == spec_fill_order_metas(vault, *accounts, remaining_accounts@)
                &&& *final(config) == (Config { last_trade_timestamp: now, ..*old(config) })
                &&& final(delegate_input_token_account).amount == old(
                    delegate_input_token_account,
                ).amount - params.in_amount
                &&& final(vault_input_token_account).amount == old(
                    vault_input_token_account,
                ).amount + params.in_amount
                &&& *final(delegate_input_token_account) == (TokenAccountState {
                    amount: final(delegate_input_token_account).amount,
                    delegated_amount: final(delegate_input_token_account).delegated_amount,
                    ..*old(delegate_input_token_account)
                })
                &&& *final(vault_input_token_account) == (TokenAccountState {
                    amount: final(vault_input_token_account).amount,
                    ..*old(vault_input_token_account)
                })
            },
            Err(e) => {
                &&& Some(e) == spec_fill_order_engine_error(
                    operator,
                    *old(config),
                    vault,
                    *access,
                    *old(delegate_input_token_account),
                    *old(vault_input_token_account),
                    order_engine_program,
                    params.in_amount,
                    now,
                )
                &&& if !access.is_granted || spec_check_and_transfer_error(
                    operator,
                    *old(config),
                    vault,
                    *old(delegate_input_token_account),
                    *old(vault_input_token_account),
                    params.in_amount,
                    now,
                ) is Some {
                    &&& *final(config) == *old(config)
                    &&& *final(delegate_input_token_account) == *old(delegate_input_token_account)
                    &&& *final(vault_input_token_account) == *old(vault_input_token_account)
                } else {
                    &&& *final(config) == (Config { last_trade_timestamp: now, ..*old(config) })
                    &&& final(delegate_input_token_account).amount == old(
                        delegate_input_token_account,
                    ).amount - params.in_amount
                    &&& final(vault_input_token_account).amount == old(
                        vault_input_token_account,
                    ).amount + params.in_amount
                }
            },
        },
{
    if !access.is_granted {
        return Err(ErrorCode::AccessNotGranted);
    }
    check_and_transfer(
        operator,
        config,
        vault,
        delegate_input_token_account,
        vault_input_token_account,
        params.in_amount,
        now,
    )?;
    let expected = jupiter_order_engine_program_id();
    if order_engine_program != expected {
        return Err(ErrorCode::TargetProgramMismatch);
    }
    let mut metas: Vec<AccountMeta> = Vec::new();
    metas.push(AccountMeta { pubkey: vault, is_signer: true, is_writable: true });
    metas.push(AccountMeta { pubkey: accounts.maker, is_signer: true, is_writable: true });
    metas.push(
        AccountMeta {
            pubkey: accounts.taker_input_mint_token_account,
            is_signer: false,
            is_writable: true,
        },
    );
    metas.push(
        AccountMeta {
            pubkey: accounts.maker_input_mint_token_account,
            is_signer: false,
            is_writable: true,
        },
    );
    metas.push(
        AccountMeta {
            pubkey: accounts.taker_output_mint_token_account,
            is_signer: false,
            is_writable: false,
        },
    );
    metas.push(
        AccountMeta {
            pubkey: accounts.maker_output_mint_token_account,
            is_signer: false,
            is_writable: true,
        },
    );
    metas.push(AccountMeta { pubkey: accounts.input_mint, is_signer: false, is_writable: false });
    metas.push(
        AccountMeta { pubkey: accounts.input_mint_program, is_signer: false, is_writable: false },
    );
    metas.push(AccountMeta { pubkey: accounts.output_mint, is_signer: false, is_writable: false });
    metas.push(
        AccountMeta { pubkey: accounts.output_mint_program, is_signer: false, is_writable: false },
    );
    metas.push(
        AccountMeta { pubkey: accounts.system_program, is_signer: false, is_writable: false },
    );
    let fixed_len = metas.len();
    let ghost fixed_metas = metas@;
    let mut i: usize = 0;
    while i < remaining_accounts.len()
        invariant
            i <= remaining_accounts@.len(),
            metas@ == fixed_metas + remaining_accounts@.subrange(0, i as int).map_values(
                |acc: AccountRef|
                    AccountMeta {
                        pubkey: acc.key,
                        is_signer: acc.is_signer,
                        is_writable: acc.is_writable,
                    },
            ),
        decreases remaining_accounts@.len() - i,
    {
        let acc = remaining_accounts[i];
        metas.push(
            AccountMeta { pubkey: acc.key, is_signer: acc.is_signer, is_writable: acc.is_writable },
        );
        proof {
            let f = |acc: AccountRef|
                AccountMeta {
                    pubkey: acc.key,
                    is_signer: acc.is_signer,
                    is_writable: acc.is_writable,
                };
            let pre = remaining_accounts@.subrange(0, i as int);
            let cur = remaining_accounts@.subrange(0, i + 1);
            assert(cur == pre.push(remaining_accounts@[i as int]));
            assert(cur.map_values(f) =~= pre.map_values(f).push(
                f(remaining_accounts@[i as int]),
            ));
        }
        i = i + 1;
    }
    proof {
        assert(remaining_accounts@.subrange(0, remaining_accounts@.len() as int)
            == remaining_accounts@);
        assert(fixed_metas == spec_fill_order_metas(vault, *accounts, Seq::<AccountRef>::empty())
            .subrange(0, 11)) by {
            assert(spec_fill_order_metas(vault, *accounts, Seq::<AccountRef>::empty()) =~= seq![
                AccountMeta { pubkey: vault, is_signer: true, is_writable: true },
                AccountMeta { pubkey: accounts.maker, is_signer: true, is_writable: true },
                AccountMeta {
                    pubkey: accounts.taker_input_mint_token_account,
                    is_signer: false,
                    is_writable: true,
                },
                AccountMeta {
                    pubkey: accounts.maker_input_mint_token_account,
                    is_signer: false,
                    is_writable: true,
                },
                AccountMeta {
                    pubkey: accounts.taker_output_mint_token_account,
                    is_signer: false,
                    is_writable: false,
                },
                AccountMeta {
                    pubkey: accounts.maker_output_mint_token_account,
                    is_signer: false,
                    is_writable: true,
                },
                AccountMeta { pubkey: accounts.input_mint, is_signer: false, is_writable: false },
                AccountMeta {
                    pubkey: accounts.input_mint_program,
                    is_signer: false,
                    is_writable: false,
                },
                AccountMeta { pubkey: accounts.output_mint, is_signer: false, is_writable: false },
                AccountMeta {
                    pubkey: accounts.output_mint_program,
                    is_signer: false,
                    is_writable: false,
                },
                AccountMeta { pubkey: accounts.system_program, is_signer: false, is_writable: false },
            ]);
        }
        assert(metas@ =~= spec_fill_order_metas(vault, *accounts, remaining_accounts@));
    }
    Ok(metas)
}

/// The first failure of an alternate-aggregator swap with settlement, or
/// `None`: access flag, gate and pull, the registry's identity check, then
/// settlement of the observed output delta.
pub open spec fn spec_dflow_aggregator_error(
    operator: Identity,
    config: Config,
    vault: Identity,
    access: Access,
    delegate_account: TokenAccountState,
    input_mint: Identity,
    vault_input: TokenAccountState,
    vault_output: TokenAccountState,
    receiver_output: TokenAccountState,
    dflow_program: Identity,
    observed_output_balance: u64,
    in_amount: u64,
    delegate: Identity,
    now: i64,
) -> Option<ErrorCode> {
    if !access.is_granted {
        Some(ErrorCode::AccessNotGranted)
    } else {
        match spec_validate_and_transfer_error(
            operator,
            config,
            vault,
            delegate_account,
            input_mint,
            vault_input,
            delegate,
            in_amount,
            now,
        ) {
            Some(e) => Some(e),
            None => {
                if dflow_program != spec_dflow_program_id() {
                    Some(ErrorCode::TargetProgramMismatch)
                } else {
                    spec_settle_error(
                        TokenAccountState { amount: observed_output_balance, ..vault_output },
                        receiver_output,
                        vault_output.amount,
                    )
                }
            },
        }
    }
}

/// An alternate-aggregator swap, settled: gate and pull, the registry's
/// identity check, the external call abstracted by the output balance it
/// leaves behind, and the observed delta forwarded to the receiver.
pub fn process_dflow_aggregator(
    operator: Identity,
    config: &mut Config,
    vault: Identity,
    access: &Access,
    delegate_input_token_account: &mut TokenAccountState,
    input_mint: Identity,
    vault_input_token_account: &mut TokenAccountState,
    vault_output_token_account: &mut TokenAccountState,
    receiver_output_token_account: &mut TokenAccountState,
    dflow_program: Identity,
    remaining_accounts: &Vec<AccountRef>,
    args: &DflowAggregatorParams,
    now: i64,
    observed_output_balance: u64,
) -> (r: Result<(Vec<AccountMeta>, Vec<AccountRef>), ErrorCode>)
    requires
        old(config).wf(),
        old(config).last_trade_timestamp + old(config).cooldown_duration <= i64::MAX,
        old(delegate_input_token_account).key != old(vault_input_token_account).key,
        old(vault_output_token_account).key != old(receiver_output_token_account).key,
        old(vault_output_token_account).owner == vault,
    ensures
        match r {
            Ok(plan) => {
                &&& spec_dflow_aggregator_error(
                    operator,
                    *old(config),
                    vault,
                    *access,
                    *old(delegate_input_token_account),
                    input_mint,
                    *old(vault_input_token_account),
                    *old(vault_output_token_account),
                    *old(receiver_output_token_account),
                    dflow_program,
                    observed_output_balance,
                    args.in_amount,
                    args.delegate,
                    now,
                ) is None
                &&& plan.0@ == spec_account_metas(remaining_accounts@, vault)
                &&& plan.1@ == spec_dedup_accounts(remaining_accounts@)
                &&& *final(config) == (Config { last_trade_timestamp: now, ..*old(config) })
                &&& final(delegate_input_token_account).amount == old(
                    delegate_input_token_account,
                ).amount - args.in_amount
                &&& final(vault_input_token_account).amount == old(
                    vault_input_token_account,
                ).amount + args.in_amount
                &&& final(vault_output_token_account).amount == old(
                    vault_output_token_account,
                ).amount
                &&& final(receiver_output_token_account).amount == old(
                    receiver_output_token_account,
                ).amount + observed_output_balance - old(vault_output_token_account).amount
                &&& *final(delegate_input_token_account) == (TokenAccountState {
                    amount: final(delegate_input_token_account).amount,
                    delegated_amount: final(delegate_input_token_account).delegated_amount,
                    ..*old(delegate_input_token_account)
                })
                &&& *final(vault_input_token_account) == (TokenAccountState {
                    amount: final(vault_input_token_account).amount,
                    ..*old(vault_input_token_account)
                })
                &&& *final(vault_output_token_account) == *old(vault_output_token_account)
                &&& *final(receiver_output_token_account) == (TokenAccountState {
                    amount: final(receiver_output_token_account).amount,
                    ..*old(receiver_output_token_account)
                })
            },
            Err(e) => {
                &&& Some(e) == spec_dflow_aggregator_error(
                    operator,
                    *old(config),
                    vault,
                    *access,
                    *old(delegate_input_token_account),
                    input_mint,
                    *old(vault_input_token_account),
                    *old(vault_output_token_account),
                    *old(receiver_output_token_account),
                    dflow_program,
                    observed_output_balance,
                    args.in_amount,
                    args.delegate,
                    now,
                )
                &&& if !access.is_granted || spec_validate_and_transfer_error(
                    operator,
                    *old(config),
                    vault,
                    *old(delegate_input_token_account),
                    input_mint,
                    *old(vault_input_token_account),
                    args.delegate,
                    args.in_amount,
                    now,
                ) is Some {
                    &&& *final(config) == *old(config)
                    &&& *final(delegate_input_token_account) == *old(delegate_input_token_account)
                    &&& *final(vault_input_token_account) == *old(vault_input_token_account)
                    &&& *final(vault_output_token_account) == *old(vault_output_token_account)
                    &&& *final(receiver_output_token_account) == *old(
                        receiver_output_token_account,
                    )
                } else {
                    &&& *final(config) == (Config { last_trade_timestamp: now, ..*old(config) })
                    &&& final(delegate_input_token_account).amount == old(
                        delegate_input_token_account,
                    ).amount - args.in_amount
                    &&& final(vault_input_token_account).amount == old(
                        vault_input_token_account,
                    ).amount + args.in_amount
                    &&& *final(receiver_output_token_account) == *old(
                        receiver_output_token_account,
                    )
                }
            },
        },
{
    if !access.is_granted {
        return Err(ErrorCode::AccessNotGranted);
    }
    validate_and_transfer_input(
        operator,
        config,
        vault,
        delegate_input_token_account,
        input_mint,
        vault_input_token_account,
        args.in_amount,
        args.delegate,
        now,
    )?;
    let expected = dflow_program_id();
    execute_cross_program_invocation(
        dflow_program,
        expected,
        remaining_accounts,
        vault,
        observed_output_balance,
        vault_output_token_account,
        receiver_output_token_account,
    )
}

/// The first failure of a liquidity-pool request, or `None`: access flag,
/// payload parse, gate and pull against the parsed input amount, the
/// registry's identity check, then settlement of the observed output delta.
pub open spec fn spec_jupiter_perpetuals_error(
    operator: Identity,
    config: Config,
    vault: Identity,
    access: Access,
    delegate_account: TokenAccountState,
    input_mint: Identity,
    vault_input: TokenAccountState,
    vault_output: TokenAccountState,
    receiver_output: TokenAccountState,
    perpetuals_program: Identity,
    observed_output_balance: u64,
    data: Seq<u8>,
    delegate: Identity,
    now: i64,
) -> Option<ErrorCode> {
    if !access.is_granted {
        Some(ErrorCode::AccessNotGranted)
    } else {
        match spec_parse_perpetuals_action(data) {
            None => Some(ErrorCode::InvalidInstructionData),
            Some(action) => {
                match spec_validate_and_transfer_error(
                    operator,
                    config,
                    vault,
                    delegate_account,
                    input_mint,
                    vault_input,
                    delegate,
                    action.spec_input_amount(),
                    now,
                ) {
                    Some(e) => Some(e),
                    None => {
                        if perpetuals_program != spec_perpetuals_program_id() {
                            Some(ErrorCode::TargetProgramMismatch)
                        } else {
                            spec_settle_error(
                                TokenAccountState {
                                    amount: observed_output_balance,
                                    ..vault_output
                                },
                                receiver_output,
                                vault_output.amount,
                            )
                        }
                    },
                }
            },
        }
    }
}

/// A liquidity-pool request: the payload is parsed into its operation, the
/// gate and pull run against the operation's own declared input amount, the
/// target is held to the registry, and the observed output delta is
/// forwarded to the receiver.
pub fn process_jupiter_perpetuals(
    operator: Identity,
    config: &mut Config,
    vault: Identity,
    access: &Access,
    delegate_input_token_account: &mut TokenAccountState,
    input_mint: Identity,
    vault_input_token_account: &mut TokenAccountState,
    vault_output_token_account: &mut TokenAccountState,
    receiver_output_token_account: &mut TokenAccountState,
    perpetuals_program: Identity,
    remaining_accounts: &Vec<AccountRef>,
    args: &JupiterPerpetualsParams,
    now: i64,
    observed_output_balance: u64,
) -> (r: Result<(Vec<AccountMeta>, Vec<AccountRef>), ErrorCode>)
    requires
        old(config).wf(),
        old(config).last_trade_timestamp + old(config).cooldown_duration <= i64::MAX,
        old(delegate_input_token_account).key != old(vault_input_token_account).key,
        old(vault_output_token_account).key != old(receiver_output_token_account).key,
        old(vault_output_token_account).owner == vault,
    ensures
        match r {
            Ok(plan) => {
                &&& spec_jupiter_perpetuals_error(
                    operator,
                    *old(config),
                    vault,
                    *access,
                    *old(delegate_input_token_account),
                    input_mint,
                    *old(vault_input_token_account),
                    *old(vault_output_token_account),
                    *old(receiver_output_token_account),
                    perpetuals_program,
                    observed_output_balance,
                    args.data@,
                    args.delegate,
                    now,
                ) is None
                &&& plan.0@ == spec_account_metas(remaining_accounts@, vault)
                &&& plan.1@ == spec_dedup_accounts(remaining_accounts@)
                &&& *final(config) == (Config { last_trade_timestamp: now, ..*old(config) })
                &&& final(delegate_input_token_account).amount == old(
                    delegate_input_token_account,
                ).amount - spec_parse_perpetuals_action(
                    args.data@,
                ).unwrap().spec_input_amount()
                &&& final(vault_input_token_account).amount == old(
                    vault_input_token_account,
                ).amount + spec_parse_perpetuals_action(args.data@).unwrap().spec_input_amount()
                &&& final(vault_output_token_account).amount == old(
                    vault_output_token_account,
                ).amount
                &&& final(receiver_output_token_account).amount == old(
                    receiver_output_token_account,
                ).amount + observed_output_balance - old(vault_output_token_account).amount
                &&& *final(delegate_input_token_account) == (TokenAccountState {
                    amount: final(delegate_input_token_account).amount,
                    delegated_amount: final(delegate_input_token_account).delegated_amount,
                    ..*old(delegate_input_token_account)
                })
                &&& *final(vault_input_token_account) == (TokenAccountState {
                    amount: final(vault_input_token_account).amount,
                    ..*old(vault_input_token_account)
                })
                &&& *final(vault_output_token_account) == *old(vault_output_token_account)
                &&& *final(receiver_output_token_account) == (TokenAccountState {
                    amount: final(receiver_output_token_account).amount,
                    ..*old(receiver_output_token_account)
                })
            },
            Err(e) => {
                &&& Some(e) == spec_jupiter_perpetuals_error(
                    operator,
                    *old(config),
                    vault,
                    *access,
                    *old(delegate_input_token_account),
                    input_mint,
                    *old(vault_input_token_account),
                    *old(vault_output_token_account),
                    *old(receiver_output_token_account),
                    perpetuals_program,
                    observed_output_balance,
                    args.data@,
                    args.delegate,
                    now,
                )
                &&& *final(receiver_output_token_account) == *old(receiver_output_token_account)
                &&& if !access.is_granted || spec_parse_perpetuals_action(args.data@) is None
                    || spec_validate_and_transfer_error(
                    operator,
                    *old(config),
                    vault,
                    *old(delegate_input_token_account),
                    input_mint,
                    *old(vault_input_token_account),
                    args.delegate,
                    spec_parse_perpetuals_action(args.data@).unwrap().spec_input_amount(),
                    now,
                ) is Some {
                    &&& *final(config) == *old(config)
                    &&& *final(delegate_input_token_account) == *old(delegate_input_token_account)
                    &&& *final(vault_input_token_account) == *old(vault_input_token_account)
                    &&& *final(vault_output_token_account) == *old(vault_output_token_account)
                } else {
                    &&& *final(config) == (Config { last_trade_timestamp: now, ..*old(config) })
                    &&& final(delegate_input_token_account).amount == old(
                        delegate_input_token_account,
                    ).amount - spec_parse_perpetuals_action(
                        args.data@,
                    ).unwrap().spec_input_amount()
                    &&& final(vault_input_token_account).amount == old(
                        vault_input_token_account,
                    ).amount + spec_parse_perpetuals_action(
                        args.data@,
                    ).unwrap().spec_input_amount()
                }
            },
        },
{
    if !access.is_granted {
        return Err(ErrorCode::AccessNotGranted);
    }
    let action = match args.get_action() {
        Ok(a) => a,
        Err(e) => {
            return Err(e);
        },
    };
    validate_and_transfer_input(
        operator,
        config,
        vault,
        delegate_input_token_account,
        input_mint,
        vault_input_token_account,
        action.get_input_amount(),
        args.delegate,
        now,
    )?;
    let expected = perpetuals_program_id();
    execute_cross_program_invocation(
        perpetuals_program,
        expected,
        remaining_accounts,
        vault,
        observed_output_balance,
        vault_output_token_account,
        receiver_output_token_account,
    )
}

} // verus!
