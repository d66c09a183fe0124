use crate::dispatch::AccountRef;
use crate::error::ErrorCode;
use crate::gate::{spec_validate_and_transfer_error, validate_and_transfer_input};
use crate::identity::Identity;
use crate::registry::StepAction;
use crate::settlement::transfer_output_tokens;
use crate::state::{Access, Config};
use crate::token_account::TokenAccountState;
use vstd::prelude::*;

verus! {

/// One hop of a two-hop swap: the whitelisted operation, how many auxiliary
/// accounts follow the target program in the shared account list, the opaque
/// payload, the input bound, and the minimum acceptable output.
#[derive(Clone, Debug, PartialEq, Eq)]
pub struct StepParams {
    pub action: StepAction,
    pub account_counts: u8,
    pub data: Vec<u8>,
    pub amount_in: u64,
    pub expect_amount_out: u64,
}

/// Per-call parameters of a two-hop swap.
#[derive(Clone, Debug, PartialEq, Eq)]
pub struct TwoHopParams {
    pub delegate: Identity,
    pub step1: StepParams,
    pub step2: StepParams,
}

/// What one hop's opaque external call left behind: the vault's input- and
/// output-asset balances as re-read after the call returned.
#[derive(Clone, Copy, Debug, PartialEq, Eq, Structural)]
pub struct StepObservation {
    pub input_balance_after: u64,
    pub output_balance_after: u64,
}

/// Why a hop is rejected before its external call is issued: the shared
/// account list must hold the target program and the hop's declared account
/// window, and the target must be the identity the registry expects for the
/// hop's operation.
pub open spec fn spec_step_precall_error(
    args: StepParams,
    remaining: Seq<AccountRef>,
    cursor: int,
) -> Option<ErrorCode> {
    if cursor >= remaining.len() {
        Some(ErrorCode::InvalidInstructionData)
    } else if remaining[cursor].key != args.action.spec_expected_program_id() {
        Some(ErrorCode::TargetProgramMismatch)
    } else if cursor + 1 + args.account_counts > remaining.len() {
        Some(ErrorCode::InvalidInstructionData)
    } else {
        None
    }
}

/// Why a hop is rejected after its external call, judged only by the
/// observed balance deltas: the call must not consume more input than the
/// hop declared, must not shrink the output balance, and must add at least
/// the declared minimum output.
pub open spec fn spec_step_postcall_error(
    args: StepParams,
    input_balance_before: u64,
    output_balance_before: u64,
    observed: StepObservation,
) -> Option<ErrorCode> {
    if observed.input_balance_after < input_balance_before && input_balance_before
        - observed.input_balance_after > args.amount_in {
        Some(ErrorCode::InvalidOperator)
    } else if observed.output_balance_after < output_balance_before {
        Some(ErrorCode::InvalidOperator)
    } else if observed.output_balance_after - output_balance_before < args.expect_amount_out {
        Some(ErrorCode::TwoHopMaxSlippageOutputAmountExceeded)
    } else {
        None
    }
}

/// A hop's first failure, before or after its external call.
pub open spec fn spec_step_error(
    args: StepParams,
    remaining: Seq<AccountRef>,
    cursor: int,
    input_balance_before: u64,
    output_balance_before: u64,
    observed: StepObservation,
) -> Option<ErrorCode> {
    match spec_step_precall_error(args, remaining, cursor) {
        Some(e) => Some(e),
        None => spec_step_postcall_error(
            args,
            input_balance_before,
            output_balance_before,
            observed,
        ),
    }
}

/// The input amount a hop's call actually consumed, judged by the vault's
/// input balance around it; a balance that did not fall consumed nothing.
pub open spec fn spec_step_in_diff(input_balance_before: u64, input_balance_after: u64) -> u64 {
    if input_balance_after < input_balance_before {
        (input_balance_before - input_balance_after) as u64
    } else {
        0
    }
}

/// One hop of a two-hop swap, the external call abstracted by its observed
/// effect.
///
/// The hop's target program stands at `cursor` in the shared account list,
/// followed by its declared window of `account_counts` accounts. The target
/// is held against the registry's expected identity for the hop's operation
/// and the dispatch aborts on mismatch, before any transfer. After the call,
/// the observed balances are held against the hop's declared input bound and
/// minimum output; on success the realized (input, output) deltas are
/// returned.
pub fn process_step(
    args: &StepParams,
    remaining_accounts: &Vec<AccountRef>,
    cursor: usize,
    observed: StepObservation,
    vault_input_token_account: &mut TokenAccountState,
    vault_output_token_account: &mut TokenAccountState,
) -> (r: Result<(u64, u64), ErrorCode>)
    ensures
        match r {
            Ok((amount_in_diff, amount_out_diff)) => {
                &&& spec_step_error(
                    *args,
                    remaining_accounts@,
                    cursor as int,
                    old(vault_input_token_account).amount,
                    old(vault_output_token_account).amount,
                    observed,
                ) is None
                &&& amount_in_diff == spec_step_in_diff(
                    old(vault_input_token_account).amount,
                    observed.input_balance_after,
                )
                &&& amount_out_diff == observed.output_balance_after - old(
                    vault_output_token_account,
                ).amount
                &&& *final(vault_input_token_account) == (TokenAccountState {
                    amount: observed.input_balance_after,
                    ..*old(vault_input_token_account)
                })
                &&& *final(vault_output_token_account) == (TokenAccountState {
                    amount: observed.output_balance_after,
                    ..*old(vault_output_token_account)
                })
            },
            Err(e) => {
                &&& Some(e) == spec_step_error(
                    *args,
                    remaining_accounts@,
                    cursor as int,
                    old(vault_input_token_account).amount,
                    old(vault_output_token_account).amount,
                    observed,
                )
                &&& if spec_step_precall_error(*args, remaining_accounts@, cursor as int) is Some {
                    &&& *final(vault_input_token_account) == *old(vault_input_token_account)
                    &&& *final(vault_output_token_account) == *old(vault_output_token_account)
                } else {
                    &&& *final(vault_input_token_account) == (TokenAccountState {
                        amount: observed.input_balance_after,
                        ..*old(vault_input_token_account)
                    })
                    &&& *final(vault_output_token_account) == (TokenAccountState {
                        amount: observed.output_balance_after,
                        ..*old(vault_output_token_account)
                    })
                }
            },
        },
{
    if cursor >= remaining_accounts.len() {
        return Err(ErrorCode::InvalidInstructionData);
    }
    let program_account = remaining_accounts[cursor];
    let expected = args.action.expected_program_id();
    if program_account.key != expected {
        return Err(ErrorCode::TargetProgramMismatch);
    }
    let account_counts = args.account_counts as usize;
    if account_counts > remaining_accounts.len() - (cursor + 1) {
        return Err(ErrorCode::InvalidInstructionData);
    }
    let step_in_balance_before = vault_input_token_account.amount;
    let step_out_balance_before = vault_output_token_account.amount;
    // The hop's external call runs here in the deployed system; `observed`
    // carries the balances it left behind.
    vault_input_token_account.amount = observed.input_balance_after;
    vault_output_token_account.amount = observed.output_balance_after;

    let amount_in_diff: u64 = if observed.input_balance_after < step_in_balance_before {
        let diff = step_in_balance_before - observed.input_balance_after;
        if diff > args.amount_in {
            return Err(ErrorCode::InvalidOperator);
        }
        diff
    } else {
        0
    };
    if observed.output_balance_after < step_out_balance_before {
        return Err(ErrorCode::InvalidOperator);
    }
    let amount_out_diff = observed.output_balance_after - step_out_balance_before;
    if amount_out_diff < args.expect_amount_out {
        return Err(ErrorCode::TwoHopMaxSlippageOutputAmountExceeded);
    }
    Ok((amount_in_diff, amount_out_diff))
}

/// The first failure of a whole two-hop request, or `None` if every stage
/// goes through: the access flag, the authorization and input pull, each hop's
/// checks, and the three closing forwardings (second hop's output to its
/// receiver, first hop's residual output to its receiver, unconsumed input
/// back to the delegation source).
pub open spec fn spec_two_hop_error(
    operator: Identity,
    config: Config,
    vault: Identity,
    access: Access,
    delegate_account: TokenAccountState,
    input_one: TokenAccountState,
    intermediate: TokenAccountState,
    output_two: TokenAccountState,
    receiver_one: TokenAccountState,
    receiver_two: TokenAccountState,
    input_mint_one: Identity,
    remaining: Seq<AccountRef>,
    args: TwoHopParams,
    now: i64,
    step1_observed: StepObservation,
    step2_observed: StepObservation,
) -> Option<ErrorCode> {
    if !access.is_granted {
        Some(ErrorCode::AccessNotGranted)
    } else {
        match spec_validate_and_transfer_error(
            operator,
            config,
            vault,
            delegate_account,
            input_mint_one,
            input_one,
            args.delegate,
            args.step1.amount_in,
            now,
        ) {
            Some(e) => Some(e),
            None => {
                let input_one_pulled = (input_one.amount + args.step1.amount_in) as u64;
                match spec_step_error(
                    args.step1,
                    remaining,
                    0,
                    input_one_pulled,
                    intermediate.amount,
                    step1_observed,
                ) {
                    Some(e) => Some(e),
                    None => {
                        let cursor2 = 1 + args.step1.account_counts as int;
                        match spec_step_error(
                            args.step2,
                            remaining,
                            cursor2,
                            step1_observed.output_balance_after,
                            output_two.amount,
                            step2_observed,
                        ) {
                            Some(e) => Some(e),
                            None => {
                                if receiver_two.amount + step2_observed.output_balance_after
                                    > u64::MAX {
                                    Some(ErrorCode::SwapFailed)
                                } else if receiver_one.amount
                                    + step2_observed.input_balance_after > u64::MAX {
                                    Some(ErrorCode::SwapFailed)
                                } else if delegate_account.amount - args.step1.amount_in
                                    + step1_observed.input_balance_after > u64::MAX {
                                    Some(ErrorCode::SwapFailed)
                                } else {
                                    None
                                }
                            },
                        }
                    },
                }
            },
        }
    }
}

/// A whole two-hop request: gate and pull once against the first hop's
/// declared input, run both hops over one shared auxiliary-account list
/// (the second hop consumes the first hop's output asset from the shared
/// intermediate holding account), then unconditionally reconcile — forward
/// the second hop's output and the first hop's residual output to their
/// receivers and refund unconsumed input to the delegation source.
///
/// On any failure the abort signal is raised; the host applies the unit of
/// work all-or-nothing, so a partial pull left behind by a later failure
/// (the contract states it) is reverted by the host, never refunded by this
/// engine. If authorization itself fails, nothing at all has changed.
pub fn process_two_hop(
    operator: Identity,
    config: &mut Config,
    vault: Identity,
    access: &Access,
    delegate_input_token_account: &mut TokenAccountState,
    vault_input_token_account_one: &mut TokenAccountState,
    vault_intermediate_token_account: &mut TokenAccountState,
    vault_output_token_account_two: &mut TokenAccountState,
    receiver_output_token_account_one: &mut TokenAccountState,
    receiver_output_token_account_two: &mut TokenAccountState,
    input_mint_one: Identity,
    remaining_accounts: &Vec<AccountRef>,
    args: &TwoHopParams,
    now: i64,
    step1_observed: StepObservation,
    step2_observed: StepObservation,
) -> (r: Result<(), ErrorCode>)
    requires
        old(config).wf(),
        old(config).last_trade_timestamp + old(config).cooldown_duration <= i64::MAX,
        old(delegate_input_token_account).key != old(vault_input_token_account_one).key,
        old(vault_input_token_account_one).owner == vault,
        old(vault_intermediate_token_account).owner == vault,
        old(vault_output_token_account_two).owner == vault,
        old(vault_output_token_account_two).key != old(receiver_output_token_account_two).key,
        old(vault_intermediate_token_account).key != old(receiver_output_token_account_one).key,
    ensures
        match r {
            Ok(()) => {
                &&& spec_two_hop_error(
                    operator,
                    *old(config),
                    vault,
                    *access,
                    *old(delegate_input_token_account),
                    *old(vault_input_token_account_one),
                    *old(vault_intermediate_token_account),
                    *old(vault_output_token_account_two),
                    *old(receiver_output_token_account_one),
                    *old(receiver_output_token_account_two),
                    input_mint_one,
                    remaining_accounts@,
                    *args,
                    now,
                    step1_observed,
                    step2_observed,
                ) is None
                &&& *final(config) == (Config { last_trade_timestamp: now, ..*old(config) })
                &&& final(vault_input_token_account_one).amount == 0
                &&& final(vault_intermediate_token_account).amount == 0
                &&& final(vault_output_token_account_two).amount == 0
                &&& final(receiver_output_token_account_two).amount == old(
                    receiver_output_token_account_two,
                ).amount + step2_observed.output_balance_after
                &&& final(receiver_output_token_account_one).amount == old(
                    receiver_output_token_account_one,
                ).amount + step2_observed.input_balance_after
                &&& final(delegate_input_token_account).amount == old(
                    delegate_input_token_account,
                ).amount - args.step1.amount_in + step1_observed.input_balance_after
                &&& *final(vault_input_token_account_one) == (TokenAccountState {
                    amount: 0,
                    ..*old(vault_input_token_account_one)
                })
                &&& *final(vault_intermediate_token_account) == (TokenAccountState {
                    amount: 0,
                    ..*old(vault_intermediate_token_account)
                })
                &&& *final(vault_output_token_account_two) == (TokenAccountState {
                    amount: 0,
                    ..*old(vault_output_token_account_two)
                })
                &&& *final(receiver_output_token_account_one) == (TokenAccountState {
                    amount: final(receiver_output_token_account_one).amount,
                    ..*old(receiver_output_token_account_one)
                })
                &&& *final(receiver_output_token_account_two) == (TokenAccountState {
                    amount: final(receiver_output_token_account_two).amount,
                    ..*old(receiver_output_token_account_two)
                })
                &&& *final(delegate_input_token_account) == (TokenAccountState {
                    amount: final(delegate_input_token_account).amount,
                    delegated_amount: final(delegate_input_token_account).delegated_amount,
                    ..*old(delegate_input_token_account)
                })
                &&& final(delegate_input_token_account).delegated_amount == if vault == old(
                    delegate_input_token_account,
                ).owner {
                    old(delegate_input_token_account).delegated_amount
                } else {
                    (old(delegate_input_token_account).delegated_amount
                        - args.step1.amount_in) as u64
                }
            },
            Err(e) => {
                &&& Some(e) == spec_two_hop_error(
                    operator,
                    *old(config),
                    vault,
                    *access,
                    *old(delegate_input_token_account),
                    *old(vault_input_token_account_one),
                    *old(vault_intermediate_token_account),
                    *old(vault_output_token_account_two),
                    *old(receiver_output_token_account_one),
                    *old(receiver_output_token_account_two),
                    input_mint_one,
                    remaining_accounts@,
                    *args,
                    now,
                    step1_observed,
                    step2_observed,
                )
                &&& if !access.is_granted || spec_validate_and_transfer_error(
                    operator,
                    *old(config),
                    vault,
                    *old(delegate_input_token_account),
                    input_mint_one,
                    *old(vault_input_token_account_one),
                    args.delegate,
                    args.step1.amount_in,
                    now,
                ) is Some {
                    // authorization was refused: nothing has changed at all
                    &&& *final(config) == *old(config)
                    &&& *final(delegate_input_token_account) == *old(delegate_input_token_account)
                    &&& *final(vault_input_token_account_one) == *old(
                        vault_input_token_account_one,
                    )
                    &&& *final(vault_intermediate_token_account) == *old(
                        vault_intermediate_token_account,
                    )
                    &&& *final(vault_output_token_account_two) == *old(
                        vault_output_token_account_two,
                    )
                    &&& *final(receiver_output_token_account_one) == *old(
                        receiver_output_token_account_one,
                    )
                    &&& *final(receiver_output_token_account_two) == *old(
                        receiver_output_token_account_two,
                    )
                } else {
                    // a later stage failed: the pull stands until the host
                    // reverts the whole unit of work
                    &&& *final(config) == (Config { last_trade_timestamp: now, ..*old(config) })
                    &&& final(delegate_input_token_account).amount == old(
                        delegate_input_token_account,
                    ).amount - args.step1.amount_in
                }
            },
        },
{
    if !access.is_granted {
        return Err(ErrorCode::AccessNotGranted);
    }
    validate_and_transfer_input(
        operator,
        config,
        vault,
        delegate_input_token_account,
        input_mint_one,
        vault_input_token_account_one,
        args.step1.amount_in,
        args.delegate,
        now,
    )?;
    let _step1_diffs = process_step(
        &args.step1,
        remaining_accounts,
        0,
        step1_observed,
        vault_input_token_account_one,
        vault_intermediate_token_account,
    )?;
    let cursor2 = 1 + args.step1.account_counts as usize;
    let _step2_diffs = process_step(
        &args.step2,
        remaining_accounts,
        cursor2,
        step2_observed,
        vault_intermediate_token_account,
        vault_output_token_account_two,
    )?;
    transfer_output_tokens(
        vault_output_token_account_two,
        receiver_output_token_account_two,
        vault,
        0,
    )?;
    transfer_output_tokens(
        vault_intermediate_token_account,
        receiver_output_token_account_one,
        vault,
        0,
    )?;
    transfer_output_tokens(
        vault_input_token_account_one,
        delegate_input_token_account,
        vault,
        0,
    )?;
    Ok(())
}

} // verus!
