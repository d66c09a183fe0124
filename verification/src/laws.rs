use crate::addresses::associated_token_key;
use crate::dispatch::AccountRef;
use crate::error::ErrorCode;
use crate::gate::{spec_gate_error, spec_validate_and_transfer_error};
use crate::identity::Identity;
use crate::state::{Access, Config};
use crate::swaps::spec_swap_error;
use crate::token_account::TokenAccountState;
use crate::two_hop::{
    spec_step_error, spec_step_in_diff, spec_step_precall_error, spec_two_hop_error,
    StepObservation, StepParams, TwoHopParams,
};
use vstd::prelude::*;

verus! {

/// Once a request is accepted at time `now`, any second request against the
/// same configuration within `cooldown_duration` seconds is rejected with
/// the timing error, provided it passes every check that precedes the
/// timing one. Acceptance writes `now` into the configuration, so the next
/// window opens only after `now + cooldown_duration`.
pub proof fn lemma_cooldown_throttles_second_request(
    config_after: Config,
    operator: Identity,
    vault: Identity,
    delegate_account: TokenAccountState,
    input_mint: Identity,
    delegate_pubkey: Identity,
    in_amount: u64,
    now2: i64,
)
    requires
        now2 <= config_after.last_trade_timestamp + config_after.cooldown_duration,
        config_after.is_authorized_operator(operator),
        config_after.is_initialized,
        !config_after.is_paused,
        delegate_account.delegate == Some(vault),
        delegate_account.delegated_amount >= in_amount,
        associated_token_key(delegate_pubkey, input_mint) == delegate_account.key,
    ensures
        spec_gate_error(
            operator,
            config_after,
            vault,
            delegate_account,
            input_mint,
            delegate_pubkey,
            in_amount,
            now2,
        ) == Some(ErrorCode::SwapTooFrequent),
{
}

/// Once the cooldown window has reopened, acceptance is owed: a request
/// whose caller, configuration, delegation proof and balances are in order,
/// made strictly after `last_trade_timestamp + cooldown_duration`, passes
/// the whole authorization-and-pull chain — and its contract then forces
/// `Ok` with the last-trade time advanced to the request's own clock
/// reading.
pub proof fn lemma_gate_accepts_once_window_reopens(
    config: Config,
    operator: Identity,
    vault: Identity,
    delegate_account: TokenAccountState,
    vault_account: TokenAccountState,
    input_mint: Identity,
    delegate_pubkey: Identity,
    in_amount: u64,
    now: i64,
)
    requires
        config.is_authorized_operator(operator),
        config.is_initialized,
        !config.is_paused,
        delegate_account.delegate == Some(vault),
        delegate_account.delegated_amount >= in_amount,
        associated_token_key(delegate_pubkey, input_mint) == delegate_account.key,
        now > config.last_trade_timestamp + config.cooldown_duration,
        delegate_account.amount >= in_amount,
        vault_account.amount + in_amount <= u64::MAX,
    ensures
        spec_validate_and_transfer_error(
            operator,
            config,
            vault,
            delegate_account,
            input_mint,
            vault_account,
            delegate_pubkey,
            in_amount,
            now,
        ) is None,
{
}

/// A dispatch whose supplied target identity differs from the registry's
/// expected identity for the step's operation aborts before its external
/// call — and so before any transfer that call could cause.
pub proof fn lemma_dispatch_aborts_on_identity_mismatch(
    args: StepParams,
    remaining: Seq<AccountRef>,
    cursor: int,
    input_balance_before: u64,
    output_balance_before: u64,
    observed: StepObservation,
)
    requires
        0 <= cursor < remaining.len(),
        remaining[cursor].key != args.action.spec_expected_program_id(),
    ensures
        spec_step_precall_error(args, remaining, cursor) == Some(ErrorCode::TargetProgramMismatch),
        spec_step_error(
            args,
            remaining,
            cursor,
            input_balance_before,
            output_balance_before,
            observed,
        ) == Some(ErrorCode::TargetProgramMismatch),
{
}

/// In a two-hop run that goes through, with the intermediate holding
/// account empty at entry, the second hop cannot have consumed more than
/// the first hop produced: its input is drawn from the very account the
/// first hop's output landed in, so its realized input is bounded by the
/// first hop's realized output. An observation claiming more cannot belong
/// to an accepted run.
pub proof fn lemma_two_hop_second_hop_consumes_at_most_first_hop_output(
    operator: Identity,
    config: Config,
    vault: Identity,
    access: Access,
    delegate_account: TokenAccountState,
    input_one: TokenAccountState,
    intermediate: TokenAccountState,
    output_two: TokenAccountState,
    receiver_one: TokenAccountState,
    receiver_two: TokenAccountState,
    input_mint_one: Identity,
    remaining: Seq<AccountRef>,
    args: TwoHopParams,
    now: i64,
    step1_observed: StepObservation,
    step2_observed: StepObservation,
)
    requires
        intermediate.amount == 0,
        spec_two_hop_error(
            operator,
            config,
            vault,
            access,
            delegate_account,
            input_one,
            intermediate,
            output_two,
            receiver_one,
            receiver_two,
            input_mint_one,
            remaining,
            args,
            now,
            step1_observed,
            step2_observed,
        ) is None,
    ensures
        spec_step_in_diff(
            step1_observed.output_balance_after,
            step2_observed.input_balance_after,
        ) <= step1_observed.output_balance_after - intermediate.amount,
{
}

/// Granting a user access and then revoking it restores "not granted", and
/// a subsequent swap attempt under that access record is rejected at the
/// access check, whatever the rest of the request looks like.
pub proof fn lemma_grant_revoke_round_trip(
    user: Identity,
    bump: u8,
    operator: Identity,
    config: Config,
    vault: Identity,
    delegate_account: TokenAccountState,
    input_mint: Identity,
    vault_input: TokenAccountState,
    output_mint: Identity,
    jupiter_program: Identity,
    remaining: Seq<AccountRef>,
    in_amount: u64,
    delegate: Identity,
    now: i64,
)
    ensures
        ({
            // what a successful grant writes, then what a successful revoke
            // writes over it
            let granted = Access { user, is_granted: true, bump };
            let revoked = Access { is_granted: false, ..granted };
            &&& !revoked.is_granted
            &&& spec_swap_error(
                operator,
                config,
                vault,
                revoked,
                delegate_account,
                input_mint,
                vault_input,
                user,
                output_mint,
                jupiter_program,
                remaining,
                in_amount,
                delegate,
                now,
            ) == Some(ErrorCode::AccessNotGranted)
        }),
{
}

} // verus!
