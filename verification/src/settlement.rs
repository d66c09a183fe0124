use crate::error::ErrorCode;
use crate::identity::Identity;
use crate::token_account::{transfer_tokens, TokenAccountState};
use vstd::prelude::*;

verus! {

/// Why settlement rejects, or `None` if it goes through. The vault's output
/// balance falling below the pre-call snapshot is a defect (an external
/// protocol took more than it was handed), never silently clamped; a
/// forwarding that would overflow the receiver is rejected by the ledger.
pub open spec fn spec_settle_error(
    vault_output: TokenAccountState,
    receiver: TokenAccountState,
    initial_output_balance: u64,
) -> Option<ErrorCode> {
    if vault_output.amount < initial_output_balance {
        Some(ErrorCode::SwapFailed)
    } else if receiver.amount + vault_output.amount - initial_output_balance > u64::MAX {
        Some(ErrorCode::SwapFailed)
    } else {
        None
    }
}

/// Balance-delta settlement: forwards to the receiver exactly what the
/// preceding opaque call added to the vault's output account.
///
/// `initial_output_balance` is the snapshot taken before the call. The
/// forwarded amount is the non-negative delta against that snapshot — never
/// more — and a zero delta forwards nothing and is not an error. A negative
/// delta aborts as a defect. The transfer runs under the vault's own
/// authority over its holding account.
pub fn transfer_output_tokens(
    vault_output_token_account: &mut TokenAccountState,
    receiver_output_token_account: &mut TokenAccountState,
    vault: Identity,
    initial_output_balance: u64,
) -> (r: Result<(), ErrorCode>)
    requires
        old(vault_output_token_account).key != old(receiver_output_token_account).key,
        old(vault_output_token_account).owner == vault,
    ensures
        match r {
            Ok(()) => {
                &&& spec_settle_error(
                    *old(vault_output_token_account),
                    *old(receiver_output_token_account),
                    initial_output_balance,
                ) is None
                &&& final(vault_output_token_account).amount == initial_output_balance
                &&& final(receiver_output_token_account).amount == old(
                    receiver_output_token_account,
                ).amount + old(vault_output_token_account).amount - initial_output_balance
                &&& final(receiver_output_token_account).amount - old(
                    receiver_output_token_account,
                ).amount <= old(vault_output_token_account).amount - initial_output_balance
                &&& *final(vault_output_token_account) == (TokenAccountState {
                    amount: initial_output_balance,
                    ..*old(vault_output_token_account)
                })
                &&& *final(receiver_output_token_account) == (TokenAccountState {
                    amount: final(receiver_output_token_account).amount,
                    ..*old(receiver_output_token_account)
                })
            },
            Err(e) => {
                &&& Some(e) == spec_settle_error(
                    *old(vault_output_token_account),
                    *old(receiver_output_token_account),
                    initial_output_balance,
                )
                &&& *final(vault_output_token_account) == *old(vault_output_token_account)
                &&& *final(receiver_output_token_account) == *old(receiver_output_token_account)
            },
        },
{
    if vault_output_token_account.amount < initial_output_balance {
        return Err(ErrorCode::SwapFailed);
    }
    let output_token_balance_delta = vault_output_token_account.amount - initial_output_balance;
    if output_token_balance_delta > 0 {
        match transfer_tokens(
            vault_output_token_account,
            receiver_output_token_account,
            vault,
            output_token_balance_delta,
        ) {
            Ok(()) => Ok(()),
            Err(e) => Err(e),
        }
    } else {
        Ok(())
    }
}

} // verus!
