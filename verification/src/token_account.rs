use crate::error::ErrorCode;
use crate::identity::Identity;
use vstd::prelude::*;

verus! {

/// The part of an on-ledger token account that the engine's logic reads:
/// its address, its owner, the asset it holds, its balance, and the standing
/// spending delegation, if any.
#[derive(Clone, Copy, Debug, PartialEq, Eq, Structural)]
pub struct TokenAccountState {
    pub key: Identity,
    pub owner: Identity,
    pub mint: Identity,
    pub amount: u64,
    pub delegate: Option<Identity>,
    pub delegated_amount: u64,
}

/// Why the ledger's token-transfer primitive would reject moving `amount`
/// out of `from` into `to` under `authority`, or `None` if it succeeds.
///
/// The owner moves freely within the balance; a delegate moves at most the
/// delegated amount. A transfer that would overflow the destination is
/// rejected by the ledger and surfaces here as `SwapFailed`.
pub open spec fn spec_transfer_error(
    from: TokenAccountState,
    to: TokenAccountState,
    authority: Identity,
    amount: u64,
) -> Option<ErrorCode> {
    if authority != from.owner && from.delegate != Some(authority) {
        Some(ErrorCode::DelegateNotApproved)
    } else if authority != from.owner && from.delegated_amount < amount {
        Some(ErrorCode::InsufficientDelegatedAmount)
    } else if from.amount < amount {
        Some(ErrorCode::InsufficientFunds)
    } else if to.amount + amount > u64::MAX {
        Some(ErrorCode::SwapFailed)
    } else {
        None
    }
}

/// The balance-moving primitive of the surrounding ledger, modelled on plain
/// values: moves `amount` of `from`'s asset into `to`, authorized either by
/// `from`'s owner or by its standing delegate, whose allowance it consumes.
pub fn transfer_tokens(
    from: &mut TokenAccountState,
    to: &mut TokenAccountState,
    authority: Identity,
    amount: u64,
) -> (r: Result<(), ErrorCode>)
    requires
        old(from).key != old(to).key,
    ensures
        match r {
            Ok(()) => {
                &&& spec_transfer_error(*old(from), *old(to), authority, amount) is None
                &&& final(from).amount == old(from).amount - amount
                &&& final(to).amount == old(to).amount + amount
                &&& final(from).delegated_amount == if authority == old(from).owner {
                    old(from).delegated_amount
                } else {
                    (old(from).delegated_amount - amount) as u64
                }
                &&& *final(from) == (TokenAccountState {
                    amount: final(from).amount,
                    delegated_amount: final(from).delegated_amount,
                    ..*old(from)
                })
                &&& *final(to) == (TokenAccountState { amount: final(to).amount, ..*old(to) })
            },
            Err(e) => {
                &&& Some(e) == spec_transfer_error(*old(from), *old(to), authority, amount)
                &&& *final(from) == *old(from)
                &&& *final(to) == *old(to)
            },
        },
{
    let as_owner = authority == from.owner;
    if !as_owner && from.delegate != Some(authority) {
        return Err(ErrorCode::DelegateNotApproved);
    }
    if !as_owner && from.delegated_amount < amount {
        return Err(ErrorCode::InsufficientDelegatedAmount);
    }
    if from.amount < amount {
        return Err(ErrorCode::InsufficientFunds);
    }
    if amount > u64::MAX - to.amount {
        return Err(ErrorCode::SwapFailed);
    }
    from.amount = from.amount - amount;
    to.amount = to.amount + amount;
    if !as_owner {
        from.delegated_amount = from.delegated_amount - amount;
    }
    Ok(())
}

} // verus!
