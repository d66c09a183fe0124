use crate::error::ErrorCode;
use crate::identity::Identity;
use crate::settlement::{spec_settle_error, transfer_output_tokens};
use crate::token_account::TokenAccountState;
use vstd::prelude::*;

verus! {

/// One caller-supplied auxiliary account reference, as handed to a dispatch:
/// its address and the flags the runtime reports for it.
#[derive(Clone, Copy, Debug, PartialEq, Eq, Structural)]
pub struct AccountRef {
    pub key: Identity,
    pub is_signer: bool,
    pub is_writable: bool,
}

/// One entry of a call description: the address, whether the call is signed
/// for it, and whether it may be written.
#[derive(Clone, Copy, Debug, PartialEq, Eq, Structural)]
pub struct AccountMeta {
    pub pubkey: Identity,
    pub is_signer: bool,
    pub is_writable: bool,
}

/// The call-description entry built from one auxiliary account: exactly the
/// entry matching the vault is marked as a signer — this is how the vault's
/// derived authority is projected into the external call — and the caller's
/// declared mutability passes through unchanged.
pub open spec fn spec_account_meta(acc: AccountRef, vault: Identity) -> AccountMeta {
    AccountMeta { pubkey: acc.key, is_signer: acc.key == vault, is_writable: acc.is_writable }
}

pub open spec fn spec_account_metas(accs: Seq<AccountRef>, vault: Identity) -> Seq<AccountMeta> {
    accs.map_values(|a: AccountRef| spec_account_meta(a, vault))
}

/// Whether some entry of `accs` carries the address `key`.
pub open spec fn spec_contains_key(accs: Seq<AccountRef>, key: Identity) -> bool {
    exists|i: int| 0 <= i < accs.len() && accs[i].key == key
}

/// `accs` with every repeated address dropped, keeping the first occurrence:
/// a call context must not reference the same mutable resource twice.
pub open spec fn spec_dedup_accounts(accs: Seq<AccountRef>) -> Seq<AccountRef>
    decreases accs.len(),
{
    if accs.len() == 0 {
        Seq::empty()
    } else {
        let prefix = spec_dedup_accounts(accs.drop_last());
        if spec_contains_key(accs.drop_last(), accs.last().key) {
            prefix
        } else {
            prefix.push(accs.last())
        }
    }
}

/// Tests whether some entry of `accs` carries the address `key`.
pub fn contains_account_key(accs: &Vec<AccountRef>, key: Identity) -> (r: bool)
    ensures
        r == spec_contains_key(accs@, key),
{
    let mut i: usize = 0;
    while i < accs.len()
        invariant
            i <= accs@.len(),
            forall|j: int| 0 <= j < i ==> accs@[j].key != key,
        decreases accs@.len() - i,
    {
        if accs[i].key == key {
            return true;
        }
        i = i + 1;
    }
    false
}

/// Builds the call description for a dispatch: one meta per auxiliary
/// account, signing exactly for the vault, plus the account list itself with
/// repeated addresses dropped (first occurrence kept).
pub fn prepare_cross_program_accounts(
    remaining_accounts: &Vec<AccountRef>,
    vault: Identity,
) -> (r: (Vec<AccountMeta>, Vec<AccountRef>))
    ensures
        r.0@ == spec_account_metas(remaining_accounts@, vault),
        r.1@ == spec_dedup_accounts(remaining_accounts@),
{
    let mut metas: Vec<AccountMeta> = Vec::new();
    let mut infos: Vec<AccountRef> = Vec::new();
    let mut i: usize = 0;
    while i < remaining_accounts.len()
        invariant
            i <= remaining_accounts@.len(),
            metas@ == spec_account_metas(remaining_accounts@.subrange(0, i as int), vault),
            infos@ == spec_dedup_accounts(remaining_accounts@.subrange(0, i as int)),
        decreases remaining_accounts@.len() - i,
    {
        let acc = remaining_accounts[i];
        metas.push(AccountMeta {
            pubkey: acc.key,
            is_signer: acc.key == vault,
            is_writable: acc.is_writable,
        });
        let mut seen = false;
        let mut j: usize = 0;
        while j < i
            invariant
                j <= i,
                i < remaining_accounts@.len(),
                acc == remaining_accounts@[i as int],
                seen ==> exists|t: int|
                    0 <= t < j && remaining_accounts@[t].key == remaining_accounts@[i as int].key,
                !seen ==> forall|t: int|
                    0 <= t < j ==> remaining_accounts@[t].key != remaining_accounts@[i as int].key,
            decreases i - j,
        {
            if remaining_accounts[j].key == acc.key {
                seen = true;
            }
            j = j + 1;
        }
        proof {
            let sub = remaining_accounts@.subrange(0, i as int);
            let target = remaining_accounts@[i as int].key;
            if seen {
                let t = choose|t: int|
                    0 <= t < i && remaining_accounts@[t].key == target;
                assert(sub[t].key == target);
            } else {
                assert forall|t: int| 0 <= t < sub.len() implies sub[t].key != target by {
                    assert(sub[t] == remaining_accounts@[t]);
                }
            }
            assert(seen == spec_contains_key(sub, target));
        }
        if !seen {
            infos.push(acc);
        }
        proof {
            let pre = remaining_accounts@.subrange(0, i as int);
            let cur = remaining_accounts@.subrange(0, i + 1);
            assert(cur.drop_last() == pre);
            assert(cur.last() == remaining_accounts@[i as int]);
            assert(spec_account_metas(cur, vault) == spec_account_metas(pre, vault).push(
                spec_account_meta(remaining_accounts@[i as int], vault),
            )) by {
                assert(spec_account_metas(cur, vault) =~= spec_account_metas(pre, vault).push(
                    spec_account_meta(remaining_accounts@[i as int], vault),
                ));
            }
        }
        i = i + 1;
    }
    proof {
        assert(remaining_accounts@.subrange(0, remaining_accounts@.len() as int)
            == remaining_accounts@);
    }
    (metas, infos)
}

/// As `prepare_cross_program_accounts`: every dispatch hands the runtime a
/// call description with one meta per auxiliary account and an account list
/// purged of repeated addresses, since a call context must not reference
/// the same mutable resource twice.
pub fn prepare_cpi_accounts(remaining_accounts: &Vec<AccountRef>, vault: Identity) -> (r: (
    Vec<AccountMeta>,
    Vec<AccountRef>,
))
    ensures
        r.0@ == spec_account_metas(remaining_accounts@, vault),
        r.1@ == spec_dedup_accounts(remaining_accounts@),
{
    prepare_cross_program_accounts(remaining_accounts, vault)
}

/// Receiver-presence check, made before a dispatch: the declared receiver
/// token account must appear among the auxiliary accounts handed to the
/// external call, so that a call cannot silently omit the legitimate
/// receiver.
pub fn validate_receiver_token_account(
    remaining_accounts: &Vec<AccountRef>,
    receiver_token_account: Identity,
) -> (r: Result<(), ErrorCode>)
    ensures
        match r {
            Ok(()) => spec_contains_key(remaining_accounts@, receiver_token_account),
            Err(e) => {
                &&& e == ErrorCode::ReceiverTokenAccountNotFound
                &&& !spec_contains_key(remaining_accounts@, receiver_token_account)
            },
        },
{
    if contains_account_key(remaining_accounts, receiver_token_account) {
        Ok(())
    } else {
        Err(ErrorCode::ReceiverTokenAccountNotFound)
    }
}

/// As `validate_receiver_token_account`.
pub fn check_receiver_token_account(
    remaining_accounts: &Vec<AccountRef>,
    receiver_token_account: Identity,
) -> (r: Result<(), ErrorCode>)
    ensures
        match r {
            Ok(()) => spec_contains_key(remaining_accounts@, receiver_token_account),
            Err(e) => {
                &&& e == ErrorCode::ReceiverTokenAccountNotFound
                &&& !spec_contains_key(remaining_accounts@, receiver_token_account)
            },
        },
{
    validate_receiver_token_account(remaining_accounts, receiver_token_account)
}

/// Dispatch with settlement, the external call abstracted by its observed
/// effect: verifies the target against the registry's expected identity,
/// builds the call description, snapshots the vault's output balance, lets
/// the opaque call stand (its only trusted effect is
/// `observed_output_balance`, the vault output balance it leaves behind),
/// and forwards the resulting non-negative delta to the receiver.
///
/// On identity mismatch the dispatch aborts before any balance moves. On a
/// settlement failure the observed effect stands and the abort signal is
/// raised; the host's all-or-nothing guarantee reverts the unit of work.
pub fn execute_cross_program_invocation(
    target_program_id: Identity,
    expected_program_id: Identity,
    remaining_accounts: &Vec<AccountRef>,
    vault_key: Identity,
    observed_output_balance: u64,
    vault_output_token_account: &mut TokenAccountState,
    receiver_output_token_account: &mut TokenAccountState,
) -> (r: Result<(Vec<AccountMeta>, Vec<AccountRef>), ErrorCode>)
    requires
        old(vault_output_token_account).key != old(receiver_output_token_account).key,
        old(vault_output_token_account).owner == vault_key,
    ensures
        match r {
            Ok(plan) => {
                &&& target_program_id == expected_program_id
                &&& plan.0@ == spec_account_metas(remaining_accounts@, vault_key)
                &&& plan.1@ == spec_dedup_accounts(remaining_accounts@)
                &&& observed_output_balance >= old(vault_output_token_account).amount
                &&& final(vault_output_token_account).amount == old(
                    vault_output_token_account,
                ).amount
                &&& final(receiver_output_token_account).amount == old(
                    receiver_output_token_account,
                ).amount + observed_output_balance - old(vault_output_token_account).amount
                &&& *final(vault_output_token_account) == *old(vault_output_token_account)
                &&& *final(receiver_output_token_account) == (TokenAccountState {
                    amount: final(receiver_output_token_account).amount,
                    ..*old(receiver_output_token_account)
                })
            },
            Err(e) => {
                if target_program_id != expected_program_id {
                    &&& e == ErrorCode::TargetProgramMismatch
                    &&& *final(vault_output_token_account) == *old(vault_output_token_account)
                    &&& *final(receiver_output_token_account) == *old(
                        receiver_output_token_account,
                    )
                } else {
                    &&& Some(e) == spec_settle_error(
                        TokenAccountState {
                            amount: observed_output_balance,
                            ..*old(vault_output_token_account)
                        },
                        *old(receiver_output_token_account),
                        old(vault_output_token_account).amount,
                    )
                    &&& *final(vault_output_token_account) == (TokenAccountState {
                        amount: observed_output_balance,
                        ..*old(vault_output_token_account)
                    })
                    &&& *final(receiver_output_token_account) == *old(
                        receiver_output_token_account,
                    )
                }
            },
        },
{
    if target_program_id != expected_program_id {
        return Err(ErrorCode::TargetProgramMismatch);
    }
    let plan = prepare_cross_program_accounts(remaining_accounts, vault_key);
    let initial_output_balance = vault_output_token_account.amount;
    // The external call runs here in the deployed system; its only effect
    // this logic reads is the vault output balance it leaves behind.
    vault_output_token_account.amount = observed_output_balance;
    transfer_output_tokens(
        vault_output_token_account,
        receiver_output_token_account,
        vault_key,
        initial_output_balance,
    )?;
    Ok(plan)
}

} // verus!
