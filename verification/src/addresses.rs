use crate::identity::Identity;
use vstd::prelude::*;

verus! {

/// The canonical ("associated") token-account address that the ledger's
/// standard derivation assigns to `owner` for the asset `mint`, under the
/// default token program. The derivation hashes the inputs, so only its
/// determinism is stated: the same owner and mint always give the same key.
pub uninterp spec fn associated_token_key(owner: Identity, mint: Identity) -> Identity;

/// As `associated_token_key`, with the token program chosen explicitly.
pub uninterp spec fn associated_token_key_for_program(
    owner: Identity,
    mint: Identity,
    token_program: Identity,
) -> Identity;

/// Relies on anchor_spl::associated_token::get_associated_token_address:
/// a deterministic, pure derivation of the canonical token-account address
/// from the wallet and mint addresses alone (a hash-based program-derived
/// address; a viable derivation is assumed to exist, as the ledger does).
#[verifier::external_body]
pub fn derive_associated_token_address(owner: &Identity, mint: &Identity) -> (r: Identity)
    ensures
        r == associated_token_key(*owner, *mint),
{
    let o = anchor_lang::prelude::Pubkey::new_from_array(
        owner.to_bytes().as_slice().try_into().unwrap(),
    );
    let m = anchor_lang::prelude::Pubkey::new_from_array(
        mint.to_bytes().as_slice().try_into().unwrap(),
    );
    let k = anchor_spl::associated_token::get_associated_token_address(&o, &m);
    Identity::from_bytes(&k.to_bytes())
}

/// Relies on anchor_spl::associated_token::get_associated_token_address_with_program_id:
/// the same deterministic derivation, with the token program given explicitly.
#[verifier::external_body]
pub fn derive_associated_token_address_with_program_id(
    owner: &Identity,
    mint: &Identity,
    token_program: &Identity,
) -> (r: Identity)
    ensures
        r == associated_token_key_for_program(*owner, *mint, *token_program),
{
    let o = anchor_lang::prelude::Pubkey::new_from_array(
        owner.to_bytes().as_slice().try_into().unwrap(),
    );
    let m = anchor_lang::prelude::Pubkey::new_from_array(
        mint.to_bytes().as_slice().try_into().unwrap(),
    );
    let p = anchor_lang::prelude::Pubkey::new_from_array(
        token_program.to_bytes().as_slice().try_into().unwrap(),
    );
    let k = anchor_spl::associated_token::get_associated_token_address_with_program_id(&o, &m, &p);
    Identity::from_bytes(&k.to_bytes())
}

} // verus!
