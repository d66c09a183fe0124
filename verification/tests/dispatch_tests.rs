use jupiter_delegate::{
    check_receiver_token_account, execute_cross_program_invocation, prepare_cpi_accounts,
    prepare_cross_program_accounts, transfer_output_tokens, validate_receiver_token_account,
    AccountMeta, AccountRef, ErrorCode, Identity, StepAction, TokenAccountState,
};

fn ident(n: u64) -> Identity {
    Identity { w0: n, w1: 0, w2: 0, w3: 0 }
}

fn acc(key: Identity, is_signer: bool, is_writable: bool) -> AccountRef {
    AccountRef { key, is_signer, is_writable }
}

#[test]
fn call_description_marks_only_the_vault_as_signer() {
    let vault = ident(3);
    let accounts = vec![
        acc(ident(10), true, true),
        acc(vault, false, true),
        acc(ident(11), false, false),
    ];
    let (metas, infos) = prepare_cross_program_accounts(&accounts, vault);
    assert_eq!(
        metas,
        vec![
            AccountMeta { pubkey: ident(10), is_signer: false, is_writable: true },
            AccountMeta { pubkey: vault, is_signer: true, is_writable: true },
            AccountMeta { pubkey: ident(11), is_signer: false, is_writable: false },
        ]
    );
    assert_eq!(infos, accounts);
}

#[test]
fn call_description_drops_repeated_addresses() {
    let vault = ident(3);
    let accounts = vec![
        acc(ident(10), false, true),
        acc(ident(11), false, false),
        acc(ident(10), false, true),
        acc(ident(12), false, false),
        acc(ident(11), false, false),
    ];
    let (metas, infos) = prepare_cross_program_accounts(&accounts, vault);
    // every entry keeps a meta, repeats included
    assert_eq!(metas.len(), 5);
    // the account list itself keeps only first occurrences
    assert_eq!(
        infos,
        vec![
            acc(ident(10), false, true),
            acc(ident(11), false, false),
            acc(ident(12), false, false),
        ]
    );
}

#[test]
fn cpi_call_description_also_drops_repeats() {
    let vault = ident(3);
    let accounts = vec![acc(ident(10), false, true), acc(ident(10), false, true)];
    let (metas, infos) = prepare_cpi_accounts(&accounts, vault);
    assert_eq!(metas.len(), 2);
    assert_eq!(infos, vec![acc(ident(10), false, true)]);
}

#[test]
fn receiver_presence_check() {
    let accounts = vec![acc(ident(10), false, true), acc(ident(11), false, false)];
    assert_eq!(validate_receiver_token_account(&accounts, ident(11)), Ok(()));
    assert_eq!(
        validate_receiver_token_account(&accounts, ident(12)),
        Err(ErrorCode::ReceiverTokenAccountNotFound)
    );
    assert_eq!(check_receiver_token_account(&accounts, ident(10)), Ok(()));
    assert_eq!(
        check_receiver_token_account(&Vec::new(), ident(10)),
        Err(ErrorCode::ReceiverTokenAccountNotFound)
    );
}

fn vault_out_account(vault: Identity, amount: u64) -> TokenAccountState {
    TokenAccountState {
        key: ident(20),
        owner: vault,
        mint: ident(21),
        amount,
        delegate: None,
        delegated_amount: 0,
    }
}

fn receiver_account(amount: u64) -> TokenAccountState {
    TokenAccountState {
        key: ident(22),
        owner: ident(4),
        mint: ident(21),
        amount,
        delegate: None,
        delegated_amount: 0,
    }
}

#[test]
fn settlement_forwards_exactly_the_delta() {
    let vault = ident(3);
    let mut vault_out = vault_out_account(vault, 700);
    let mut receiver = receiver_account(50);
    let r = transfer_output_tokens(&mut vault_out, &mut receiver, vault, 300);
    assert_eq!(r, Ok(()));
    assert_eq!(vault_out.amount, 300);
    assert_eq!(receiver.amount, 50 + 400);
}

#[test]
fn settlement_with_zero_delta_forwards_nothing() {
    let vault = ident(3);
    let mut vault_out = vault_out_account(vault, 300);
    let mut receiver = receiver_account(50);
    let r = transfer_output_tokens(&mut vault_out, &mut receiver, vault, 300);
    assert_eq!(r, Ok(()));
    assert_eq!(vault_out.amount, 300);
    assert_eq!(receiver.amount, 50);
}

#[test]
fn settlement_treats_negative_delta_as_defect() {
    let vault = ident(3);
    let mut vault_out = vault_out_account(vault, 100);
    let mut receiver = receiver_account(50);
    let r = transfer_output_tokens(&mut vault_out, &mut receiver, vault, 300);
    assert_eq!(r, Err(ErrorCode::SwapFailed));
    assert_eq!(vault_out.amount, 100);
    assert_eq!(receiver.amount, 50);
}

#[test]
fn dispatch_with_settlement_forwards_observed_delta() {
    let vault = ident(3);
    let target = ident(30);
    let mut vault_out = vault_out_account(vault, 10);
    let mut receiver = receiver_account(0);
    let accounts = vec![acc(vault, false, true), acc(ident(31), false, false)];
    let r = execute_cross_program_invocation(
        target,
        target,
        &accounts,
        vault,
        510,
        &mut vault_out,
        &mut receiver,
    );
    let (metas, _infos) = r.unwrap();
    assert!(metas[0].is_signer);
    assert_eq!(vault_out.amount, 10);
    assert_eq!(receiver.amount, 500);
}

#[test]
fn dispatch_aborts_on_identity_mismatch_before_any_transfer() {
    let vault = ident(3);
    let mut vault_out = vault_out_account(vault, 10);
    let mut receiver = receiver_account(0);
    let accounts = vec![acc(vault, false, true)];
    let r = execute_cross_program_invocation(
        ident(30),
        ident(31),
        &accounts,
        vault,
        510,
        &mut vault_out,
        &mut receiver,
    );
    assert_eq!(r.unwrap_err(), ErrorCode::TargetProgramMismatch);
    assert_eq!(vault_out.amount, 10);
    assert_eq!(receiver.amount, 0);
}

#[test]
fn registry_fixes_opcode_prefix_and_destination() {
    let d = StepAction::JupiterSharedAccountsRoute.discriminator();
    assert_eq!(d, vec![193, 32, 155, 51, 65, 214, 156, 129]);
    let d = StepAction::JlpPerpetualsRemoveLiquidity2.discriminator();
    assert_eq!(d, vec![230, 215, 82, 127, 241, 101, 227, 146]);
    assert_eq!(
        StepAction::JupiterRoute.expected_program_id(),
        jupiter_delegate::jupiter_program_id()
    );
    assert_eq!(
        StepAction::JupiterOrderEngineFill.expected_program_id(),
        jupiter_delegate::jupiter_order_engine_program_id()
    );
    assert_eq!(
        StepAction::DFlowSwap.expected_program_id(),
        jupiter_delegate::dflow_program_id()
    );
    assert_eq!(StepAction::OkxSwap.expected_program_id(), jupiter_delegate::okx_program_id());
    assert_eq!(
        StepAction::JlpPerpetualsAddLiquidity2.expected_program_id(),
        jupiter_delegate::perpetuals_program_id()
    );
}

#[test]
fn registry_program_ids_match_their_ledger_addresses() {
    // the canonical identities decode back to the known program addresses
    let known = [
        (jupiter_delegate::jupiter_program_id(), "JUP6LkbZbjS1jKKwapdHNy74zcZ3tLUZoi5QNyVTaV4"),
        (
            jupiter_delegate::jupiter_order_engine_program_id(),
            "61DFfeTKM7trxYcPQCM78bJ794ddZprZpAwAnLiwTpYH",
        ),
        (jupiter_delegate::dflow_program_id(), "DF1ow4tspfHX9JwWJsAb9epbkA8hmpSEAtxXy1V27QBH"),
        (jupiter_delegate::okx_program_id(), "6m2CDdhRgxpH4WjvdzxAYbGxwdGUz5MziiL5jek2kBma"),
        (jupiter_delegate::perpetuals_program_id(), "PERPHjGBqRHArX4DySjwM6UJHiR3sWAatqfdBS2qQJu"),
    ];
    for (id, text) in known {
        let bytes: [u8; 32] = id.to_bytes().as_slice().try_into().unwrap();
        let pk = anchor_lang::prelude::Pubkey::new_from_array(bytes);
        assert_eq!(pk.to_string(), text);
    }
}

#[test]
fn instruction_payload_is_prefix_then_data() {
    let payload = vec![0xaa, 0xbb];
    let out = StepAction::OkxSwapV3.to_program_instruction_data(&payload);
    assert_eq!(out, vec![240, 224, 38, 33, 176, 31, 241, 175, 0xaa, 0xbb]);
    let out = StepAction::JupiterRouteV2.to_program_instruction_data(&Vec::new());
    assert_eq!(out, vec![53, 96, 229, 202, 216, 187, 250, 24]);
}
