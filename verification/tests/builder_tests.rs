use sol_trade_sdk::builder::{
    Blockhash, DurableNonceInfo, advance_nonce_account, assemble_transaction_instructions,
    compute_budget_program_id, select_blockhash, set_compute_unit_limit, set_compute_unit_price,
    system_transfer, sysvar_recent_blockhashes_id,
};
use sol_trade_sdk::execution::{ExecutionPath, InstructionProcessor};
use sol_trade_sdk::instructions::{AccountMeta, Instruction, Pubkey};

fn key(b: u8) -> Pubkey {
    Pubkey::new_from_array([b; 32])
}

fn base_instruction(tag: u8) -> Instruction {
    Instruction::new_with_bytes(key(tag), vec![tag, tag], vec![AccountMeta::new(key(9), true)])
}

#[test]
fn compute_budget_instructions_have_the_documented_layout() {
    let limit = set_compute_unit_limit(200_000);
    assert_eq!(limit.program_id, compute_budget_program_id());
    assert!(limit.accounts.is_empty());
    let mut expected = vec![2u8];
    expected.extend_from_slice(&200_000u32.to_le_bytes());
    assert_eq!(limit.data, expected);

    let price = set_compute_unit_price(1_500);
    assert_eq!(price.program_id, compute_budget_program_id());
    let mut expected_price = vec![3u8];
    expected_price.extend_from_slice(&1_500u64.to_le_bytes());
    assert_eq!(price.data, expected_price);
}

#[test]
fn tip_transfer_moves_lamports_from_the_signing_payer() {
    let from = key(1);
    let to = key(2);
    let ins = system_transfer(from, to, 100_000);
    assert_eq!(ins.program_id, Pubkey::default());
    let mut expected = vec![2u8, 0, 0, 0];
    expected.extend_from_slice(&100_000u64.to_le_bytes());
    assert_eq!(ins.data, expected);
    assert_eq!(ins.accounts.len(), 2);
    assert_eq!(ins.accounts[0].pubkey, from);
    assert!(ins.accounts[0].is_signer);
    assert!(ins.accounts[0].is_writable);
    assert_eq!(ins.accounts[1].pubkey, to);
    assert!(!ins.accounts[1].is_signer);
}

#[test]
fn nonce_advance_touches_nonce_sysvar_and_authority() {
    let nonce = key(3);
    let authority = key(4);
    let ins = advance_nonce_account(nonce, authority);
    assert_eq!(ins.program_id, Pubkey::default());
    assert_eq!(ins.data, vec![4u8, 0, 0, 0]);
    assert_eq!(ins.accounts.len(), 3);
    assert_eq!(ins.accounts[0].pubkey, nonce);
    assert!(ins.accounts[0].is_writable);
    assert_eq!(ins.accounts[1].pubkey, sysvar_recent_blockhashes_id());
    assert!(!ins.accounts[1].is_writable);
    assert_eq!(ins.accounts[2].pubkey, authority);
    assert!(ins.accounts[2].is_signer);
}

#[test]
fn assembly_orders_nonce_base_budget_tip() {
    let nonce = DurableNonceInfo {
        nonce_account: key(3),
        authority: key(1),
        current_nonce: Blockhash::new_from_array([8; 32]),
    };
    let base = vec![base_instruction(10), base_instruction(11)];
    let out = assemble_transaction_instructions(
        key(1),
        base,
        150_000,
        2_000,
        true,
        key(5),
        100_000,
        Some(&nonce),
    )
    .expect("must assemble");
    assert_eq!(out.len(), 6);
    assert_eq!(out[0].data, vec![4u8, 0, 0, 0]); // nonce advance
    assert_eq!(out[1].data, vec![10u8, 10]);
    assert_eq!(out[2].data, vec![11u8, 11]);
    assert_eq!(out[3].data[0], 2u8); // compute unit limit
    assert_eq!(out[4].data[0], 3u8); // compute unit price
    assert_eq!(out[5].accounts[1].pubkey, key(5)); // tip transfer
}

#[test]
fn assembly_without_nonce_or_tip_is_base_plus_budget() {
    let base = vec![base_instruction(10)];
    let out =
        assemble_transaction_instructions(key(1), base, 150_000, 2_000, false, key(5), 0, None)
            .expect("must assemble");
    assert_eq!(out.len(), 3);
    assert_eq!(out[0].data, vec![10u8, 10]);
    assert_eq!(out[1].data[0], 2u8);
    assert_eq!(out[2].data[0], 3u8);
}

#[test]
fn assembly_rejects_an_empty_base() {
    let err = assemble_transaction_instructions(
        key(1),
        Vec::new(),
        150_000,
        2_000,
        false,
        key(5),
        0,
        None,
    )
    .unwrap_err();
    assert_eq!(err, "Instructions empty");
}

#[test]
fn blockhash_selection_prefers_the_durable_nonce() {
    let nonce = DurableNonceInfo {
        nonce_account: key(3),
        authority: key(1),
        current_nonce: Blockhash::new_from_array([8; 32]),
    };
    let recent = Blockhash::new_from_array([9; 32]);
    let chosen = select_blockhash(Some(recent), Some(&nonce)).unwrap();
    assert_eq!(chosen.bytes, [8; 32]);

    let fallback = select_blockhash(Some(recent), None).unwrap();
    assert_eq!(fallback.bytes, [9; 32]);

    let err = select_blockhash(None, None).unwrap_err();
    assert_eq!(err, "No blockhash or durable nonce available");
}

#[test]
fn preprocess_rejects_an_empty_instruction_list() {
    let err = InstructionProcessor::preprocess(&Vec::new()).unwrap_err();
    assert_eq!(err, "Instructions empty");
    InstructionProcessor::preprocess(&vec![base_instruction(1)]).unwrap();
}

#[test]
fn calculate_size_counts_data_and_account_keys() {
    let instructions = vec![base_instruction(1), base_instruction(2)];
    // Each instruction: 2 data bytes + 1 account * 32 bytes.
    assert_eq!(InstructionProcessor::calculate_size(&instructions), 68);
    assert_eq!(InstructionProcessor::calculate_size(&Vec::new()), 0);
}

#[test]
fn execution_path_select_runs_the_matching_closure() {
    let fast = ExecutionPath::select(true, || 1u32, || 2u32);
    assert_eq!(fast, 1);
    let slow = ExecutionPath::select(false, || 1u32, || 2u32);
    assert_eq!(slow, 2);
}

#[test]
fn pubkey_equality_is_byte_equality() {
    assert_eq!(key(1), key(1));
    assert_ne!(key(1), key(2));
    assert!(Pubkey::default().is_default());
    assert!(!key(1).is_default());
}
