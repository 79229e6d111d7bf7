use sol_trade_sdk::instructions::Pubkey;
use sol_trade_sdk::precheck::{
    PRECHECK_V1_PAYLOAD_LEN, PrecheckConfig, build_precheck_v1_instruction,
    default_precheck_program_id, precheck_error_name, sysvar_clock_id,
};
use sol_trade_sdk::precheck_program::{
    PRECHECK_V1_DATA_LEN, PRECHECK_V1_DISCRIMINATOR, PrecheckPayloadV1, ProgramError,
    evaluate_precheck, read_u64_le,
};

fn payload_bytes(
    discriminator: u8,
    context_slot: u64,
    max_slot_diff: u8,
    min_liquidity_lamports: u64,
    max_liquidity_lamports: u64,
) -> Vec<u8> {
    let mut bytes = vec![0u8; PRECHECK_V1_DATA_LEN];
    bytes[0] = discriminator;
    bytes[1..9].copy_from_slice(&context_slot.to_le_bytes());
    bytes[9] = max_slot_diff;
    bytes[10..18].copy_from_slice(&min_liquidity_lamports.to_le_bytes());
    bytes[18..26].copy_from_slice(&max_liquidity_lamports.to_le_bytes());
    bytes
}

#[test]
fn parse_and_validate_accepts_valid_payload() {
    let bytes = payload_bytes(PRECHECK_V1_DISCRIMINATOR, 42, 7, 1_000, 2_000);
    let payload = PrecheckPayloadV1::parse(&bytes).expect("payload should parse");
    assert_eq!(payload.context_slot, 42);
    assert_eq!(payload.max_slot_diff, 7);
    assert_eq!(payload.min_liquidity_lamports, 1_000);
    assert_eq!(payload.max_liquidity_lamports, 2_000);
    payload.validate().expect("payload should validate");
}

#[test]
fn parse_rejects_invalid_discriminator() {
    let bytes = payload_bytes(99, 1, 1, 1, 2);
    let err = PrecheckPayloadV1::parse(&bytes).expect_err("must fail");
    assert_eq!(err, ProgramError::InvalidInstructionData);
}

#[test]
fn parse_rejects_invalid_length() {
    let bytes = vec![0u8; PRECHECK_V1_DATA_LEN - 1];
    let err = PrecheckPayloadV1::parse(&bytes).expect_err("must fail");
    assert_eq!(err, ProgramError::InvalidInstructionData);
}

#[test]
fn validate_rejects_zero_max_slot_diff() {
    let payload = PrecheckPayloadV1 {
        context_slot: 1,
        max_slot_diff: 0,
        min_liquidity_lamports: 1,
        max_liquidity_lamports: 2,
    };
    let err = payload.validate().expect_err("must fail");
    assert_eq!(err, ProgramError::InvalidInstructionData);
}

#[test]
fn validate_rejects_invalid_liquidity_range() {
    let payload = PrecheckPayloadV1 {
        context_slot: 1,
        max_slot_diff: 1,
        min_liquidity_lamports: 3,
        max_liquidity_lamports: 2,
    };
    let err = payload.validate().expect_err("must fail");
    assert_eq!(err, ProgramError::InvalidInstructionData);
}

#[test]
fn read_u64_le_rejects_short_slice() {
    let err = read_u64_le(&vec![1, 2, 3], 0).expect_err("must fail");
    assert_eq!(err, ProgramError::InvalidInstructionData);
}

fn curve_data_with_reserves(real_sol_reserves: u64) -> Vec<u8> {
    let mut data = vec![0u8; 40];
    data[32..40].copy_from_slice(&real_sol_reserves.to_le_bytes());
    data
}

#[test]
fn evaluate_precheck_accepts_fresh_context_and_liquidity_in_range() {
    let instruction_data = payload_bytes(PRECHECK_V1_DISCRIMINATOR, 100, 5, 1_000, 2_000);
    let curve = curve_data_with_reserves(1_500);
    evaluate_precheck(2, 103, true, &curve, &instruction_data).expect("must pass");
}

#[test]
fn evaluate_precheck_error_paths_carry_their_codes() {
    let instruction_data = payload_bytes(PRECHECK_V1_DISCRIMINATOR, 100, 5, 1_000, 2_000);
    let curve = curve_data_with_reserves(1_500);

    assert_eq!(
        evaluate_precheck(1, 103, true, &curve, &instruction_data).unwrap_err(),
        ProgramError::NotEnoughAccountKeys
    );
    // The chain moved past the allowed slot window.
    assert_eq!(
        evaluate_precheck(2, 106, true, &curve, &instruction_data).unwrap_err(),
        ProgramError::Custom(7002)
    );
    // The clock sits before the context slot.
    assert_eq!(
        evaluate_precheck(2, 99, true, &curve, &instruction_data).unwrap_err(),
        ProgramError::Custom(7002)
    );
    // Foreign curve account.
    assert_eq!(
        evaluate_precheck(2, 103, false, &curve, &instruction_data).unwrap_err(),
        ProgramError::Custom(7003)
    );
    // Curve account too short.
    assert_eq!(
        evaluate_precheck(2, 103, true, &vec![0u8; 39], &instruction_data).unwrap_err(),
        ProgramError::Custom(7003)
    );
    // Liquidity below the minimum.
    assert_eq!(
        evaluate_precheck(2, 103, true, &curve_data_with_reserves(999), &instruction_data)
            .unwrap_err(),
        ProgramError::Custom(7000)
    );
    // Liquidity above the maximum.
    assert_eq!(
        evaluate_precheck(2, 103, true, &curve_data_with_reserves(2_001), &instruction_data)
            .unwrap_err(),
        ProgramError::Custom(7001)
    );
}

fn sdk_payload() -> sol_trade_sdk::precheck::PrecheckPayloadV1 {
    sol_trade_sdk::precheck::PrecheckPayloadV1 {
        context_slot: 42,
        max_slot_diff: 9,
        min_liquidity_lamports: 1_000,
        max_liquidity_lamports: 9_000,
        base_liquidity_lamports: 4_200,
        min_liquidity_difference_lamports: 11,
        max_liquidity_difference_lamports: 22,
    }
}

#[test]
fn precheck_payload_v1_serializes_expected_layout() {
    let payload = sdk_payload();
    let bytes = payload.to_bytes();
    assert_eq!(bytes.len(), PRECHECK_V1_PAYLOAD_LEN);
    assert_eq!(bytes[0], sol_trade_sdk::precheck::PRECHECK_V1_DISCRIMINATOR);
    assert_eq!(&bytes[1..9], &42u64.to_le_bytes());
    assert_eq!(bytes[9], 9);
    assert_eq!(&bytes[10..18], &1_000u64.to_le_bytes());
    assert_eq!(&bytes[18..26], &9_000u64.to_le_bytes());
    assert_eq!(&bytes[26..34], &4_200u64.to_le_bytes());
    assert_eq!(&bytes[34..42], &11u64.to_le_bytes());
    assert_eq!(&bytes[42..50], &22u64.to_le_bytes());
}

fn unique_pubkey() -> Pubkey {
    let mut bytes = [7u8; 32];
    bytes[0] = 42;
    Pubkey::new_from_array(bytes)
}

#[test]
fn precheck_builder_rejects_invalid_liquidity_range() {
    let cfg = PrecheckConfig {
        program_id: None,
        context_slot: 1,
        max_slot_diff: 1,
        min_liquidity_lamports: 10,
        max_liquidity_lamports: 9,
        base_liquidity_lamports: 0,
        min_liquidity_difference_lamports: 0,
        max_liquidity_difference_lamports: 0,
    };
    let err = build_precheck_v1_instruction(unique_pubkey(), &cfg).expect_err("must fail");
    assert!(err.contains("min_liquidity_lamports"));
}

#[test]
fn precheck_builder_rejects_zero_max_slot_diff() {
    let cfg = PrecheckConfig {
        program_id: None,
        context_slot: 1,
        max_slot_diff: 0,
        min_liquidity_lamports: 1,
        max_liquidity_lamports: 2,
        base_liquidity_lamports: 0,
        min_liquidity_difference_lamports: 0,
        max_liquidity_difference_lamports: 0,
    };
    let err = build_precheck_v1_instruction(unique_pubkey(), &cfg).expect_err("must fail");
    assert!(err.contains("max_slot_diff"));
}

#[test]
fn precheck_builder_rejects_invalid_liquidity_difference_range() {
    let cfg = PrecheckConfig {
        program_id: None,
        context_slot: 1,
        max_slot_diff: 1,
        min_liquidity_lamports: 1,
        max_liquidity_lamports: 2,
        base_liquidity_lamports: 1,
        min_liquidity_difference_lamports: 3,
        max_liquidity_difference_lamports: 2,
    };
    let err = build_precheck_v1_instruction(unique_pubkey(), &cfg).expect_err("must fail");
    assert!(err.contains("min_liquidity_difference_lamports"));
}

#[test]
fn precheck_builder_rejects_default_bonding_curve() {
    let cfg = PrecheckConfig {
        program_id: None,
        context_slot: 1,
        max_slot_diff: 1,
        min_liquidity_lamports: 1,
        max_liquidity_lamports: 2,
        base_liquidity_lamports: 0,
        min_liquidity_difference_lamports: 0,
        max_liquidity_difference_lamports: 0,
    };
    let err = build_precheck_v1_instruction(Pubkey::default(), &cfg).expect_err("must fail");
    assert!(err.contains("non-default bonding curve"));
}

#[test]
fn precheck_builder_assembles_clock_then_curve() {
    let cfg = PrecheckConfig {
        program_id: None,
        context_slot: 123,
        max_slot_diff: 5,
        min_liquidity_lamports: 1_000_000_000,
        max_liquidity_lamports: 2_000_000_000,
        base_liquidity_lamports: 0,
        min_liquidity_difference_lamports: 0,
        max_liquidity_difference_lamports: 0,
    };
    let curve = unique_pubkey();
    let ins = build_precheck_v1_instruction(curve, &cfg).expect("must build");
    assert_eq!(ins.program_id, default_precheck_program_id());
    assert_eq!(ins.accounts.len(), 2);
    assert_eq!(ins.accounts[0].pubkey, sysvar_clock_id());
    assert!(!ins.accounts[0].is_writable);
    assert_eq!(ins.accounts[1].pubkey, curve);
    assert_eq!(ins.data.len(), PRECHECK_V1_PAYLOAD_LEN);
    assert_eq!(&ins.data[1..9], &123u64.to_le_bytes());
}

#[test]
fn precheck_error_names_cover_every_code() {
    assert_eq!(precheck_error_name(7000), Some("LiquidityTooLow"));
    assert_eq!(precheck_error_name(7001), Some("LiquidityTooHigh"));
    assert_eq!(precheck_error_name(7002), Some("ContextSlotDifferenceReached"));
    assert_eq!(precheck_error_name(7003), Some("InvalidCurveAccount"));
    assert_eq!(precheck_error_name(7004), Some("LiquidityDifferenceTooLow"));
    assert_eq!(precheck_error_name(7005), Some("LiquidityDifferenceTooHigh"));
    assert_eq!(precheck_error_name(6004), None);
}
