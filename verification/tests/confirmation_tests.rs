use sol_trade_sdk::confirmation::{
    ConfirmationStatus, InstructionErrorKind, TransactionErrorInfo, instruction_error_code,
    join_error_messages, should_fetch_transaction, signature_confirmed,
    trade_error_from_transaction,
};
use sol_trade_sdk::le_bytes::{push_u64_le, read_u64_le_at};
use sol_trade_sdk::text::{join_with, u64_to_dec_string};

#[test]
fn confirmation_needs_no_error_and_a_settled_level() {
    assert!(signature_confirmed(false, Some(ConfirmationStatus::Confirmed)));
    assert!(signature_confirmed(false, Some(ConfirmationStatus::Finalized)));
    assert!(!signature_confirmed(false, Some(ConfirmationStatus::Processed)));
    assert!(!signature_confirmed(false, None));
    assert!(!signature_confirmed(true, Some(ConfirmationStatus::Finalized)));
}

#[test]
fn transaction_fetch_escalates_on_error_or_poll_count() {
    assert!(should_fetch_transaction(true, 0));
    assert!(should_fetch_transaction(false, 10));
    assert!(should_fetch_transaction(false, 11));
    assert!(!should_fetch_transaction(false, 9));
}

#[test]
fn instruction_error_codes_match_the_table() {
    assert_eq!(instruction_error_code(InstructionErrorKind::Custom(6004)), 6004);
    assert_eq!(instruction_error_code(InstructionErrorKind::GenericError), 1);
    assert_eq!(instruction_error_code(InstructionErrorKind::InvalidArgument), 2);
    assert_eq!(instruction_error_code(InstructionErrorKind::InvalidInstructionData), 3);
    assert_eq!(instruction_error_code(InstructionErrorKind::InvalidAccountData), 4);
    assert_eq!(instruction_error_code(InstructionErrorKind::AccountDataTooSmall), 5);
    assert_eq!(instruction_error_code(InstructionErrorKind::InsufficientFunds), 6);
    assert_eq!(instruction_error_code(InstructionErrorKind::IncorrectProgramId), 7);
    assert_eq!(instruction_error_code(InstructionErrorKind::MissingRequiredSignature), 8);
    assert_eq!(instruction_error_code(InstructionErrorKind::AccountAlreadyInitialized), 9);
    assert_eq!(instruction_error_code(InstructionErrorKind::UninitializedAccount), 10);
    assert_eq!(instruction_error_code(InstructionErrorKind::Other), 999);
}

#[test]
fn failed_transaction_turns_into_a_structured_trade_error() {
    let err = TransactionErrorInfo::InstructionError(2, InstructionErrorKind::Custom(6004));
    let te = trade_error_from_transaction(err, "ExceededSlippage".to_string());
    assert_eq!(te.code, 6004);
    assert_eq!(te.instruction, Some(2));
    assert_eq!(te.message, "ExceededSlippage");

    let other = trade_error_from_transaction(TransactionErrorInfo::Other, "odd".to_string());
    assert_eq!(other.code, 0);
    assert!(other.instruction.is_none());
}

#[test]
fn extracted_messages_join_with_semicolons() {
    let parts = vec!["slippage exceeded".to_string(), "insufficient funds".to_string()];
    assert_eq!(join_error_messages(&parts), "slippage exceeded; insufficient funds");
    assert_eq!(join_error_messages(&vec!["only".to_string()]), "only");
    assert_eq!(join_error_messages(&Vec::new()), "");
}

#[test]
fn decimal_rendering_matches_expected_digits() {
    assert_eq!(u64_to_dec_string(0), "0");
    assert_eq!(u64_to_dec_string(7), "7");
    assert_eq!(u64_to_dec_string(1000), "1000");
    assert_eq!(u64_to_dec_string(u64::MAX), "18446744073709551615");
}

#[test]
fn join_with_uses_the_separator_between_fragments() {
    let parts = vec!["+avx".to_string(), "+fma".to_string(), "+bmi1".to_string()];
    assert_eq!(join_with(&parts, ","), "+avx,+fma,+bmi1");
    assert_eq!(join_with(&Vec::new(), ","), "");
}

#[test]
fn little_endian_layout_round_trips() {
    let mut bytes: Vec<u8> = Vec::new();
    push_u64_le(&mut bytes, 0x0102_0304_0506_0708);
    assert_eq!(bytes, vec![8, 7, 6, 5, 4, 3, 2, 1]);
    assert_eq!(read_u64_le_at(&bytes, 0), 0x0102_0304_0506_0708);
}
