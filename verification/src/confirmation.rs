//! Confirmation-poll decision rules.
//!
//! Polling chain state for a signature is a network loop; the decisions
//! inside it are not. This module fixes when a status report counts as
//! confirmed, when the poller escalates to fetching the full transaction,
//! and which error code a failed transaction surfaces.

use vstd::prelude::*;
use crate::errors::TradeError;
use crate::text::{join_with, spec_joined_with};

verus! {

/// Bound on one signature's confirmation wait, in seconds.
pub const CONFIRMATION_TIMEOUT_SECS: u64 = 15;

/// Poll interval while waiting for confirmation, in milliseconds.
pub const CONFIRMATION_POLL_INTERVAL_MS: u64 = 1000;

/// Poll count from which the poller fetches the full transaction even
/// without an error in the status report.
pub const CONFIRMATION_FETCH_THRESHOLD: u32 = 10;

/// Confirmation level a status report carries.
#[derive(Clone, Copy, Debug, PartialEq, Eq, Structural)]
pub enum ConfirmationStatus {
    Processed,
    Confirmed,
    Finalized,
}

/// Whether a status report settles the signature as confirmed: no error,
/// and at least the confirmed level.
pub fn signature_confirmed(has_err: bool, status: Option<ConfirmationStatus>) -> (r: bool)
    ensures
        r == (!has_err && (status == Some(ConfirmationStatus::Confirmed) || status == Some(
            ConfirmationStatus::Finalized,
        ))),
{
    if has_err {
        return false;
    }
    match status {
        Some(ConfirmationStatus::Confirmed) => true,
        Some(ConfirmationStatus::Finalized) => true,
        _ => false,
    }
}

/// Whether the poller escalates to fetching the full transaction: the
/// status carried an error, or enough polls have gone by.
pub fn should_fetch_transaction(status_has_err: bool, poll_count: u32) -> (r: bool)
    ensures
        r == (status_has_err || poll_count >= CONFIRMATION_FETCH_THRESHOLD),
{
    status_has_err || poll_count >= CONFIRMATION_FETCH_THRESHOLD
}

/// The ways an instruction inside a failed transaction is reported to have
/// failed.
#[derive(Clone, Copy, Debug, PartialEq, Eq, Structural)]
pub enum InstructionErrorKind {
    /// A program-specific code.
    Custom(u32),
    GenericError,
    InvalidArgument,
    InvalidInstructionData,
    InvalidAccountData,
    AccountDataTooSmall,
    InsufficientFunds,
    IncorrectProgramId,
    MissingRequiredSignature,
    AccountAlreadyInitialized,
    UninitializedAccount,
    /// Any other kind.
    Other,
}

/// The code an instruction failure surfaces: program-specific codes keep
/// their value, the common runtime kinds get small fixed codes, anything
/// else becomes 999.
pub open spec fn spec_instruction_error_code(kind: InstructionErrorKind) -> u32 {
    match kind {
        InstructionErrorKind::Custom(c) => c,
        InstructionErrorKind::GenericError => 1u32,
        InstructionErrorKind::InvalidArgument => 2u32,
        InstructionErrorKind::InvalidInstructionData => 3u32,
        InstructionErrorKind::InvalidAccountData => 4u32,
        InstructionErrorKind::AccountDataTooSmall => 5u32,
        InstructionErrorKind::InsufficientFunds => 6u32,
        InstructionErrorKind::IncorrectProgramId => 7u32,
        InstructionErrorKind::MissingRequiredSignature => 8u32,
        InstructionErrorKind::AccountAlreadyInitialized => 9u32,
        InstructionErrorKind::UninitializedAccount => 10u32,
        InstructionErrorKind::Other => 999u32,
    }
}

/// Maps an instruction failure to the code it surfaces.
pub fn instruction_error_code(kind: InstructionErrorKind) -> (r: u32)
    ensures
        r == spec_instruction_error_code(kind),
{
    match kind {
        InstructionErrorKind::Custom(c) => c,
        InstructionErrorKind::GenericError => 1,
        InstructionErrorKind::InvalidArgument => 2,
        InstructionErrorKind::InvalidInstructionData => 3,
        InstructionErrorKind::InvalidAccountData => 4,
        InstructionErrorKind::AccountDataTooSmall => 5,
        InstructionErrorKind::InsufficientFunds => 6,
        InstructionErrorKind::IncorrectProgramId => 7,
        InstructionErrorKind::MissingRequiredSignature => 8,
        InstructionErrorKind::AccountAlreadyInitialized => 9,
        InstructionErrorKind::UninitializedAccount => 10,
        InstructionErrorKind::Other => 999,
    }
}

/// What a failed transaction reports: either which instruction failed and
/// how, or a failure of another shape.
#[derive(Clone, Copy, Debug, PartialEq, Eq, Structural)]
pub enum TransactionErrorInfo {
    /// Instruction at the given index failed in the given way.
    InstructionError(u8, InstructionErrorKind),
    /// A transaction-level failure with no instruction attached.
    Other,
}

/// The structured error a failed transaction turns into: the instruction
/// failure's code and index when there is one, code zero otherwise; the
/// message is whatever the caller assembled from the transaction's logs.
pub fn trade_error_from_transaction(err: TransactionErrorInfo, message: String) -> (r: TradeError)
    ensures
        r.message@ == message@,
        match err {
            TransactionErrorInfo::InstructionError(i, kind) => r.code
                == spec_instruction_error_code(kind) && r.instruction == Some(i),
            TransactionErrorInfo::Other => r.code == 0 && r.instruction is None,
        },
{
    match err {
        TransactionErrorInfo::InstructionError(i, kind) => TradeError {
            code: instruction_error_code(kind),
            message,
            instruction: Some(i),
        },
        TransactionErrorInfo::Other => TradeError { code: 0, message, instruction: None },
    }
}

/// The prefix a program's error-message log line carries.
pub open spec fn spec_error_message_marker() -> Seq<char> {
    "Error Message: "@
}

/// The prefix a program's plain error log line carries.
pub open spec fn spec_program_log_error_marker() -> Seq<char> {
    "Program log: Error: "@
}

/// The error-message marker of a program log line.
pub fn error_message_marker() -> (r: &'static str)
    ensures
        r@ == spec_error_message_marker(),
{
    "Error Message: "
}

/// The plain-error marker of a program log line.
pub fn program_log_error_marker() -> (r: &'static str)
    ensures
        r@ == spec_program_log_error_marker(),
{
    "Program log: Error: "
}

/// Joins extracted error-message pieces with "; ", in order.
pub fn join_error_messages(parts: &Vec<String>) -> (r: String)
    ensures
        r@ == spec_joined_with(parts@.map_values(|s: String| s@), "; "@),
{
    join_with(parts, "; ")
}

} // verus!
