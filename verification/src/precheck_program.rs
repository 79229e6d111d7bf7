//! Decision logic of the on-chain precheck program.
//!
//! The program guards a buy against stale context and drained liquidity: it
//! parses its instruction payload, bounds the slot distance, and checks the
//! bonding curve's real SOL reserves against the configured range. The
//! account plumbing of the on-chain runtime stays outside; the decision is
//! a function of the slot, the curve account's ownership and bytes, and the
//! payload.

use vstd::prelude::*;
use crate::le_bytes::{read_u64_le_at, u64_of_le_bytes};

verus! {

/// Discriminator of the first payload version.
pub const PRECHECK_V1_DISCRIMINATOR: u8 = 1;

/// Serialized length of the first payload version.
pub const PRECHECK_V1_DATA_LEN: usize = 1 + 8 + 1 + 8 + 8;

/// Bonding curve account layout offset of `real_sol_reserves`: an 8-byte
/// discriminator, then virtual token, virtual SOL and real token reserves.
pub const REAL_SOL_RESERVES_OFFSET: usize = 8 + 8 + 8 + 8;

/// End of the `real_sol_reserves` field.
pub const REAL_SOL_RESERVES_END: usize = REAL_SOL_RESERVES_OFFSET + 8;

/// Errors of the on-chain runtime's vocabulary that the program raises.
#[derive(Clone, Copy, Debug, PartialEq, Eq, Structural)]
pub enum ProgramError {
    /// The instruction payload is malformed.
    InvalidInstructionData,
    /// Fewer accounts were handed in than the program needs.
    NotEnoughAccountKeys,
    /// A program-specific error code.
    Custom(u32),
}

/// The program's own error conditions.
#[derive(Clone, Copy, Debug, PartialEq, Eq, Structural)]
pub enum PrecheckError {
    /// Real SOL reserves below the configured minimum.
    LiquidityTooLow,
    /// Real SOL reserves above the configured maximum.
    LiquidityTooHigh,
    /// The chain has advanced too far past the payload's context slot.
    ContextSlotDifferenceReached,
    /// The bonding curve account is missing, foreign or too short.
    InvalidCurveAccount,
}

impl PrecheckError {
    /// The numeric code this condition is reported under.
    pub open spec fn spec_code(self) -> u32 {
        match self {
            PrecheckError::LiquidityTooLow => 7000u32,
            PrecheckError::LiquidityTooHigh => 7001u32,
            PrecheckError::ContextSlotDifferenceReached => 7002u32,
            PrecheckError::InvalidCurveAccount => 7003u32,
        }
    }

    /// The numeric code this condition is reported under.
    pub fn code(&self) -> (r: u32)
        ensures
            r == self.spec_code(),
    {
        match self {
            PrecheckError::LiquidityTooLow => 7000,
            PrecheckError::LiquidityTooHigh => 7001,
            PrecheckError::ContextSlotDifferenceReached => 7002,
            PrecheckError::InvalidCurveAccount => 7003,
        }
    }

    /// This condition as the runtime reports it: a custom code.
    pub fn to_program_error(&self) -> (r: ProgramError)
        ensures
            r == ProgramError::Custom(self.spec_code()),
    {
        ProgramError::Custom(self.code())
    }
}

/// The first payload version: the context slot the trade was planned at,
/// the slot distance allowed, and the accepted liquidity range.
#[derive(Clone, Copy, Debug, PartialEq, Eq, Structural)]
pub struct PrecheckPayloadV1 {
    pub context_slot: u64,
    pub max_slot_diff: u8,
    pub min_liquidity_lamports: u64,
    pub max_liquidity_lamports: u64,
}

/// Whether the bytes form a well-shaped first-version payload.
pub open spec fn spec_payload_well_formed(data: Seq<u8>) -> bool {
    data.len() == PRECHECK_V1_DATA_LEN && data[0] == PRECHECK_V1_DISCRIMINATOR
}

/// The payload the bytes carry, field by field.
pub open spec fn spec_parse_payload(data: Seq<u8>) -> PrecheckPayloadV1 {
    PrecheckPayloadV1 {
        context_slot: u64_of_le_bytes(data.subrange(1, 9)),
        max_slot_diff: data[9],
        min_liquidity_lamports: u64_of_le_bytes(data.subrange(10, 18)),
        max_liquidity_lamports: u64_of_le_bytes(data.subrange(18, 26)),
    }
}

impl PrecheckPayloadV1 {
    /// Parses the payload: the length and the discriminator must match, and
    /// the fields are read from their fixed offsets.
    pub fn parse(instruction_data: &Vec<u8>) -> (r: Result<Self, ProgramError>)
        ensures
            match r {
                Ok(p) => spec_payload_well_formed(instruction_data@) && p == spec_parse_payload(
                    instruction_data@,
                ),
                Err(e) => !spec_payload_well_formed(instruction_data@) && e
                    == ProgramError::InvalidInstructionData,
            },
    {
        if instruction_data.len() != PRECHECK_V1_DATA_LEN {
            return Err(ProgramError::InvalidInstructionData);
        }
        if instruction_data[0] != PRECHECK_V1_DISCRIMINATOR {
            return Err(ProgramError::InvalidInstructionData);
        }
        let context_slot = read_u64_le_at(instruction_data, 1);
        let max_slot_diff = instruction_data[9];
        let min_liquidity_lamports = read_u64_le_at(instruction_data, 10);
        let max_liquidity_lamports = read_u64_le_at(instruction_data, 18);
        Ok(
            PrecheckPayloadV1 {
                context_slot,
                max_slot_diff,
                min_liquidity_lamports,
                max_liquidity_lamports,
            },
        )
    }

    /// Whether the payload's own constraints hold: a positive slot window
    /// and an ordered liquidity range.
    pub open spec fn spec_valid(self) -> bool {
        self.max_slot_diff != 0 && self.min_liquidity_lamports <= self.max_liquidity_lamports
    }

    /// Validates the payload's own constraints.
    pub fn validate(self) -> (r: Result<(), ProgramError>)
        ensures
            match r {
                Ok(u) => self.spec_valid(),
                Err(e) => !self.spec_valid() && e == ProgramError::InvalidInstructionData,
            },
    {
        if self.max_slot_diff == 0 {
            return Err(ProgramError::InvalidInstructionData);
        }
        if self.min_liquidity_lamports > self.max_liquidity_lamports {
            return Err(ProgramError::InvalidInstructionData);
        }
        Ok(())
    }
}

/// Reads a little-endian 64-bit value at `offset`, or rejects the data as
/// malformed when fewer than eight bytes remain.
pub fn read_u64_le(bytes: &Vec<u8>, offset: usize) -> (r: Result<u64, ProgramError>)
    ensures
        match r {
            Ok(v) => offset + 8 <= bytes@.len() && v == u64_of_le_bytes(
                bytes@.subrange(offset as int, offset as int + 8),
            ),
            Err(e) => offset + 8 > bytes@.len() && e == ProgramError::InvalidInstructionData,
        },
{
    let n = bytes.len();
    if n < 8 || offset > n - 8 {
        return Err(ProgramError::InvalidInstructionData);
    }
    Ok(read_u64_le_at(bytes, offset))
}

/// The whole program decision, over plain values.
pub open spec fn spec_evaluate_precheck(
    n_accounts: nat,
    clock_slot: u64,
    curve_owned_by_program: bool,
    curve_data: Seq<u8>,
    instruction_data: Seq<u8>,
) -> Result<(), ProgramError> {
    if n_accounts < 2 {
        Err(ProgramError::NotEnoughAccountKeys)
    } else if !spec_payload_well_formed(instruction_data) {
        Err(ProgramError::InvalidInstructionData)
    } else {
        let p = spec_parse_payload(instruction_data);
        if !p.spec_valid() {
            Err(ProgramError::InvalidInstructionData)
        } else if clock_slot < p.context_slot {
            Err(ProgramError::Custom(PrecheckError::ContextSlotDifferenceReached.spec_code()))
        } else if clock_slot - p.context_slot > p.max_slot_diff as u64 {
            Err(ProgramError::Custom(PrecheckError::ContextSlotDifferenceReached.spec_code()))
        } else if !curve_owned_by_program {
            Err(ProgramError::Custom(PrecheckError::InvalidCurveAccount.spec_code()))
        } else if curve_data.len() < REAL_SOL_RESERVES_END {
            Err(ProgramError::Custom(PrecheckError::InvalidCurveAccount.spec_code()))
        } else {
            let reserves = u64_of_le_bytes(
                curve_data.subrange(
                    REAL_SOL_RESERVES_OFFSET as int,
                    REAL_SOL_RESERVES_END as int,
                ),
            );
            if reserves < p.min_liquidity_lamports {
                Err(ProgramError::Custom(PrecheckError::LiquidityTooLow.spec_code()))
            } else if reserves > p.max_liquidity_lamports {
                Err(ProgramError::Custom(PrecheckError::LiquidityTooHigh.spec_code()))
            } else {
                Ok(())
            }
        }
    }
}

/// Runs the precheck: payload parsing and validation, the slot-distance
/// bound, curve account ownership and size, and the liquidity range over
/// the curve's real SOL reserves.
pub fn evaluate_precheck(
    n_accounts: usize,
    clock_slot: u64,
    curve_owned_by_program: bool,
    curve_data: &Vec<u8>,
    instruction_data: &Vec<u8>,
) -> (r: Result<(), ProgramError>)
    ensures
        r == spec_evaluate_precheck(
            n_accounts as nat,
            clock_slot,
            curve_owned_by_program,
            curve_data@,
            instruction_data@,
        ),
{
    if n_accounts < 2 {
        return Err(ProgramError::NotEnoughAccountKeys);
    }
    let payload = match PrecheckPayloadV1::parse(instruction_data) {
        Ok(p) => p,
        Err(e) => {
            return Err(e);
        },
    };
    if let Err(e) = payload.validate() {
        return Err(e);
    }
    if clock_slot < payload.context_slot {
        return Err(PrecheckError::ContextSlotDifferenceReached.to_program_error());
    }
    let slot_diff = clock_slot - payload.context_slot;
    if slot_diff > payload.max_slot_diff as u64 {
        return Err(PrecheckError::ContextSlotDifferenceReached.to_program_error());
    }
    if !curve_owned_by_program {
        return Err(PrecheckError::InvalidCurveAccount.to_program_error());
    }
    if curve_data.len() < REAL_SOL_RESERVES_END {
        return Err(PrecheckError::InvalidCurveAccount.to_program_error());
    }
    let real_sol_reserves = read_u64_le_at(curve_data, REAL_SOL_RESERVES_OFFSET);
    if real_sol_reserves < payload.min_liquidity_lamports {
        return Err(PrecheckError::LiquidityTooLow.to_program_error());
    }
    if real_sol_reserves > payload.max_liquidity_lamports {
        return Err(PrecheckError::LiquidityTooHigh.to_program_error());
    }
    Ok(())
}

} // verus!
