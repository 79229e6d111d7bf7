//! Client-side builder of the precheck instruction.
//!
//! Before a buy, the client can prepend an instruction for the on-chain
//! precheck program: it carries the context slot, the slot window, and the
//! accepted liquidity bounds. This module validates the configuration,
//! lays the payload out on the wire, and assembles the instruction.

use vstd::prelude::*;
use crate::instructions::{AccountMeta, Instruction, Pubkey};
use crate::le_bytes::{le_bytes_of_u64, lemma_u64_le_roundtrip, push_u64_le};
use crate::precheck_program;

verus! {

/// Instruction discriminator for the first payload version.
pub const PRECHECK_V1_DISCRIMINATOR: u8 = 1;

/// Serialized payload length for the first payload version.
pub const PRECHECK_V1_PAYLOAD_LEN: usize = 1 + 8 + 1 + 8 + 8 + 8 + 8 + 8;

/// On-chain custom error code: liquidity lower than the configured minimum.
pub const ERR_LIQUIDITY_TOO_LOW: u32 = 7000;

/// On-chain custom error code: liquidity above the configured maximum.
pub const ERR_LIQUIDITY_TOO_HIGH: u32 = 7001;

/// On-chain custom error code: slot distance exceeds the allowed window.
pub const ERR_CONTEXT_SLOT_DIFFERENCE_REACHED: u32 = 7002;

/// On-chain custom error code: the bonding curve account is invalid.
pub const ERR_INVALID_CURVE_ACCOUNT: u32 = 7003;

/// On-chain custom error code: liquidity difference below the configured
/// minimum.
pub const ERR_LIQUIDITY_DIFFERENCE_TOO_LOW: u32 = 7004;

/// On-chain custom error code: liquidity difference above the configured
/// maximum.
pub const ERR_LIQUIDITY_DIFFERENCE_TOO_HIGH: u32 = 7005;

/// Key of the deployed precheck program.
pub open spec fn spec_default_precheck_program_id() -> Seq<u8> {
    seq![
        249u8, 184u8, 21u8, 204u8, 5u8, 89u8, 248u8, 235u8, 70u8, 125u8, 249u8, 14u8, 218u8,
        113u8, 77u8, 149u8, 169u8, 177u8, 168u8, 130u8, 118u8, 209u8, 196u8, 134u8, 27u8, 76u8,
        35u8, 176u8, 92u8, 69u8, 137u8, 191u8,
    ]
}

/// The deployed precheck program's key.
pub fn default_precheck_program_id() -> (r: Pubkey)
    ensures
        r@ == spec_default_precheck_program_id(),
{
    let r = Pubkey::new_from_array(
        [
            249u8, 184, 21, 204, 5, 89, 248, 235, 70, 125, 249, 14, 218, 113, 77, 149, 169, 177,
            168, 130, 118, 209, 196, 134, 27, 76, 35, 176, 92, 69, 137, 191,
        ],
    );
    proof {
        assert(r@ =~= spec_default_precheck_program_id());
    }
    r
}

/// Key of the clock sysvar account.
pub open spec fn spec_sysvar_clock_id() -> Seq<u8> {
    seq![
        6u8, 167u8, 213u8, 23u8, 24u8, 199u8, 116u8, 201u8, 40u8, 86u8, 99u8, 152u8, 105u8, 29u8,
        94u8, 182u8, 139u8, 94u8, 184u8, 163u8, 155u8, 75u8, 109u8, 92u8, 115u8, 85u8, 91u8,
        33u8, 0u8, 0u8, 0u8, 0u8,
    ]
}

/// The clock sysvar's key.
pub fn sysvar_clock_id() -> (r: Pubkey)
    ensures
        r@ == spec_sysvar_clock_id(),
{
    let r = Pubkey::new_from_array(
        [
            6u8, 167, 213, 23, 24, 199, 116, 201, 40, 86, 99, 152, 105, 29, 94, 182, 139, 94, 184,
            163, 155, 75, 109, 92, 115, 85, 91, 33, 0, 0, 0, 0,
        ],
    );
    proof {
        assert(r@ =~= spec_sysvar_clock_id());
    }
    r
}

/// Configuration of one precheck: the program to call (or the deployed
/// default), the context slot and window, and the liquidity bounds.
#[derive(Clone, Copy, Debug)]
pub struct PrecheckConfig {
    /// Program to call; the deployed default when absent.
    pub program_id: Option<Pubkey>,
    /// Slot the trade context was read at.
    pub context_slot: u64,
    /// Number of slots the chain may have advanced past the context slot.
    pub max_slot_diff: u8,
    /// Smallest acceptable real SOL reserves, in lamports.
    pub min_liquidity_lamports: u64,
    /// Largest acceptable real SOL reserves, in lamports.
    pub max_liquidity_lamports: u64,
    /// Reserves at context time, for difference checks.
    pub base_liquidity_lamports: u64,
    /// Smallest acceptable reserve change, in lamports.
    pub min_liquidity_difference_lamports: u64,
    /// Largest acceptable reserve change, in lamports.
    pub max_liquidity_difference_lamports: u64,
}

impl PrecheckConfig {
    /// Whether the configuration's own constraints hold: a positive slot
    /// window and ordered liquidity ranges.
    pub open spec fn spec_valid(self) -> bool {
        &&& self.max_slot_diff != 0
        &&& self.min_liquidity_lamports <= self.max_liquidity_lamports
        &&& self.min_liquidity_difference_lamports <= self.max_liquidity_difference_lamports
    }

    /// The message explaining why an invalid configuration is refused.
    pub open spec fn spec_invalid_reason(self) -> Seq<char> {
        if self.max_slot_diff == 0 {
            "max_slot_diff must be greater than zero"@
        } else if self.min_liquidity_lamports > self.max_liquidity_lamports {
            "min_liquidity_lamports cannot exceed max_liquidity_lamports"@
        } else {
            "min_liquidity_difference_lamports cannot exceed max_liquidity_difference_lamports"@
        }
    }

    /// Validates the configuration, naming the offending field on failure.
    pub fn validate(&self) -> (r: Result<(), String>)
        ensures
            match r {
                Ok(u) => self.spec_valid(),
                Err(m) => !self.spec_valid() && m@ == self.spec_invalid_reason(),
            },
    {
        if self.max_slot_diff == 0 {
            return Err("max_slot_diff must be greater than zero".to_owned());
        }
        if self.min_liquidity_lamports > self.max_liquidity_lamports {
            return Err("min_liquidity_lamports cannot exceed max_liquidity_lamports".to_owned());
        }
        if self.min_liquidity_difference_lamports > self.max_liquidity_difference_lamports {
            return Err(
                "min_liquidity_difference_lamports cannot exceed max_liquidity_difference_lamports".to_owned(),
            );
        }
        Ok(())
    }
}

/// The client-side first-version payload, one field per configured bound.
#[derive(Clone, Copy, Debug, PartialEq, Eq, Structural)]
pub struct PrecheckPayloadV1 {
    pub context_slot: u64,
    pub max_slot_diff: u8,
    pub min_liquidity_lamports: u64,
    pub max_liquidity_lamports: u64,
    pub base_liquidity_lamports: u64,
    pub min_liquidity_difference_lamports: u64,
    pub max_liquidity_difference_lamports: u64,
}

/// The payload's wire layout: the discriminator, then each field in order,
/// 64-bit fields least significant byte first.
pub open spec fn spec_payload_bytes(p: PrecheckPayloadV1) -> Seq<u8> {
    seq![PRECHECK_V1_DISCRIMINATOR] + le_bytes_of_u64(p.context_slot) + seq![p.max_slot_diff]
        + le_bytes_of_u64(p.min_liquidity_lamports) + le_bytes_of_u64(p.max_liquidity_lamports)
        + le_bytes_of_u64(p.base_liquidity_lamports) + le_bytes_of_u64(
        p.min_liquidity_difference_lamports,
    ) + le_bytes_of_u64(p.max_liquidity_difference_lamports)
}

impl PrecheckPayloadV1 {
    /// The payload a configuration turns into, bound for bound.
    pub fn from_config(config: &PrecheckConfig) -> (r: Self)
        ensures
            r.context_slot == config.context_slot,
            r.max_slot_diff == config.max_slot_diff,
            r.min_liquidity_lamports == config.min_liquidity_lamports,
            r.max_liquidity_lamports == config.max_liquidity_lamports,
            r.base_liquidity_lamports == config.base_liquidity_lamports,
            r.min_liquidity_difference_lamports == config.min_liquidity_difference_lamports,
            r.max_liquidity_difference_lamports == config.max_liquidity_difference_lamports,
    {
        PrecheckPayloadV1 {
            context_slot: config.context_slot,
            max_slot_diff: config.max_slot_diff,
            min_liquidity_lamports: config.min_liquidity_lamports,
            max_liquidity_lamports: config.max_liquidity_lamports,
            base_liquidity_lamports: config.base_liquidity_lamports,
            min_liquidity_difference_lamports: config.min_liquidity_difference_lamports,
            max_liquidity_difference_lamports: config.max_liquidity_difference_lamports,
        }
    }

    /// Serializes the payload into its wire layout.
    pub fn to_bytes(self) -> (r: Vec<u8>)
        ensures
            r@ == spec_payload_bytes(self),
            r@.len() == PRECHECK_V1_PAYLOAD_LEN,
    {
        let mut bytes: Vec<u8> = Vec::new();
        bytes.push(PRECHECK_V1_DISCRIMINATOR);
        push_u64_le(&mut bytes, self.context_slot);
        bytes.push(self.max_slot_diff);
        push_u64_le(&mut bytes, self.min_liquidity_lamports);
        push_u64_le(&mut bytes, self.max_liquidity_lamports);
        push_u64_le(&mut bytes, self.base_liquidity_lamports);
        push_u64_le(&mut bytes, self.min_liquidity_difference_lamports);
        push_u64_le(&mut bytes, self.max_liquidity_difference_lamports);
        proof {
            assert(bytes@ =~= spec_payload_bytes(self));
        }
        bytes
    }
}

/// Wire compatibility with the on-chain program: the first twenty-six
/// bytes of the client payload are a well-formed on-chain payload, and
/// parsing them yields exactly the client's context slot, slot window and
/// liquidity bounds.
pub proof fn lemma_payload_prefix_parses_on_chain(p: PrecheckPayloadV1)
    ensures
        precheck_program::spec_payload_well_formed(
            spec_payload_bytes(p).take(precheck_program::PRECHECK_V1_DATA_LEN as int),
        ),
        precheck_program::spec_parse_payload(
            spec_payload_bytes(p).take(precheck_program::PRECHECK_V1_DATA_LEN as int),
        ) == (precheck_program::PrecheckPayloadV1 {
            context_slot: p.context_slot,
            max_slot_diff: p.max_slot_diff,
            min_liquidity_lamports: p.min_liquidity_lamports,
            max_liquidity_lamports: p.max_liquidity_lamports,
        }),
{
    let bytes = spec_payload_bytes(p);
    let prefix = bytes.take(precheck_program::PRECHECK_V1_DATA_LEN as int);
    lemma_u64_le_roundtrip(p.context_slot);
    lemma_u64_le_roundtrip(p.min_liquidity_lamports);
    lemma_u64_le_roundtrip(p.max_liquidity_lamports);
    assert(prefix.subrange(1, 9) =~= le_bytes_of_u64(p.context_slot));
    assert(prefix[9] == p.max_slot_diff);
    assert(prefix.subrange(10, 18) =~= le_bytes_of_u64(p.min_liquidity_lamports));
    assert(prefix.subrange(18, 26) =~= le_bytes_of_u64(p.max_liquidity_lamports));
}

/// The name of an on-chain precheck error code, when the code is one.
pub open spec fn spec_precheck_error_name(code: u32) -> Option<Seq<char>> {
    if code == ERR_LIQUIDITY_TOO_LOW {
        Some("LiquidityTooLow"@)
    } else if code == ERR_LIQUIDITY_TOO_HIGH {
        Some("LiquidityTooHigh"@)
    } else if code == ERR_CONTEXT_SLOT_DIFFERENCE_REACHED {
        Some("ContextSlotDifferenceReached"@)
    } else if code == ERR_INVALID_CURVE_ACCOUNT {
        Some("InvalidCurveAccount"@)
    } else if code == ERR_LIQUIDITY_DIFFERENCE_TOO_LOW {
        Some("LiquidityDifferenceTooLow"@)
    } else if code == ERR_LIQUIDITY_DIFFERENCE_TOO_HIGH {
        Some("LiquidityDifferenceTooHigh"@)
    } else {
        None
    }
}

/// Names an on-chain precheck error code, when the code is one.
pub fn precheck_error_name(code: u32) -> (r: Option<&'static str>)
    ensures
        (r is Some) == (spec_precheck_error_name(code) is Some),
        match r {
            Some(s) => spec_precheck_error_name(code) == Some(s@),
            None => spec_precheck_error_name(code) is None,
        },
{
    if code == ERR_LIQUIDITY_TOO_LOW {
        Some("LiquidityTooLow")
    } else if code == ERR_LIQUIDITY_TOO_HIGH {
        Some("LiquidityTooHigh")
    } else if code == ERR_CONTEXT_SLOT_DIFFERENCE_REACHED {
        Some("ContextSlotDifferenceReached")
    } else if code == ERR_INVALID_CURVE_ACCOUNT {
        Some("InvalidCurveAccount")
    } else if code == ERR_LIQUIDITY_DIFFERENCE_TOO_LOW {
        Some("LiquidityDifferenceTooLow")
    } else if code == ERR_LIQUIDITY_DIFFERENCE_TOO_HIGH {
        Some("LiquidityDifferenceTooHigh")
    } else {
        None
    }
}

/// Assembles the precheck instruction for a bonding curve account: the
/// payload from the validated configuration, the clock sysvar read-only
/// first, then the curve account read-only.
pub fn build_precheck_v1_instruction(bonding_curve: Pubkey, config: &PrecheckConfig) -> (r: Result<
    Instruction,
    String,
>)
    ensures
        match r {
            Ok(ins) => {
                &&& config.spec_valid()
                &&& bonding_curve@ != Pubkey::spec_default()
                &&& ins.program_id@ == (match config.program_id {
                    Some(p) => p@,
                    None => spec_default_precheck_program_id(),
                })
                &&& ins.data@ == spec_payload_bytes(
                    PrecheckPayloadV1 {
                        context_slot: config.context_slot,
                        max_slot_diff: config.max_slot_diff,
                        min_liquidity_lamports: config.min_liquidity_lamports,
                        max_liquidity_lamports: config.max_liquidity_lamports,
                        base_liquidity_lamports: config.base_liquidity_lamports,
                        min_liquidity_difference_lamports: config.min_liquidity_difference_lamports,
                        max_liquidity_difference_lamports: config.max_liquidity_difference_lamports,
                    },
                )
                &&& ins.accounts@.len() == 2
                &&& ins.accounts@[0].pubkey@ == spec_sysvar_clock_id()
                &&& !ins.accounts@[0].is_signer
                &&& !ins.accounts@[0].is_writable
                &&& ins.accounts@[1].pubkey == bonding_curve
                &&& !ins.accounts@[1].is_signer
                &&& !ins.accounts@[1].is_writable
            },
            Err(m) => {
                &&& !config.spec_valid() || bonding_curve@ == Pubkey::spec_default()
                &&& if !config.spec_valid() {
                    m@ == config.spec_invalid_reason()
                } else {
                    m@ == "Precheck requires a non-default bonding curve account"@
                }
            },
        },
{
    if let Err(m) = config.validate() {
        return Err(m);
    }
    if bonding_curve.is_default() {
        return Err("Precheck requires a non-default bonding curve account".to_owned());
    }
    let program_id = match config.program_id {
        Some(p) => p,
        None => default_precheck_program_id(),
    };
    let payload = PrecheckPayloadV1::from_config(config);
    let mut accounts: Vec<AccountMeta> = Vec::new();
    accounts.push(AccountMeta::new_readonly(sysvar_clock_id(), false));
    accounts.push(AccountMeta::new_readonly(bonding_curve, false));
    Ok(Instruction::new_with_bytes(program_id, payload.to_bytes(), accounts))
}

} // verus!
