//! Transaction assembly for one submission task.
//!
//! Each task builds its own transaction variant: a durable-nonce advance
//! first when the trade carries one, then the base instructions, the
//! compute-budget requests for the task's fee configuration, and the tip
//! transfer when the task tips its channel. When a durable nonce is
//! supplied, the nonce's own blockhash signs the transaction, not the
//! recent one.

use vstd::prelude::*;
use crate::instructions::{AccountMeta, AccountView, InstrView, Instruction, Pubkey};
use crate::le_bytes::{le_bytes_of_u32, le_bytes_of_u64, push_u32_le, push_u64_le};

verus! {

/// A 32-byte blockhash, carried through by value.
#[derive(Clone, Copy, Debug, PartialEq, Eq)]
pub struct Blockhash {
    /// The raw hash bytes.
    pub bytes: [u8; 32],
}

impl View for Blockhash {
    type V = Seq<u8>;

    open spec fn view(&self) -> Seq<u8> {
        self.bytes@
    }
}

impl Blockhash {
    /// Constructs a blockhash from its raw bytes.
    pub fn new_from_array(bytes: [u8; 32]) -> (r: Self)
        ensures
            r@ == bytes@,
    {
        Blockhash { bytes }
    }
}

/// A durable nonce: the nonce account to advance, its authority, and the
/// nonce value currently stored in it, which signs the transaction.
#[derive(Clone, Copy, Debug)]
pub struct DurableNonceInfo {
    /// The nonce account.
    pub nonce_account: Pubkey,
    /// The account authorized to advance the nonce.
    pub authority: Pubkey,
    /// The nonce value currently stored on-chain.
    pub current_nonce: Blockhash,
}

/// Key of the compute-budget program.
pub open spec fn spec_compute_budget_program_id() -> Seq<u8> {
    seq![
        3u8, 6u8, 70u8, 111u8, 229u8, 33u8, 23u8, 50u8, 255u8, 236u8, 173u8, 186u8, 114u8, 195u8,
        155u8, 231u8, 188u8, 140u8, 229u8, 187u8, 197u8, 247u8, 18u8, 107u8, 44u8, 67u8, 155u8,
        58u8, 64u8, 0u8, 0u8, 0u8,
    ]
}

/// The compute-budget program's key.
pub fn compute_budget_program_id() -> (r: Pubkey)
    ensures
        r@ == spec_compute_budget_program_id(),
{
    let r = Pubkey::new_from_array(
        [
            3u8, 6, 70, 111, 229, 33, 23, 50, 255, 236, 173, 186, 114, 195, 155, 231, 188, 140,
            229, 187, 197, 247, 18, 107, 44, 67, 155, 58, 64, 0, 0, 0,
        ],
    );
    proof {
        assert(r@ =~= spec_compute_budget_program_id());
    }
    r
}

/// Key of the recent-blockhashes sysvar account.
pub open spec fn spec_sysvar_recent_blockhashes_id() -> Seq<u8> {
    seq![
        6u8, 167u8, 213u8, 23u8, 25u8, 44u8, 86u8, 142u8, 224u8, 138u8, 132u8, 95u8, 115u8,
        210u8, 151u8, 136u8, 207u8, 3u8, 92u8, 49u8, 69u8, 178u8, 26u8, 179u8, 68u8, 216u8, 6u8,
        46u8, 169u8, 64u8, 0u8, 0u8,
    ]
}

/// The recent-blockhashes sysvar's key.
pub fn sysvar_recent_blockhashes_id() -> (r: Pubkey)
    ensures
        r@ == spec_sysvar_recent_blockhashes_id(),
{
    let r = Pubkey::new_from_array(
        [
            6u8, 167, 213, 23, 25, 44, 86, 142, 224, 138, 132, 95, 115, 210, 151, 136, 207, 3, 92,
            49, 69, 178, 26, 179, 68, 216, 6, 46, 169, 64, 0, 0,
        ],
    );
    proof {
        assert(r@ =~= spec_sysvar_recent_blockhashes_id());
    }
    r
}

/// The system program's key is the all-zero key.
pub open spec fn spec_system_program_id() -> Seq<u8> {
    Pubkey::spec_default()
}

/// The compute-unit-limit request: instruction 2 of the compute-budget
/// program, carrying the limit in little-endian bytes, touching no account.
pub open spec fn spec_set_compute_unit_limit(units: u32) -> InstrView {
    InstrView {
        program_id: spec_compute_budget_program_id(),
        accounts: Seq::empty(),
        data: seq![2u8] + le_bytes_of_u32(units),
    }
}

/// Builds the compute-unit-limit request.
pub fn set_compute_unit_limit(units: u32) -> (r: Instruction)
    ensures
        r@ == spec_set_compute_unit_limit(units),
{
    let mut data: Vec<u8> = Vec::new();
    data.push(2u8);
    push_u32_le(&mut data, units);
    let r = Instruction::new_with_bytes(compute_budget_program_id(), data, Vec::new());
    proof {
        assert(r@ =~~= spec_set_compute_unit_limit(units));
    }
    r
}

/// The compute-unit-price request: instruction 3 of the compute-budget
/// program, carrying the price in little-endian bytes, touching no account.
pub open spec fn spec_set_compute_unit_price(micro_lamports: u64) -> InstrView {
    InstrView {
        program_id: spec_compute_budget_program_id(),
        accounts: Seq::empty(),
        data: seq![3u8] + le_bytes_of_u64(micro_lamports),
    }
}

/// Builds the compute-unit-price request.
pub fn set_compute_unit_price(micro_lamports: u64) -> (r: Instruction)
    ensures
        r@ == spec_set_compute_unit_price(micro_lamports),
{
    let mut data: Vec<u8> = Vec::new();
    data.push(3u8);
    push_u64_le(&mut data, micro_lamports);
    let r = Instruction::new_with_bytes(compute_budget_program_id(), data, Vec::new());
    proof {
        assert(r@ =~~= spec_set_compute_unit_price(micro_lamports));
    }
    r
}

/// A lamport transfer: system instruction 2, from the signing payer to the
/// recipient, both writable.
pub open spec fn spec_system_transfer(from: Seq<u8>, to: Seq<u8>, lamports: u64) -> InstrView {
    InstrView {
        program_id: spec_system_program_id(),
        accounts: seq![
            AccountView { pubkey: from, is_signer: true, is_writable: true },
            AccountView { pubkey: to, is_signer: false, is_writable: true },
        ],
        data: seq![2u8, 0u8, 0u8, 0u8] + le_bytes_of_u64(lamports),
    }
}

/// Builds a lamport transfer from the payer to a recipient.
pub fn system_transfer(from: Pubkey, to: Pubkey, lamports: u64) -> (r: Instruction)
    ensures
        r@ == spec_system_transfer(from@, to@, lamports),
{
    let mut data: Vec<u8> = Vec::new();
    data.push(2u8);
    data.push(0u8);
    data.push(0u8);
    data.push(0u8);
    push_u64_le(&mut data, lamports);
    let mut accounts: Vec<AccountMeta> = Vec::new();
    accounts.push(AccountMeta::new(from, true));
    accounts.push(AccountMeta::new(to, false));
    let r = Instruction::new_with_bytes(Pubkey::default(), data, accounts);
    proof {
        assert(r@ =~~= spec_system_transfer(from@, to@, lamports));
    }
    r
}

/// The durable-nonce advance: system instruction 4 on the writable nonce
/// account, reading the recent-blockhashes sysvar, authorized by the
/// signing nonce authority.
pub open spec fn spec_advance_nonce_account(nonce_account: Seq<u8>, authority: Seq<u8>) -> InstrView {
    InstrView {
        program_id: spec_system_program_id(),
        accounts: seq![
            AccountView { pubkey: nonce_account, is_signer: false, is_writable: true },
            AccountView {
                pubkey: spec_sysvar_recent_blockhashes_id(),
                is_signer: false,
                is_writable: false,
            },
            AccountView { pubkey: authority, is_signer: true, is_writable: false },
        ],
        data: seq![4u8, 0u8, 0u8, 0u8],
    }
}

/// Builds the durable-nonce advance for a nonce account and its authority.
pub fn advance_nonce_account(nonce_account: Pubkey, authority: Pubkey) -> (r: Instruction)
    ensures
        r@ == spec_advance_nonce_account(nonce_account@, authority@),
{
    let mut data: Vec<u8> = Vec::new();
    data.push(4u8);
    data.push(0u8);
    data.push(0u8);
    data.push(0u8);
    let mut accounts: Vec<AccountMeta> = Vec::new();
    accounts.push(AccountMeta::new(nonce_account, false));
    accounts.push(AccountMeta::new_readonly(sysvar_recent_blockhashes_id(), false));
    accounts.push(AccountMeta::new_readonly(authority, true));
    let r = Instruction::new_with_bytes(Pubkey::default(), data, accounts);
    proof {
        assert(r@ =~~= spec_advance_nonce_account(nonce_account@, authority@));
    }
    r
}

/// The blockhash that signs the transaction: a durable nonce's stored
/// value when one is supplied, the recent blockhash otherwise; with
/// neither, the transaction cannot be built.
pub fn select_blockhash(recent_blockhash: Option<Blockhash>, durable_nonce: Option<
    &DurableNonceInfo,
>) -> (r: Result<Blockhash, String>)
    ensures
        match r {
            Ok(h) => match durable_nonce {
                Some(n) => h@ == n.current_nonce@,
                None => recent_blockhash matches Some(b) && h@ == b@,
            },
            Err(m) => durable_nonce is None && recent_blockhash is None && m@
                == "No blockhash or durable nonce available"@,
        },
{
    match durable_nonce {
        Some(n) => Ok(n.current_nonce),
        None => match recent_blockhash {
            Some(b) => Ok(b),
            None => Err("No blockhash or durable nonce available".to_owned()),
        },
    }
}

/// The instruction views of an instruction list.
pub open spec fn spec_views(s: Seq<Instruction>) -> Seq<InstrView> {
    s.map_values(|i: Instruction| i@)
}

/// The instruction list one task's transaction carries: the nonce advance
/// first when a durable nonce is supplied, the base instructions, the
/// compute-budget requests, and the tip transfer when the task tips.
pub open spec fn spec_assembled_instructions(
    payer: Seq<u8>,
    base: Seq<InstrView>,
    cu_limit: u32,
    cu_price: u64,
    include_tip: bool,
    tip_account: Seq<u8>,
    tip_lamports: u64,
    durable_nonce: Option<DurableNonceInfo>,
) -> Seq<InstrView> {
    let nonce_part: Seq<InstrView> = match durable_nonce {
        Some(n) => seq![spec_advance_nonce_account(n.nonce_account@, n.authority@)],
        None => Seq::empty(),
    };
    let budget_part = seq![
        spec_set_compute_unit_limit(cu_limit),
        spec_set_compute_unit_price(cu_price),
    ];
    let tip_part: Seq<InstrView> = if include_tip {
        seq![spec_system_transfer(payer, tip_account, tip_lamports)]
    } else {
        Seq::empty()
    };
    nonce_part + base + budget_part + tip_part
}

/// Assembles the full instruction list for one task's transaction variant.
/// An empty base list fails the task before anything is sent.
pub fn assemble_transaction_instructions(
    payer: Pubkey,
    base: Vec<Instruction>,
    cu_limit: u32,
    cu_price: u64,
    include_tip: bool,
    tip_account: Pubkey,
    tip_lamports: u64,
    durable_nonce: Option<&DurableNonceInfo>,
) -> (r: Result<Vec<Instruction>, String>)
    ensures
        match r {
            Ok(v) => base@.len() > 0 && spec_views(v@) == spec_assembled_instructions(
                payer@,
                spec_views(base@),
                cu_limit,
                cu_price,
                include_tip,
                tip_account@,
                tip_lamports,
                match durable_nonce {
                    Some(n) => Some(*n),
                    None => None,
                },
            ),
            Err(m) => base@.len() == 0 && m@ == "Instructions empty"@,
        },
{
    if base.len() == 0 {
        return Err("Instructions empty".to_owned());
    }
    let ghost base_views = spec_views(base@);
    let mut out: Vec<Instruction> = Vec::new();
    if let Some(n) = durable_nonce {
        out.push(advance_nonce_account(n.nonce_account, n.authority));
    }
    let mut rest = base;
    out.append(&mut rest);
    out.push(set_compute_unit_limit(cu_limit));
    out.push(set_compute_unit_price(cu_price));
    if include_tip {
        out.push(system_transfer(payer, tip_account, tip_lamports));
    }
    proof {
        assert(spec_views(out@) =~~= spec_assembled_instructions(
            payer@,
            base_views,
            cu_limit,
            cu_price,
            include_tip,
            tip_account@,
            tip_lamports,
            match durable_nonce {
                Some(n) => Some(*n),
                None => None,
            },
        ));
    }
    Ok(out)
}

} // verus!
