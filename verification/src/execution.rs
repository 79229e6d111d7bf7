//! Instruction preprocessing and execution-path selection.
//!
//! Before a trade fans out, the shared base instructions are checked once:
//! an empty list fails the trade. Sizing adds up what each instruction
//! contributes to the serialized transaction.

use vstd::prelude::*;
use crate::instructions::Instruction;

verus! {

/// Bytes each referenced account contributes: one 32-byte key.
pub const BYTES_PER_ACCOUNT: usize = 32;

/// Instruction count above which a list is considered unusually large.
pub const MAX_INSTRUCTIONS_WARN: usize = 64;

/// Bytes an instruction list contributes to a serialized transaction:
/// each instruction's data plus one key per referenced account.
pub open spec fn spec_instructions_size(s: Seq<Instruction>) -> int
    decreases s.len(),
{
    if s.len() == 0 {
        0
    } else {
        spec_instructions_size(s.drop_last()) + s.last().data@.len() + s.last().accounts@.len()
            * 32
    }
}

/// Instruction preprocessing and validation.
pub struct InstructionProcessor;

impl InstructionProcessor {
    /// Validates a base instruction list: an empty one fails the trade
    /// before anything is built or sent.
    pub fn preprocess(instructions: &Vec<Instruction>) -> (r: Result<(), String>)
        ensures
            match r {
                Ok(u) => instructions@.len() > 0,
                Err(m) => instructions@.len() == 0 && m@ == "Instructions empty"@,
            },
    {
        if instructions.len() == 0 {
            return Err("Instructions empty".to_owned());
        }
        Ok(())
    }

    /// Adds up the bytes the instruction list contributes to a serialized
    /// transaction. The bound is a machine limit: the total must fit a
    /// machine word.
    pub fn calculate_size(instructions: &Vec<Instruction>) -> (r: usize)
        requires
            spec_instructions_size(instructions@) <= usize::MAX,
        ensures
            r == spec_instructions_size(instructions@),
    {
        let mut total_size: usize = 0;
        let n = instructions.len();
        let mut i: usize = 0;
        while i < n
            invariant
                n == instructions@.len(),
                i <= n,
                total_size == spec_instructions_size(instructions@.take(i as int)),
                spec_instructions_size(instructions@) <= usize::MAX,
            decreases n - i,
        {
            proof {
                assert(instructions@.take(i + 1).drop_last() =~= instructions@.take(i as int));
                assert(instructions@.take(i + 1).last() == instructions@[i as int]);
                lemma_instructions_size_prefix_bound(instructions@, i + 1);
            }
            let data_len = instructions[i].data.len();
            let accounts_len = instructions[i].accounts.len();
            total_size = total_size + data_len;
            total_size = total_size + accounts_len * BYTES_PER_ACCOUNT;
            i = i + 1;
        }
        proof {
            assert(instructions@.take(n as int) =~= instructions@);
        }
        total_size
    }
}

/// The size of a prefix never exceeds the size of the whole list.
proof fn lemma_instructions_size_prefix_bound(s: Seq<Instruction>, k: int)
    requires
        0 <= k <= s.len(),
    ensures
        spec_instructions_size(s.take(k)) <= spec_instructions_size(s),
    decreases s.len() - k,
{
    if k < s.len() {
        lemma_instructions_size_prefix_bound(s, k + 1);
        assert(s.take(k + 1).drop_last() =~= s.take(k));
        assert(s.take(k + 1).last() == s[k]);
    } else {
        assert(s.take(k) =~= s);
    }
}

/// Execution path helpers.
pub struct ExecutionPath;

impl ExecutionPath {
    /// Runs `fast_path` when the condition holds, `slow_path` otherwise;
    /// the result is exactly what the chosen closure delivers.
    pub fn select<T, F: FnOnce() -> T, G: FnOnce() -> T>(
        condition: bool,
        fast_path: F,
        slow_path: G,
    ) -> (r: T)
        requires
            condition ==> call_requires(fast_path, ()),
            !condition ==> call_requires(slow_path, ()),
        ensures
            condition ==> call_ensures(fast_path, (), r),
            !condition ==> call_ensures(slow_path, (), r),
    {
        if condition {
            fast_path()
        } else {
            slow_path()
        }
    }
}

} // verus!
