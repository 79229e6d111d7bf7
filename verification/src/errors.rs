//! Error taxonomy of the submission engine.
//!
//! Precondition errors abort a trade before any task is spawned. Send errors
//! come back from a channel and are classified into "landed on-chain"
//! (an on-chain program rejected the transaction, consuming any nonce it
//! referenced) versus "not landed" (network failures and timeouts, after
//! which sibling channels may still succeed).

use vstd::prelude::*;

verus! {

/// Structured trade error: an on-chain or vendor error code, a message, and
/// the index of the offending instruction when one is known.
#[derive(Debug, PartialEq, Eq)]
pub struct TradeError {
    /// Error code; on-chain custom program codes keep their value, plain
    /// transport failures carry 500.
    pub code: u32,
    /// Human-readable description.
    pub message: String,
    /// Index of the instruction that failed, when the chain reported one.
    pub instruction: Option<u8>,
}

/// An error reported by a channel's send call: either a structured
/// [`TradeError`], or an unstructured message from the transport layer.
#[derive(Debug, PartialEq, Eq)]
pub enum SendError {
    Trade(TradeError),
    Other(String),
}

impl Clone for TradeError {
    /// An exact copy: every field of the clone equals the original's.
    fn clone(&self) -> (r: Self)
        ensures
            r == *self,
    {
        TradeError {
            code: self.code,
            message: self.message.clone(),
            instruction: self.instruction,
        }
    }
}

impl Clone for SendError {
    /// An exact copy: the clone equals the original.
    fn clone(&self) -> (r: Self)
        ensures
            r == *self,
    {
        match self {
            SendError::Trade(te) => SendError::Trade(te.clone()),
            SendError::Other(msg) => SendError::Other(msg.clone()),
        }
    }
}

/// Whether `needle` occurs contiguously inside `haystack`.
pub open spec fn spec_str_contains(haystack: Seq<char>, needle: Seq<char>) -> bool {
    exists|i: int|
        0 <= i && i + needle.len() <= haystack.len() && #[trigger] haystack.subrange(
            i,
            i + needle.len(),
        ) == needle
}

/// Relies on `str::contains`: true exactly when the needle occurs as a
/// substring of the haystack.
#[verifier::external_body]
pub(crate) fn str_contains(haystack: &str, needle: &str) -> (r: bool)
    ensures
        r == spec_str_contains(haystack@, needle@),
{
    haystack.contains(needle)
}

impl SendError {
    /// The structured form of this error: a [`TradeError`] is kept as it is,
    /// anything else becomes code 500 with the original message.
    pub fn to_trade_error(&self) -> (r: TradeError)
        ensures
            r == spec_to_trade_error(*self),
    {
        match self {
            SendError::Trade(te) => TradeError {
                code: te.code,
                message: te.message.clone(),
                instruction: te.instruction,
            },
            SendError::Other(msg) => TradeError {
                code: 500u32,
                message: msg.clone(),
                instruction: None,
            },
        }
    }
}

/// Spec-level counterpart of [`SendError::to_trade_error`].
pub open spec fn spec_to_trade_error(e: SendError) -> TradeError {
    match e {
        SendError::Trade(te) => te,
        SendError::Other(msg) => TradeError { code: 500u32, message: msg, instruction: None },
    }
}

/// Whether a send error means the transaction landed on-chain.
///
/// A structured error with a non-zero code means the transaction reached the
/// chain and failed there (for example, slippage exceeded), except that code
/// 500 with a "timed out" message is a transport timeout. Unstructured
/// errors are conservatively treated as not landed.
pub open spec fn spec_is_landed_error(e: SendError) -> bool {
    match e {
        SendError::Trade(te) => {
            if te.code == 500 && spec_str_contains(te.message@, "timed out"@) {
                false
            } else {
                te.code > 0
            }
        },
        SendError::Other(_) => false,
    }
}

/// Classifies a send error as "landed on-chain" versus "not landed".
///
/// Best-effort heuristic on the error code plus a message substring check;
/// unrecognized errors default to "not landed", which may under-trigger the
/// nonce short-circuit for novel error shapes.
pub fn is_landed_error(error: &SendError) -> (r: bool)
    ensures
        r == spec_is_landed_error(*error),
{
    match error {
        SendError::Trade(te) => {
            if te.code == 500 && str_contains(te.message.as_str(), "timed out") {
                false
            } else {
                te.code > 0
            }
        },
        SendError::Other(_) => false,
    }
}

/// A failure of the whole trade call, raised before any task is spawned or
/// after every task's outcome has been seen.
#[derive(Clone, Copy, Debug, PartialEq, Eq, Structural)]
pub enum ExecuteError {
    /// The channel registry is empty.
    EmptySwqosClients,
    /// Tipping is disabled and no direct-RPC channel is configured.
    NoDefaultSwqos,
    /// The cross product of channels and fee configurations is empty.
    NoAvailableConfigs,
    /// A buy fanning out to several tasks needs a durable nonce.
    DurableNonceRequired,
    /// No task reported success and no decision rule fired in time.
    AllTransactionsFailed,
    /// No task finished submitting within the submit timeout.
    NoResultWithinTimeout,
}

impl ExecuteError {
    /// The message text for this error.
    pub open spec fn spec_message(self) -> Seq<char> {
        match self {
            ExecuteError::EmptySwqosClients => "swqos_clients is empty"@,
            ExecuteError::NoDefaultSwqos => "No Rpc Default Swqos configured."@,
            ExecuteError::NoAvailableConfigs => "No available gas fee strategy configs"@,
            ExecuteError::DurableNonceRequired => "Multiple swqos transactions require durable_nonce to be set."@,
            ExecuteError::AllTransactionsFailed => "All transactions failed"@,
            ExecuteError::NoResultWithinTimeout => "No SWQOS result within the submit timeout"@,
        }
    }

    /// Renders the error as its message text.
    pub fn message(&self) -> (r: String)
        ensures
            r@ == self.spec_message(),
    {
        match self {
            ExecuteError::EmptySwqosClients => "swqos_clients is empty".to_owned(),
            ExecuteError::NoDefaultSwqos => "No Rpc Default Swqos configured.".to_owned(),
            ExecuteError::NoAvailableConfigs => "No available gas fee strategy configs".to_owned(),
            ExecuteError::DurableNonceRequired => "Multiple swqos transactions require durable_nonce to be set.".to_owned(),
            ExecuteError::AllTransactionsFailed => "All transactions failed".to_owned(),
            ExecuteError::NoResultWithinTimeout => "No SWQOS result within the submit timeout".to_owned(),
        }
    }
}

} // verus!
