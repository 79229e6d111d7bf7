//! Channel tags and trade directions.
//!
//! Every submission channel (a "SWQOS" provider: a network path used to get
//! a signed transaction toward the chain) is identified by a tag, and every
//! trade carries a direction. Both are plain enumerations shared across the
//! planner, the collector and the callers.

use vstd::prelude::*;

verus! {

/// Tag identifying one configured submission channel.
///
/// `Default` is the canonical direct-RPC channel; the others are relay
/// vendors, each with its own latency, fee floor and reliability.
#[derive(Clone, Copy, Debug, Hash, PartialEq, Eq, Structural)]
pub enum SwqosType {
    Default,
    Jito,
    NextBlock,
    ZeroSlot,
    Bloxroute,
    Node1,
    BlockRazor,
    Astralane,
    Stellium,
    Helius,
}

/// Direction of a trade request.
#[derive(Clone, Copy, Debug, Hash, PartialEq, Eq, Structural)]
pub enum TradeType {
    Buy,
    Sell,
    CreateAndBuy,
}

impl TradeType {
    /// Whether this direction spends SOL for tokens (a buy-side trade).
    pub fn is_buy(&self) -> (r: bool)
        ensures
            r == (*self == TradeType::Buy || *self == TradeType::CreateAndBuy),
    {
        match self {
            TradeType::Buy => true,
            TradeType::CreateAndBuy => true,
            TradeType::Sell => false,
        }
    }
}

} // verus!
