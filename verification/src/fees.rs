//! Fee and tip strategy resolution.
//!
//! A strategy is an ordered list of entries, each binding a channel tag and a
//! trade direction to one way of paying for inclusion: a compute-unit limit,
//! a compute-unit price, and a tip in lamports. Resolving a direction keeps
//! the entries for that direction, in order.

use vstd::prelude::*;
use crate::swqos::{SwqosType, TradeType};

verus! {

/// One way to pay for inclusion: compute budget plus tip.
///
/// The tip is an extra lamport payment to a channel-designated account, used
/// as an incentive for prioritized inclusion.
#[derive(Clone, Copy, Debug, PartialEq, Eq, Structural)]
pub struct GasFeeConfig {
    /// Requested compute-unit limit for the transaction.
    pub cu_limit: u32,
    /// Price paid per compute unit, in micro-lamports.
    pub cu_price: u64,
    /// Tip paid to the channel's tip account, in lamports.
    pub tip_lamports: u64,
}

/// One strategy entry: a fee configuration bound to a channel tag and a
/// trade direction.
#[derive(Clone, Copy, Debug, PartialEq, Eq, Structural)]
pub struct GasFeeStrategyConfig {
    /// Channel this entry applies to.
    pub swqos_type: SwqosType,
    /// Direction this entry applies to.
    pub trade_type: TradeType,
    /// The fee configuration itself.
    pub fee: GasFeeConfig,
}

/// Ordered collection of strategy entries, resolved per direction.
#[derive(Clone, Debug)]
pub struct GasFeeStrategy {
    configs: Vec<GasFeeStrategyConfig>,
}

impl View for GasFeeStrategy {
    type V = Seq<GasFeeStrategyConfig>;

    closed spec fn view(&self) -> Seq<GasFeeStrategyConfig> {
        self.configs@
    }
}

/// Whether a strategy entry applies to the given trade direction.
pub open spec fn applies_to(c: GasFeeStrategyConfig, trade_type: TradeType) -> bool {
    c.trade_type == trade_type
}

/// The entries of `s` that apply to `trade_type`, in order.
pub open spec fn strategies_for(
    s: Seq<GasFeeStrategyConfig>,
    trade_type: TradeType,
) -> Seq<GasFeeStrategyConfig> {
    s.filter(|c: GasFeeStrategyConfig| applies_to(c, trade_type))
}

impl GasFeeStrategy {
    /// An empty strategy: no entry, so no direction resolves to anything.
    pub fn new() -> (r: Self)
        ensures
            r@ == Seq::<GasFeeStrategyConfig>::empty(),
    {
        GasFeeStrategy { configs: Vec::new() }
    }

    /// Appends one entry; later entries keep their relative order.
    pub fn add_config(&mut self, config: GasFeeStrategyConfig)
        ensures
            final(self)@ == old(self)@.push(config),
    {
        self.configs.push(config);
    }

    /// Removes every entry.
    pub fn clear(&mut self)
        ensures
            final(self)@ == Seq::<GasFeeStrategyConfig>::empty(),
    {
        self.configs.clear();
    }

    /// Number of entries over all directions.
    pub fn len(&self) -> (r: usize)
        ensures
            r == self@.len(),
    {
        self.configs.len()
    }

    /// Resolves a direction: the entries for `trade_type`, in order.
    ///
    /// Pure and deterministic; entries for other directions are dropped and
    /// the relative order of the kept entries is preserved.
    pub fn get_strategies(&self, trade_type: TradeType) -> (r: Vec<GasFeeStrategyConfig>)
        ensures
            r@ == strategies_for(self@, trade_type),
    {
        let mut r: Vec<GasFeeStrategyConfig> = Vec::new();
        let n = self.configs.len();
        let mut i: usize = 0;
        proof {
            reveal(Seq::filter);
            assert(strategies_for(self@.take(0), trade_type) =~= Seq::<
                GasFeeStrategyConfig,
            >::empty());
        }
        while i < n
            invariant
                n == self@.len(),
                i <= n,
                r@ == strategies_for(self@.take(i as int), trade_type),
            decreases n - i,
        {
            let c = self.configs[i];
            if c.trade_type == trade_type {
                r.push(c);
            }
            proof {
                reveal(Seq::filter);
                assert(self@.take(i + 1).drop_last() =~= self@.take(i as int));
                assert(self@.take(i + 1).last() == self@[i as int]);
            }
            i = i + 1;
        }
        proof {
            assert(self@.take(n as int) =~= self@);
        }
        r
    }
}

} // verus!
