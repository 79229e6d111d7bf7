//! Task planning for the parallel multi-channel submission engine.
//!
//! One trade fans out into independent submission tasks, one per surviving
//! (channel, fee configuration) pair. Planning validates the preconditions,
//! computes the filtered cross product, and fails fast — before any network
//! call — when the trade cannot be dispatched safely.

use vstd::prelude::*;
use crate::errors::ExecuteError;
use crate::fees::{GasFeeConfig, GasFeeStrategy, GasFeeStrategyConfig, strategies_for};
use crate::swqos::{SwqosType, TradeType};

verus! {

/// What planning needs to know about one configured channel: its tag and
/// its minimum-tip policy (zero unless the channel enforces a floor).
#[derive(Clone, Copy, Debug, PartialEq, Eq, Structural)]
pub struct SwqosChannelInfo {
    /// The channel's tag.
    pub swqos_type: SwqosType,
    /// Minimum tip the channel accepts, in lamports.
    pub min_tip_lamports: u64,
}

/// One planned unit of work: a channel index into the registry, the
/// channel's tag, and the fee configuration the task will pay with.
#[derive(Clone, Copy, Debug, PartialEq, Eq, Structural)]
pub struct TaskConfig {
    /// Index of the channel in the registry handed to the planner.
    pub channel_index: usize,
    /// Tag of that channel.
    pub swqos_type: SwqosType,
    /// Fee configuration for the task's transaction variant.
    pub fee: GasFeeConfig,
}

/// Whether a channel takes part in the fan-out at all: every channel does
/// when tipping is enabled, otherwise only the direct-RPC channel.
pub open spec fn channel_included(ch: SwqosChannelInfo, with_tip: bool) -> bool {
    with_tip || ch.swqos_type == SwqosType::Default
}

/// Whether the minimum-tip floor applies to this channel.
pub open spec fn tip_floor_applies(ch: SwqosChannelInfo, with_tip: bool, check_min_tip: bool) -> bool {
    with_tip && ch.swqos_type != SwqosType::Default && check_min_tip
}

/// Whether one strategy entry survives for one channel: the tags must match
/// and, when the tip floor applies, the tip must meet the channel's minimum.
pub open spec fn task_kept(
    ch: SwqosChannelInfo,
    s: GasFeeStrategyConfig,
    with_tip: bool,
    check_min_tip: bool,
) -> bool {
    s.swqos_type == ch.swqos_type && (tip_floor_applies(ch, with_tip, check_min_tip)
        ==> s.fee.tip_lamports >= ch.min_tip_lamports)
}

/// The task a surviving (channel, entry) pair turns into.
pub open spec fn task_of(ch: SwqosChannelInfo, i: int, s: GasFeeStrategyConfig) -> TaskConfig {
    TaskConfig { channel_index: i as usize, swqos_type: ch.swqos_type, fee: s.fee }
}

/// The tasks one channel contributes, in strategy order.
pub open spec fn channel_tasks(
    ch: SwqosChannelInfo,
    i: int,
    strats: Seq<GasFeeStrategyConfig>,
    with_tip: bool,
    check_min_tip: bool,
) -> Seq<TaskConfig>
    decreases strats.len(),
{
    if strats.len() == 0 {
        Seq::empty()
    } else {
        let rest = channel_tasks(ch, i, strats.drop_last(), with_tip, check_min_tip);
        if task_kept(ch, strats.last(), with_tip, check_min_tip) {
            rest.push(task_of(ch, i, strats.last()))
        } else {
            rest
        }
    }
}

/// The whole planned task list: channels in registry order, each included
/// channel contributing its surviving strategy entries in order.
pub open spec fn planned_tasks(
    channels: Seq<SwqosChannelInfo>,
    strats: Seq<GasFeeStrategyConfig>,
    with_tip: bool,
    check_min_tip: bool,
) -> Seq<TaskConfig>
    decreases channels.len(),
{
    if channels.len() == 0 {
        Seq::empty()
    } else {
        let rest = planned_tasks(channels.drop_last(), strats, with_tip, check_min_tip);
        if channel_included(channels.last(), with_tip) {
            rest + channel_tasks(
                channels.last(),
                channels.len() - 1,
                strats,
                with_tip,
                check_min_tip,
            )
        } else {
            rest
        }
    }
}

/// Whether some channel in the registry is the direct-RPC channel.
pub open spec fn spec_has_default(channels: Seq<SwqosChannelInfo>) -> bool {
    exists|k: int| 0 <= k < channels.len() && (#[trigger] channels[k]).swqos_type == SwqosType::Default
}

/// The planning decision, in the order the checks are made: an empty
/// registry, a missing direct-RPC channel while tipping is disabled, an
/// empty task set, and a multi-task buy without a durable nonce each fail
/// the whole trade; otherwise the task list stands.
pub open spec fn spec_plan(
    channels: Seq<SwqosChannelInfo>,
    strats: Seq<GasFeeStrategyConfig>,
    is_buy: bool,
    with_tip: bool,
    check_min_tip: bool,
    has_durable_nonce: bool,
) -> Result<Seq<TaskConfig>, ExecuteError> {
    let tasks = planned_tasks(channels, strats, with_tip, check_min_tip);
    if channels.len() == 0 {
        Err(ExecuteError::EmptySwqosClients)
    } else if !with_tip && !spec_has_default(channels) {
        Err(ExecuteError::NoDefaultSwqos)
    } else if tasks.len() == 0 {
        Err(ExecuteError::NoAvailableConfigs)
    } else if is_buy && tasks.len() > 1 && !has_durable_nonce {
        Err(ExecuteError::DurableNonceRequired)
    } else {
        Ok(tasks)
    }
}

/// Plans the fan-out for one trade.
///
/// Resolves the strategy for the trade direction, validates the
/// preconditions, and returns one [`TaskConfig`] per surviving
/// (channel, fee configuration) pair — or the error that aborts the trade
/// before any task is spawned.
pub fn plan_tasks(
    channels: &Vec<SwqosChannelInfo>,
    strategy: &GasFeeStrategy,
    is_buy: bool,
    with_tip: bool,
    check_min_tip: bool,
    has_durable_nonce: bool,
) -> (r: Result<Vec<TaskConfig>, ExecuteError>)
    ensures
        ({
            let strats = strategies_for(
                strategy@,
                if is_buy {
                    TradeType::Buy
                } else {
                    TradeType::Sell
                },
            );
            let plan = spec_plan(
                channels@,
                strats,
                is_buy,
                with_tip,
                check_min_tip,
                has_durable_nonce,
            );
            match r {
                Ok(v) => plan == Ok::<Seq<TaskConfig>, ExecuteError>(v@),
                Err(e) => plan == Err::<Seq<TaskConfig>, ExecuteError>(e),
            }
        }),
{
    if channels.len() == 0 {
        return Err(ExecuteError::EmptySwqosClients);
    }
    if !with_tip {
        let mut found_default = false;
        let mut k: usize = 0;
        while k < channels.len()
            invariant
                k <= channels@.len(),
                found_default == spec_has_default(channels@.take(k as int)),
            decreases channels@.len() - k,
        {
            if channels[k].swqos_type == SwqosType::Default {
                found_default = true;
            }
            proof {
                assert(channels@.take(k + 1).drop_last() =~= channels@.take(k as int));
                assert(channels@.take(k + 1).last() == channels@[k as int]);
                assert(spec_has_default(channels@.take(k + 1)) == (spec_has_default(
                    channels@.take(k as int),
                ) || channels@[k as int].swqos_type == SwqosType::Default)) by {
                    let pre = channels@.take(k as int);
                    let cur = channels@.take(k + 1);
                    if spec_has_default(pre) {
                        let w = choose|w: int|
                            0 <= w < pre.len() && (#[trigger] pre[w]).swqos_type
                                == SwqosType::Default;
                        assert(cur[w].swqos_type == SwqosType::Default);
                    }
                    if channels@[k as int].swqos_type == SwqosType::Default {
                        assert(cur[k as int].swqos_type == SwqosType::Default);
                    }
                    if spec_has_default(cur) {
                        let w = choose|w: int|
                            0 <= w < cur.len() && (#[trigger] cur[w]).swqos_type
                                == SwqosType::Default;
                        if w < k {
                            assert(pre[w].swqos_type == SwqosType::Default);
                        }
                    }
                }
            }
            k = k + 1;
        }
        proof {
            assert(channels@.take(channels@.len() as int) =~= channels@);
        }
        if !found_default {
            return Err(ExecuteError::NoDefaultSwqos);
        }
    }
    let strats = strategy.get_strategies(
        if is_buy {
            TradeType::Buy
        } else {
            TradeType::Sell
        },
    );
    let mut tasks: Vec<TaskConfig> = Vec::new();
    let n = channels.len();
    let mut i: usize = 0;
    while i < n
        invariant
            n == channels@.len(),
            i <= n,
            strats@ == strategies_for(
                strategy@,
                if is_buy {
                    TradeType::Buy
                } else {
                    TradeType::Sell
                },
            ),
            tasks@ == planned_tasks(channels@.take(i as int), strats@, with_tip, check_min_tip),
        decreases n - i,
    {
        let ch = channels[i];
        if with_tip || ch.swqos_type == SwqosType::Default {
            let check_tip = with_tip && ch.swqos_type != SwqosType::Default && check_min_tip;
            let m = strats.len();
            let mut j: usize = 0;
            while j < m
                invariant
                    m == strats@.len(),
                    j <= m,
                    i < n,
                    n == channels@.len(),
                    ch == channels@[i as int],
                    with_tip || ch.swqos_type == SwqosType::Default,
                    check_tip == tip_floor_applies(ch, with_tip, check_min_tip),
                    tasks@ == planned_tasks(channels@.take(i as int), strats@, with_tip, check_min_tip)
                        + channel_tasks(ch, i as int, strats@.take(j as int), with_tip, check_min_tip),
                decreases m - j,
            {
                let s = strats[j];
                if s.swqos_type == ch.swqos_type && (!check_tip || s.fee.tip_lamports
                    >= ch.min_tip_lamports) {
                    tasks.push(
                        TaskConfig { channel_index: i, swqos_type: ch.swqos_type, fee: s.fee },
                    );
                }
                proof {
                    assert(strats@.take(j + 1).drop_last() =~= strats@.take(j as int));
                    assert(strats@.take(j + 1).last() == strats@[j as int]);
                }
                j = j + 1;
            }
            proof {
                assert(strats@.take(m as int) =~= strats@);
            }
        }
        proof {
            assert(channels@.take(i + 1).drop_last() =~= channels@.take(i as int));
            assert(channels@.take(i + 1).last() == channels@[i as int]);
        }
        i = i + 1;
    }
    proof {
        assert(channels@.take(n as int) =~= channels@);
    }
    if tasks.len() == 0 {
        return Err(ExecuteError::NoAvailableConfigs);
    }
    if is_buy && tasks.len() > 1 && !has_durable_nonce {
        return Err(ExecuteError::DurableNonceRequired);
    }
    Ok(tasks)
}

/// Whether the trade pays tips: a buy always tips; a sell tips only when
/// the caller asked for it.
pub fn effective_with_tip(is_buy: bool, with_tip: bool) -> (r: bool)
    ensures
        r == (is_buy || with_tip),
{
    if is_buy {
        true
    } else {
        with_tip
    }
}

/// The first strategy entry bound to the direct-RPC channel, if any; a
/// simulation runs under that entry's fee configuration.
pub fn find_default_config(strategies: &Vec<GasFeeStrategyConfig>) -> (r: Option<
    GasFeeStrategyConfig,
>)
    ensures
        match r {
            Some(c) => exists|i: int|
                0 <= i < strategies@.len() && strategies@[i] == c && c.swqos_type
                    == SwqosType::Default && (forall|j: int|
                    0 <= j < i ==> (#[trigger] strategies@[j]).swqos_type != SwqosType::Default),
            None => forall|i: int|
                0 <= i < strategies@.len() ==> (#[trigger] strategies@[i]).swqos_type
                    != SwqosType::Default,
        },
{
    let n = strategies.len();
    let mut i: usize = 0;
    while i < n
        invariant
            n == strategies@.len(),
            i <= n,
            forall|j: int|
                0 <= j < i ==> (#[trigger] strategies@[j]).swqos_type != SwqosType::Default,
        decreases n - i,
    {
        let c = strategies[i];
        if c.swqos_type == SwqosType::Default {
            return Some(c);
        }
        i = i + 1;
    }
    None
}

/// Precondition enforcement: a buy whose plan fans out to two or more tasks
/// is refused outright when no durable nonce is supplied — the trade fails
/// before any task is spawned, whatever else holds.
pub proof fn lemma_buy_requires_durable_nonce(
    channels: Seq<SwqosChannelInfo>,
    strats: Seq<GasFeeStrategyConfig>,
    with_tip: bool,
    check_min_tip: bool,
)
    requires
        channels.len() > 0,
        with_tip || spec_has_default(channels),
        planned_tasks(channels, strats, with_tip, check_min_tip).len() >= 2,
    ensures
        spec_plan(channels, strats, true, with_tip, check_min_tip, false) == Err::<
            Seq<TaskConfig>,
            ExecuteError,
        >(ExecuteError::DurableNonceRequired),
{
}

/// Tip floor filtering: for a tipping channel below whose floor an entry's
/// tip falls, the entry is dropped exactly when minimum-tip enforcement is
/// requested, and kept when it is not.
pub proof fn lemma_tip_floor_filtering(
    ch: SwqosChannelInfo,
    s: GasFeeStrategyConfig,
    with_tip: bool,
)
    requires
        with_tip,
        ch.swqos_type != SwqosType::Default,
        s.swqos_type == ch.swqos_type,
        s.fee.tip_lamports < ch.min_tip_lamports,
    ensures
        !task_kept(ch, s, with_tip, true),
        task_kept(ch, s, with_tip, false),
{
}

/// The tasks a channel contributes are exactly its surviving strategy
/// entries, in order, each turned into its task.
pub proof fn lemma_channel_tasks_characterization(
    ch: SwqosChannelInfo,
    i: int,
    strats: Seq<GasFeeStrategyConfig>,
    with_tip: bool,
    check_min_tip: bool,
)
    ensures
        channel_tasks(ch, i, strats, with_tip, check_min_tip) =~= strats.filter(
            |s: GasFeeStrategyConfig| task_kept(ch, s, with_tip, check_min_tip),
        ).map_values(|s: GasFeeStrategyConfig| task_of(ch, i, s)),
    decreases strats.len(),
{
    reveal(Seq::filter);
    if strats.len() == 0 {
        assert(strats.filter(
            |s: GasFeeStrategyConfig| task_kept(ch, s, with_tip, check_min_tip),
        ).map_values(|s: GasFeeStrategyConfig| task_of(ch, i, s)) =~= Seq::<TaskConfig>::empty());
    } else {
        lemma_channel_tasks_characterization(ch, i, strats.drop_last(), with_tip, check_min_tip);
    }
}

} // verus!
