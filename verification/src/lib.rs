//! Latency-sensitive trade-execution core for an on-chain bonding-curve
//! protocol: it plans one submission task per viable (channel, fee
//! configuration) pair, models the transactions those tasks build and send,
//! and reconciles the results the tasks report into a single
//! success/failure outcome.

pub mod builder;
pub mod calc;
pub mod clock;
pub mod collector;
pub mod compiler_optimization;
pub mod confirmation;
pub mod errors;
pub mod execution;
pub mod executor;
pub mod fast_timing;
pub mod fees;
pub mod hardware;
pub mod instructions;
pub mod le_bytes;
pub mod precheck;
pub mod precheck_program;
pub mod serialization;
pub mod signature;
pub mod swqos;
pub mod text;
pub mod zero_copy;

pub use collector::{
    ExecutionOutcome, PollStep, ResultCollector, TaskResult, task_result_after_send,
    task_result_for_build_failure,
};
pub use errors::{ExecuteError, SendError, TradeError, is_landed_error};
pub use executor::{
    SwqosChannelInfo, TaskConfig, effective_with_tip, find_default_config, plan_tasks,
};
pub use fees::{GasFeeConfig, GasFeeStrategy, GasFeeStrategyConfig};
pub use signature::Signature;
pub use swqos::SwqosType;
pub use swqos::TradeType;
