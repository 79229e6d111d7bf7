//! Result collection and the win/lose/timeout decision rules.
//!
//! Every spawned task reports exactly one [`TaskResult`] to the collector.
//! The collector holds the reports in a bounded queue sized to the task
//! count, together with a success flag, a landed-failure flag and a
//! completed count. A poll step evaluates the decision rules in priority
//! order: first success wins; a landed-but-failed report short-circuits the
//! wait (the nonce is burned, no sibling can succeed); when every task has
//! reported with neither, the drained reports decide. The timed polling
//! loops around these steps live with the caller; the rules themselves are
//! here.

use vstd::prelude::*;
use crate::errors::{SendError, is_landed_error, spec_is_landed_error};
use crate::signature::Signature;
use crate::swqos::SwqosType;

verus! {

/// Bound on the wait for an on-chain success, in seconds.
pub const WAIT_FOR_SUCCESS_TIMEOUT_SECS: u64 = 5;

/// Poll interval while waiting for an on-chain success, in milliseconds.
pub const WAIT_FOR_SUCCESS_POLL_INTERVAL_MS: u64 = 1000;

/// Poll interval while waiting for all tasks to finish submitting, in
/// milliseconds; tight, since submission round-trips are fast.
pub const WAIT_FOR_ALL_SUBMITTED_POLL_INTERVAL_MS: u64 = 2;

/// Default bound on the wait for all tasks to finish submitting, in seconds.
pub const SUBMIT_TIMEOUT_SECS: u64 = 30;

/// What one task reports when it completes, exactly once, whatever happened.
#[derive(Debug, PartialEq, Eq)]
pub struct TaskResult {
    /// Whether the submission succeeded.
    pub success: bool,
    /// The signature of the transaction the task sent; the zeroed value if
    /// the transaction was never built.
    pub signature: Signature,
    /// The error the task ran into, if any.
    pub error: Option<SendError>,
    /// Tag of the channel the task submitted through.
    pub swqos_type: SwqosType,
    /// Whether the transaction landed on-chain; true for a success, and true
    /// for a failure that an on-chain program rejected (consuming the
    /// nonce), false for network-level failures.
    pub landed_on_chain: bool,
    /// Microsecond timestamp at which the task finished.
    pub submit_done_us: i64,
}

/// Abstract state of a collector: the reports not yet drained, the two
/// decision flags, and how many of the expected reports have arrived.
#[verifier::ext_equal]
pub struct CollectorState {
    /// Reports pushed and not yet drained, oldest first.
    pub pending: Seq<TaskResult>,
    /// Whether any report so far had `success` set.
    pub success_seen: bool,
    /// Whether any report so far was a landed-on-chain failure.
    pub landed_failure_seen: bool,
    /// Number of reports received over the collector's lifetime.
    pub completed: nat,
    /// Number of reports expected: one per spawned task.
    pub total: nat,
}

/// Invariant of a collector state: no more pending reports than received,
/// and no more received than expected.
pub open spec fn state_inv(s: CollectorState) -> bool {
    &&& s.pending.len() <= s.completed
    &&& s.completed <= s.total
}

/// The state after one report is taken in: the report is queued, the flags
/// absorb its outcome, and the completed count advances.
pub open spec fn spec_submit(s: CollectorState, r: TaskResult) -> CollectorState {
    CollectorState {
        pending: s.pending.push(r),
        success_seen: s.success_seen || r.success,
        landed_failure_seen: s.landed_failure_seen || (r.landed_on_chain && !r.success),
        completed: s.completed + 1,
        total: s.total,
    }
}

/// The state after a sequence of reports is taken in, in order.
pub open spec fn spec_submit_all(s: CollectorState, rs: Seq<TaskResult>) -> CollectorState
    decreases rs.len(),
{
    if rs.len() == 0 {
        s
    } else {
        spec_submit(spec_submit_all(s, rs.drop_last()), rs.last())
    }
}

/// The signatures of a report sequence, in order.
pub open spec fn spec_signatures(s: Seq<TaskResult>) -> Seq<Signature> {
    s.map_values(|t: TaskResult| t.signature)
}

/// The per-channel completion timestamps of a report sequence, in order.
pub open spec fn spec_timings(s: Seq<TaskResult>) -> Seq<(SwqosType, i64)> {
    s.map_values(|t: TaskResult| (t.swqos_type, t.submit_done_us))
}

/// Whether any report in the sequence succeeded.
pub open spec fn spec_any_success(s: Seq<TaskResult>) -> bool
    decreases s.len(),
{
    if s.len() == 0 {
        false
    } else {
        spec_any_success(s.drop_last()) || s.last().success
    }
}

/// Whether any report in the sequence is a landed-on-chain failure.
pub open spec fn spec_any_landed_failure(s: Seq<TaskResult>) -> bool
    decreases s.len(),
{
    if s.len() == 0 {
        false
    } else {
        spec_any_landed_failure(s.drop_last()) || (s.last().landed_on_chain
            && !s.last().success)
    }
}

/// The last error carried by any report in the sequence, if any.
pub open spec fn spec_last_error(s: Seq<TaskResult>) -> Option<SendError>
    decreases s.len(),
{
    if s.len() == 0 {
        None
    } else if s.last().error is Some {
        s.last().error
    } else {
        spec_last_error(s.drop_last())
    }
}

/// The last error carried by a landed-on-chain report, if any: the most
/// informative error, since that transaction actually reached the chain.
pub open spec fn spec_landed_error(s: Seq<TaskResult>) -> Option<SendError>
    decreases s.len(),
{
    if s.len() == 0 {
        None
    } else if s.last().landed_on_chain && s.last().error is Some {
        s.last().error
    } else {
        spec_landed_error(s.drop_last())
    }
}

/// The decision a poll step reaches, at specification level.
#[verifier::ext_equal]
pub enum CollectorDecision {
    /// A rule fired: this is the trade's outcome.
    Decided {
        success: bool,
        signatures: Seq<Signature>,
        error: Option<SendError>,
        timings: Seq<(SwqosType, i64)>,
    },
    /// Every rule was evaluated, nothing was drained, and all tasks have
    /// reported: there is no outcome to return.
    Exhausted,
    /// No rule fired yet; keep polling.
    Pending,
}

/// A poll step's decision together with the pending reports it leaves.
#[verifier::ext_equal]
pub struct StepSpec {
    /// The decision reached.
    pub decision: CollectorDecision,
    /// The reports still queued afterwards: unchanged when no rule drained
    /// the queue, empty otherwise.
    pub pending_after: Seq<TaskResult>,
}

/// One poll tick of the success-directed wait, evaluated on the collector
/// state in priority order.
///
/// With the success flag set, the queue is drained; if the drain saw a
/// success the trade is decided successful with every signature seen so
/// far. Otherwise, with the landed-failure flag set, a non-empty drain
/// decides the trade failed, surfacing the landed error. Otherwise, once
/// every task has reported, a non-empty drain decides by what it holds, and
/// an empty one leaves nothing to return. Drained reports that decide
/// nothing are dropped.
pub open spec fn spec_wait_step(s: CollectorState) -> StepSpec {
    let p = s.pending;
    if s.success_seen {
        if spec_any_success(p) && p.len() > 0 {
            StepSpec {
                decision: (CollectorDecision::Decided {
                    success: true,
                    signatures: spec_signatures(p),
                    error: None,
                    timings: spec_timings(p),
                }),
                pending_after: Seq::empty(),
            }
        } else if s.completed >= s.total {
            StepSpec { decision: CollectorDecision::Exhausted, pending_after: Seq::empty() }
        } else {
            StepSpec { decision: CollectorDecision::Pending, pending_after: Seq::empty() }
        }
    } else if s.landed_failure_seen {
        if p.len() > 0 {
            StepSpec {
                decision: (CollectorDecision::Decided {
                    success: false,
                    signatures: spec_signatures(p),
                    error: spec_landed_error(p),
                    timings: spec_timings(p),
                }),
                pending_after: Seq::empty(),
            }
        } else if s.completed >= s.total {
            StepSpec { decision: CollectorDecision::Exhausted, pending_after: Seq::empty() }
        } else {
            StepSpec { decision: CollectorDecision::Pending, pending_after: Seq::empty() }
        }
    } else if s.completed >= s.total {
        if p.len() > 0 {
            StepSpec {
                decision: (CollectorDecision::Decided {
                    success: spec_any_success(p),
                    signatures: spec_signatures(p),
                    error: spec_last_error(p),
                    timings: spec_timings(p),
                }),
                pending_after: Seq::empty(),
            }
        } else {
            StepSpec { decision: CollectorDecision::Exhausted, pending_after: Seq::empty() }
        }
    } else {
        StepSpec { decision: CollectorDecision::Pending, pending_after: p }
    }
}

/// The outcome of one trade call: the decision, every signature seen, the
/// most informative error, and per-channel completion timestamps.
#[derive(Debug)]
pub struct ExecutionOutcome {
    /// Whether the trade succeeded.
    pub success: bool,
    /// Signatures of every drained report, in drain order.
    pub signatures: Vec<Signature>,
    /// The error surfaced to the caller, if any.
    pub error: Option<SendError>,
    /// Per-channel completion timestamps, in drain order.
    pub timings: Vec<(SwqosType, i64)>,
}

/// What one poll step tells the caller's waiting loop.
#[derive(Debug)]
pub enum PollStep {
    /// A rule fired: stop polling and return this outcome.
    Decided(ExecutionOutcome),
    /// All tasks reported and nothing was left to drain: stop polling with
    /// no outcome ("all transactions failed").
    Exhausted,
    /// Keep polling until the caller's timeout.
    Pending,
}

#[verifier::external_type_specification]
#[verifier::external_body]
#[verifier::reject_recursive_types(T)]
pub struct ExArrayQueue<T>(crossbeam_queue::ArrayQueue<T>);

/// The reports a task-result queue holds, oldest first.
pub uninterp spec fn queue_contents(q: crossbeam_queue::ArrayQueue<TaskResult>) -> Seq<TaskResult>;

/// The fixed capacity a task-result queue was created with.
pub uninterp spec fn queue_capacity(q: crossbeam_queue::ArrayQueue<TaskResult>) -> nat;

/// Relies on `crossbeam_queue::ArrayQueue::new`: an empty bounded queue of
/// the given capacity. The capacity bound keeps clear of the sizes the
/// constructor documents as panicking.
#[verifier::external_body]
fn task_queue_new(cap: usize) -> (q: crossbeam_queue::ArrayQueue<TaskResult>)
    requires
        1 <= cap < usize::MAX / 4,
    ensures
        queue_contents(q) == Seq::<TaskResult>::empty(),
        queue_capacity(q) == cap as nat,
{
    crossbeam_queue::ArrayQueue::new(cap)
}

/// Relies on `crossbeam_queue::ArrayQueue::push_mut`: appends at the tail
/// and returns true, unless the queue is full, in which case the value is
/// dropped and false comes back.
#[verifier::external_body]
fn task_queue_push(q: &mut crossbeam_queue::ArrayQueue<TaskResult>, value: TaskResult) -> (r:
    bool)
    ensures
        queue_capacity(*final(q)) == queue_capacity(*old(q)),
        r == (queue_contents(*old(q)).len() < queue_capacity(*old(q))),
        r ==> queue_contents(*final(q)) == queue_contents(*old(q)).push(value),
        !r ==> queue_contents(*final(q)) == queue_contents(*old(q)),
{
    q.push_mut(value).is_ok()
}

/// Relies on `crossbeam_queue::ArrayQueue::pop_mut`: removes and returns
/// the head of the queue, or nothing when the queue is empty.
#[verifier::external_body]
fn task_queue_pop(q: &mut crossbeam_queue::ArrayQueue<TaskResult>) -> (r: Option<TaskResult>)
    ensures
        queue_capacity(*final(q)) == queue_capacity(*old(q)),
        match r {
            Some(v) => queue_contents(*old(q)).len() > 0 && v == queue_contents(*old(q))[0]
                && queue_contents(*final(q)) == queue_contents(*old(q)).drop_first(),
            None => queue_contents(*old(q)).len() == 0 && queue_contents(*final(q))
                == queue_contents(*old(q)),
        },
{
    q.pop_mut()
}

/// The aggregation point every task reports to exactly once.
///
/// One collector is constructed per trade call, sized exactly to the task
/// count. The underlying queue is a bounded multiple-producer structure;
/// sharing it across concurrently running tasks, with the flags and the
/// count as atomics, is the caller's concern — the decision rules evaluated
/// here are the same either way.
pub struct ResultCollector {
    results: crossbeam_queue::ArrayQueue<TaskResult>,
    success_flag: bool,
    landed_failed_flag: bool,
    completed_count: usize,
    total_tasks: usize,
}

/// What one drain of the queue yields: every aggregate the decision rules
/// read, computed in one pass.
struct DrainSummary {
    signatures: Vec<Signature>,
    timings: Vec<(SwqosType, i64)>,
    has_success: bool,
    last_error: Option<SendError>,
    landed_error: Option<SendError>,
}

impl View for ResultCollector {
    type V = CollectorState;

    closed spec fn view(&self) -> CollectorState {
        CollectorState {
            pending: queue_contents(self.results),
            success_seen: self.success_flag,
            landed_failure_seen: self.landed_failed_flag,
            completed: self.completed_count as nat,
            total: self.total_tasks as nat,
        }
    }
}

impl ResultCollector {
    /// Well-formedness: the queue's capacity is the task count, and the
    /// state invariant holds.
    pub closed spec fn wf(&self) -> bool {
        &&& queue_capacity(self.results) == self.total_tasks as nat
        &&& state_inv(self@)
    }

    /// A fresh collector expecting one report per task.
    pub fn new(capacity: usize) -> (r: Self)
        requires
            1 <= capacity < usize::MAX / 4,
        ensures
            r.wf(),
            r@.pending == Seq::<TaskResult>::empty(),
            !r@.success_seen,
            !r@.landed_failure_seen,
            r@.completed == 0,
            r@.total == capacity as nat,
    {
        ResultCollector {
            results: task_queue_new(capacity),
            success_flag: false,
            landed_failed_flag: false,
            completed_count: 0,
            total_tasks: capacity,
        }
    }

    /// Number of reports expected in all.
    pub fn total_tasks(&self) -> (r: usize)
        ensures
            r as nat == self@.total,
    {
        self.total_tasks
    }

    /// Number of reports received so far.
    pub fn completed_count(&self) -> (r: usize)
        ensures
            r as nat == self@.completed,
    {
        self.completed_count
    }

    /// Whether every expected report has arrived.
    pub fn all_completed(&self) -> (r: bool)
        ensures
            r == (self@.completed >= self@.total),
    {
        self.completed_count >= self.total_tasks
    }

    /// Takes in one task's report: queues it, absorbs its outcome into the
    /// flags, and advances the completed count.
    ///
    /// Each task calls this exactly once, so no more reports arrive than
    /// the collector was sized for.
    pub fn submit(&mut self, result: TaskResult)
        requires
            old(self).wf(),
            old(self)@.completed < old(self)@.total,
        ensures
            final(self).wf(),
            final(self)@ == spec_submit(old(self)@, result),
    {
        let is_success = result.success;
        let is_landed_failed = result.landed_on_chain && !result.success;
        let pushed = task_queue_push(&mut self.results, result);
        assert(pushed);
        if is_success {
            self.success_flag = true;
        } else if is_landed_failed {
            self.landed_failed_flag = true;
        }
        self.completed_count = self.completed_count + 1;
    }

    /// Drains the queue, computing every aggregate in one pass. The flags
    /// and counts are left as they are.
    fn collect_all(&mut self) -> (d: DrainSummary)
        requires
            old(self).wf(),
        ensures
            final(self).wf(),
            final(self)@ == (CollectorState {
                pending: Seq::<TaskResult>::empty(),
                ..old(self)@
            }),
            d.signatures@ == spec_signatures(old(self)@.pending),
            d.timings@ == spec_timings(old(self)@.pending),
            d.has_success == spec_any_success(old(self)@.pending),
            d.last_error == spec_last_error(old(self)@.pending),
            d.landed_error == spec_landed_error(old(self)@.pending),
    {
        let ghost p0 = self@.pending;
        let ghost s0 = self@;
        let mut signatures: Vec<Signature> = Vec::new();
        let mut timings: Vec<(SwqosType, i64)> = Vec::new();
        let mut has_success = false;
        let mut last_error: Option<SendError> = None;
        let mut landed_error: Option<SendError> = None;
        let ghost mut k: int = 0;
        proof {
            assert(p0.take(0) =~= Seq::<TaskResult>::empty());
        }
        loop
            invariant
                self.wf(),
                0 <= k <= p0.len(),
                self@.pending =~= p0.subrange(k, p0.len() as int),
                self@.success_seen == s0.success_seen,
                self@.landed_failure_seen == s0.landed_failure_seen,
                self@.completed == s0.completed,
                self@.total == s0.total,
                signatures@ == spec_signatures(p0.take(k)),
                timings@ == spec_timings(p0.take(k)),
                has_success == spec_any_success(p0.take(k)),
                last_error == spec_last_error(p0.take(k)),
                landed_error == spec_landed_error(p0.take(k)),
            ensures
                self.wf(),
                self@ == (CollectorState { pending: Seq::<TaskResult>::empty(), ..s0 }),
                signatures@ == spec_signatures(p0),
                timings@ == spec_timings(p0),
                has_success == spec_any_success(p0),
                last_error == spec_last_error(p0),
                landed_error == spec_landed_error(p0),
            decreases p0.len() - k,
        {
            let item = task_queue_pop(&mut self.results);
            match item {
                None => {
                    proof {
                        assert(k == p0.len());
                        assert(p0.take(k) =~= p0);
                        assert(self@ =~= (CollectorState {
                            pending: Seq::<TaskResult>::empty(),
                            ..s0
                        }));
                    }
                    break ;
                },
                Some(r) => {
                    proof {
                        assert(r == p0[k]);
                        assert(p0.take(k + 1).drop_last() =~= p0.take(k));
                        assert(p0.take(k + 1).last() == p0[k]);
                        assert(spec_signatures(p0.take(k + 1)) =~= spec_signatures(
                            p0.take(k),
                        ).push(p0[k].signature));
                        assert(spec_timings(p0.take(k + 1)) =~= spec_timings(p0.take(k)).push(
                            (p0[k].swqos_type, p0[k].submit_done_us),
                        ));
                        assert(p0.subrange(k, p0.len() as int).drop_first() =~= p0.subrange(
                            k + 1,
                            p0.len() as int,
                        ));
                    }
                    let TaskResult {
                        success,
                        signature,
                        error,
                        swqos_type,
                        landed_on_chain,
                        submit_done_us,
                    } = r;
                    signatures.push(signature);
                    timings.push((swqos_type, submit_done_us));
                    if success {
                        has_success = true;
                    }
                    match error {
                        Some(e) => {
                            if landed_on_chain {
                                landed_error = Some(e.clone());
                            }
                            last_error = Some(e);
                        },
                        None => {},
                    }
                    proof {
                        k = k + 1;
                    }
                },
            }
        }
        DrainSummary { signatures, timings, has_success, last_error, landed_error }
    }

    /// One poll tick of the success-directed wait: evaluates the decision
    /// rules in priority order, draining the queue as the rules do.
    pub fn wait_for_success_step(&mut self) -> (d: PollStep)
        requires
            old(self).wf(),
        ensures
            final(self).wf(),
            ({
                let st = spec_wait_step(old(self)@);
                &&& final(self)@ == (CollectorState { pending: st.pending_after, ..old(self)@ })
                &&& match d {
                    PollStep::Decided(o) => st.decision == (CollectorDecision::Decided {
                        success: o.success,
                        signatures: o.signatures@,
                        error: o.error,
                        timings: o.timings@,
                    }),
                    PollStep::Exhausted => st.decision == CollectorDecision::Exhausted,
                    PollStep::Pending => st.decision == CollectorDecision::Pending,
                }
            }),
    {
        if self.success_flag {
            let d = self.collect_all();
            if d.has_success && d.signatures.len() > 0 {
                return PollStep::Decided(
                    ExecutionOutcome {
                        success: true,
                        signatures: d.signatures,
                        error: None,
                        timings: d.timings,
                    },
                );
            }
            // The drain decided nothing and its reports are gone; the later
            // rules see an empty queue, so only the completed count matters.
            if self.completed_count >= self.total_tasks {
                return PollStep::Exhausted;
            }
            return PollStep::Pending;
        }
        if self.landed_failed_flag {
            let d = self.collect_all();
            if d.signatures.len() > 0 {
                return PollStep::Decided(
                    ExecutionOutcome {
                        success: false,
                        signatures: d.signatures,
                        error: d.landed_error,
                        timings: d.timings,
                    },
                );
            }
            if self.completed_count >= self.total_tasks {
                return PollStep::Exhausted;
            }
            return PollStep::Pending;
        }
        if self.completed_count >= self.total_tasks {
            let d = self.collect_all();
            if d.signatures.len() > 0 {
                return PollStep::Decided(
                    ExecutionOutcome {
                        success: d.has_success,
                        signatures: d.signatures,
                        error: d.last_error,
                        timings: d.timings,
                    },
                );
            }
            return PollStep::Exhausted;
        }
        PollStep::Pending
    }

    /// Drains whatever has been collected and returns it with a
    /// first-success-preferring read, or nothing if no report was queued.
    /// Used when the caller only needs every task to finish submitting.
    pub fn get_first(&mut self) -> (r: Option<ExecutionOutcome>)
        requires
            old(self).wf(),
        ensures
            final(self).wf(),
            final(self)@ == (CollectorState {
                pending: Seq::<TaskResult>::empty(),
                ..old(self)@
            }),
            match r {
                Some(o) => {
                    &&& old(self)@.pending.len() > 0
                    &&& o.success == spec_any_success(old(self)@.pending)
                    &&& o.signatures@ == spec_signatures(old(self)@.pending)
                    &&& o.error == spec_last_error(old(self)@.pending)
                    &&& o.timings@ == spec_timings(old(self)@.pending)
                },
                None => old(self)@.pending.len() == 0,
            },
    {
        let d = self.collect_all();
        if d.signatures.len() > 0 {
            Some(
                ExecutionOutcome {
                    success: d.has_success,
                    signatures: d.signatures,
                    error: d.last_error,
                    timings: d.timings,
                },
            )
        } else {
            None
        }
    }
}

/// The report a task files when building its transaction variant fails:
/// the zeroed signature, not landed, carrying the build error. The task
/// does not retry, and no sibling task is affected.
pub fn task_result_for_build_failure(error: SendError, swqos_type: SwqosType, now_us: i64) -> (r:
    TaskResult)
    ensures
        r.success == false,
        r.signature@ == Signature::spec_zeroed(),
        r.error == Some(error),
        r.swqos_type == swqos_type,
        r.landed_on_chain == false,
        r.submit_done_us == now_us,
{
    TaskResult {
        success: false,
        signature: Signature::zeroed(),
        error: Some(error),
        swqos_type,
        landed_on_chain: false,
        submit_done_us: now_us,
    }
}

/// The report a task files once its send call returns: a success has landed
/// on-chain by definition, and a failure is classified landed or not by the
/// error it carries.
pub fn task_result_after_send(
    send_result: Result<(), SendError>,
    signature: Signature,
    swqos_type: SwqosType,
    now_us: i64,
) -> (r: TaskResult)
    ensures
        r.swqos_type == swqos_type,
        r.submit_done_us == now_us,
        r.signature == signature,
        match send_result {
            Ok(u) => r.success && r.landed_on_chain && r.error is None,
            Err(e) => !r.success && r.landed_on_chain == spec_is_landed_error(e) && r.error
                == Some(e),
        },
{
    match send_result {
        Ok(()) => TaskResult {
            success: true,
            signature,
            error: None,
            swqos_type,
            landed_on_chain: true,
            submit_done_us: now_us,
        },
        Err(e) => {
            let landed = is_landed_error(&e);
            TaskResult {
                success: false,
                signature,
                error: Some(e),
                swqos_type,
                landed_on_chain: landed,
                submit_done_us: now_us,
            }
        },
    }
}

/// A sequence holds a success exactly when some report in it succeeded.
pub proof fn lemma_any_success_iff(s: Seq<TaskResult>)
    ensures
        spec_any_success(s) == exists|i: int| 0 <= i < s.len() && (#[trigger] s[i]).success,
    decreases s.len(),
{
    if s.len() > 0 {
        lemma_any_success_iff(s.drop_last());
        if spec_any_success(s.drop_last()) {
            let w = choose|i: int| 0 <= i < s.drop_last().len() && (#[trigger] s.drop_last()[i]).success;
            assert(s[w].success);
        }
        if s.last().success {
            assert(s[s.len() - 1].success);
        }
        if exists|i: int| 0 <= i < s.len() && (#[trigger] s[i]).success {
            let w = choose|i: int| 0 <= i < s.len() && (#[trigger] s[i]).success;
            if w < s.len() - 1 {
                assert(s.drop_last()[w].success);
            }
        }
    }
}

/// A sequence holds a landed failure exactly when some report in it landed
/// on-chain without succeeding.
pub proof fn lemma_any_landed_failure_iff(s: Seq<TaskResult>)
    ensures
        spec_any_landed_failure(s) == exists|i: int|
            0 <= i < s.len() && (#[trigger] s[i]).landed_on_chain && !s[i].success,
    decreases s.len(),
{
    if s.len() > 0 {
        lemma_any_landed_failure_iff(s.drop_last());
        if spec_any_landed_failure(s.drop_last()) {
            let w = choose|i: int|
                0 <= i < s.drop_last().len() && (#[trigger] s.drop_last()[i]).landed_on_chain
                    && !s.drop_last()[i].success;
            assert(s[w].landed_on_chain && !s[w].success);
        }
        if s.last().landed_on_chain && !s.last().success {
            assert(s[s.len() - 1].landed_on_chain && !s[s.len() - 1].success);
        }
        if exists|i: int| 0 <= i < s.len() && (#[trigger] s[i]).landed_on_chain && !s[i].success {
            let w = choose|i: int|
                0 <= i < s.len() && (#[trigger] s[i]).landed_on_chain && !s[i].success;
            if w < s.len() - 1 {
                assert(s.drop_last()[w].landed_on_chain && !s.drop_last()[w].success);
            }
        }
    }
}

/// Taking in a sequence of reports queues all of them in order, advances
/// the completed count by their number, and absorbs their outcomes into
/// the flags.
pub proof fn lemma_submit_all_effect(s0: CollectorState, rs: Seq<TaskResult>)
    requires
        state_inv(s0),
        s0.completed + rs.len() <= s0.total,
    ensures
        spec_submit_all(s0, rs).total == s0.total,
        spec_submit_all(s0, rs).completed == s0.completed + rs.len(),
        spec_submit_all(s0, rs).pending == s0.pending + rs,
        spec_submit_all(s0, rs).success_seen == (s0.success_seen || spec_any_success(rs)),
        spec_submit_all(s0, rs).landed_failure_seen == (s0.landed_failure_seen
            || spec_any_landed_failure(rs)),
        state_inv(spec_submit_all(s0, rs)),
    decreases rs.len(),
{
    if rs.len() == 0 {
        assert(s0.pending + rs =~= s0.pending);
    } else {
        lemma_submit_all_effect(s0, rs.drop_last());
        assert((s0.pending + rs.drop_last()).push(rs.last()) =~= s0.pending + rs);
    }
}

/// Fan-out completeness: a fresh collector sized for the task count that
/// takes in exactly one report per task has seen exactly that many reports
/// — never more, never fewer — and holds each of them, for any mix of
/// success and failure outcomes.
pub proof fn lemma_fanout_completeness(s0: CollectorState, rs: Seq<TaskResult>)
    requires
        s0.pending.len() == 0,
        s0.completed == 0,
        s0.total == rs.len(),
    ensures
        spec_submit_all(s0, rs).completed == rs.len(),
        spec_submit_all(s0, rs).pending == rs,
        state_inv(spec_submit_all(s0, rs)),
{
    lemma_submit_all_effect(s0, rs);
    assert(s0.pending + rs =~= rs);
}

/// First-success wins: reports reach a collector on which no success and no
/// landed failure has yet been seen, and one of them succeeded. The very
/// next poll decides success, with every signature seen so far and no
/// error — without waiting for the tasks that have not reported, since the
/// completed count may still be below the total.
pub proof fn lemma_first_success_wins(s0: CollectorState, rs: Seq<TaskResult>)
    requires
        state_inv(s0),
        !s0.success_seen,
        !s0.landed_failure_seen,
        s0.pending.len() == 0,
        s0.completed + rs.len() <= s0.total,
        exists|i: int| 0 <= i < rs.len() && (#[trigger] rs[i]).success,
    ensures
        spec_wait_step(spec_submit_all(s0, rs)).decision == (CollectorDecision::Decided {
            success: true,
            signatures: spec_signatures(rs),
            error: None,
            timings: spec_timings(rs),
        }),
        spec_signatures(rs).len() > 0,
{
    lemma_any_success_iff(rs);
    lemma_submit_all_effect(s0, rs);
    let s1 = spec_submit_all(s0, rs);
    assert(s0.pending + rs =~= rs);
    assert(s1.pending == rs);
}

/// Nonce short-circuit: reports reach a collector on which no success and
/// no landed failure has yet been seen; none of them succeeded, and one of
/// them landed on-chain and failed. The very next poll decides failure,
/// surfacing the landed error — without waiting for the remaining tasks or
/// for any timeout.
pub proof fn lemma_landed_failure_short_circuit(s0: CollectorState, rs: Seq<TaskResult>)
    requires
        state_inv(s0),
        !s0.success_seen,
        !s0.landed_failure_seen,
        s0.pending.len() == 0,
        s0.completed + rs.len() <= s0.total,
        forall|i: int| 0 <= i < rs.len() ==> !(#[trigger] rs[i]).success,
        exists|i: int| 0 <= i < rs.len() && (#[trigger] rs[i]).landed_on_chain,
    ensures
        spec_wait_step(spec_submit_all(s0, rs)).decision == (CollectorDecision::Decided {
            success: false,
            signatures: spec_signatures(rs),
            error: spec_landed_error(rs),
            timings: spec_timings(rs),
        }),
{
    lemma_any_success_iff(rs);
    lemma_any_landed_failure_iff(rs);
    lemma_submit_all_effect(s0, rs);
    let w = choose|i: int| 0 <= i < rs.len() && (#[trigger] rs[i]).landed_on_chain;
    assert(rs[w].landed_on_chain && !rs[w].success);
    assert(s0.pending + rs =~= rs);
}

/// All-fail convergence: a fresh collector sized for the task count
/// receives every report, all failed and none landed on-chain. The poll
/// after the last report decides failure with the last error and every
/// signature — reached as soon as the completed count equals the total,
/// with no timeout involved.
pub proof fn lemma_all_fail_convergence(s0: CollectorState, rs: Seq<TaskResult>)
    requires
        s0.pending.len() == 0,
        s0.completed == 0,
        !s0.success_seen,
        !s0.landed_failure_seen,
        s0.total == rs.len(),
        rs.len() > 0,
        forall|i: int| 0 <= i < rs.len() ==> !(#[trigger] rs[i]).success,
        forall|i: int| 0 <= i < rs.len() ==> !(#[trigger] rs[i]).landed_on_chain,
    ensures
        spec_wait_step(spec_submit_all(s0, rs)).decision == (CollectorDecision::Decided {
            success: false,
            signatures: spec_signatures(rs),
            error: spec_last_error(rs),
            timings: spec_timings(rs),
        }),
{
    lemma_any_success_iff(rs);
    lemma_any_landed_failure_iff(rs);
    lemma_submit_all_effect(s0, rs);
    assert(s0.pending + rs =~= rs);
}

} // verus!

