//! The metrics pusher's schedule: a fixed-period tick that never stops on a
//! failed push. A failure only counts towards an optional warning threshold.
use vstd::prelude::*;

verus! {

/// What a run of failed pushes leads to. No policy stops the schedule.
#[derive(Clone, Copy, Debug, PartialEq, Eq, Structural)]
pub enum FailurePolicy {
    /// Every failure is noted and otherwise ignored.
    IgnoreAlways,
    /// From the given number of consecutive failures on, each further failure
    /// is reported as repeated.
    WarnAfter(u64),
}

/// How a tick went, as the driver should log it. The next tick fires in
/// every case.
#[derive(Clone, Copy, Debug, PartialEq, Eq, Structural)]
pub enum TickReport {
    Pushed,
    Failed,
    FailedRepeatedly,
}

/// Counters after recording outcome `ok` over `ticks` ticks, the last
/// `failures` of which failed.
pub open spec fn record_spec(ticks: nat, failures: nat, ok: bool) -> (nat, nat) {
    (ticks + 1, if ok { 0 } else { failures + 1 })
}

/// Counters after recording the outcomes `outcomes`, in order.
pub open spec fn record_all(ticks: nat, failures: nat, outcomes: Seq<bool>) -> (nat, nat)
    decreases outcomes.len(),
{
    if outcomes.len() == 0 {
        (ticks, failures)
    } else {
        let prev = record_all(ticks, failures, outcomes.drop_last());
        record_spec(prev.0, prev.1, outcomes.last())
    }
}

/// The report for an outcome, given the consecutive failures counted with it.
pub open spec fn report_spec(policy: FailurePolicy, failures: nat, ok: bool) -> TickReport {
    if ok {
        TickReport::Pushed
    } else {
        match policy {
            FailurePolicy::IgnoreAlways => TickReport::Failed,
            FailurePolicy::WarnAfter(k) => if failures >= k {
                TickReport::FailedRepeatedly
            } else {
                TickReport::Failed
            },
        }
    }
}

/// When the tick after `ticks` ticks fires, counted from the schedule's start.
pub open spec fn tick_offset(period: nat, ticks: nat) -> nat {
    (ticks + 1) * period
}

/// The schedule of the metrics pusher.
pub struct PushSchedule {
    period_ms: u64,
    ticks: u64,
    failures: u64,
    policy: FailurePolicy,
}

impl PushSchedule {
    pub closed spec fn period_spec(&self) -> nat {
        self.period_ms as nat
    }

    /// Ticks recorded so far.
    pub closed spec fn ticks_spec(&self) -> nat {
        self.ticks as nat
    }

    /// Failed ticks since the last successful push.
    pub closed spec fn failures_spec(&self) -> nat {
        self.failures as nat
    }

    pub closed spec fn policy_spec(&self) -> FailurePolicy {
        self.policy
    }

    /// The schedule's invariant: a positive period, and no more consecutive
    /// failures than ticks.
    pub closed spec fn wf(&self) -> bool {
        self.period_ms > 0 && self.failures <= self.ticks
    }

    /// A schedule with the given period that has not ticked yet.
    pub fn new(period_ms: u64, policy: FailurePolicy) -> (r: PushSchedule)
        requires
            period_ms > 0,
        ensures
            r.wf(),
            r.period_spec() == period_ms,
            r.ticks_spec() == 0,
            r.failures_spec() == 0,
            r.policy_spec() == policy,
    {
        PushSchedule { period_ms, ticks: 0, failures: 0, policy }
    }

    /// The period between ticks, in milliseconds.
    pub fn period_ms(&self) -> (r: u64)
        ensures
            r == self.period_spec(),
    {
        self.period_ms
    }

    /// Ticks recorded so far.
    pub fn ticks(&self) -> (r: u64)
        ensures
            r == self.ticks_spec(),
    {
        self.ticks
    }

    /// Failed ticks since the last successful push.
    pub fn consecutive_failures(&self) -> (r: u64)
        ensures
            r == self.failures_spec(),
    {
        self.failures
    }

    /// When the next tick fires, in milliseconds from the schedule's start,
    /// or `None` where that lies beyond what `u64` holds.
    pub fn next_tick_offset_ms(&self) -> (r: Option<u64>)
        requires
            self.wf(),
        ensures
            r is Some <==> tick_offset(self.period_spec(), self.ticks_spec()) <= u64::MAX,
            r is Some ==> r->Some_0 == tick_offset(self.period_spec(), self.ticks_spec()),
    {
        if self.ticks == u64::MAX {
            assert(tick_offset(self.period_spec(), self.ticks_spec()) > u64::MAX) by (nonlinear_arith)
                requires
                    self.period_ms > 0,
                    self.ticks == u64::MAX,
            ;
            return None;
        }
        let n: u64 = self.ticks + 1;
        n.checked_mul(self.period_ms)
    }

    /// Records the outcome of a tick's push and says how to report it. The
    /// schedule goes on whatever the outcome.
    pub fn record(&mut self, pushed: bool) -> (r: TickReport)
        requires
            old(self).wf(),
            old(self).ticks_spec() < u64::MAX,
        ensures
            final(self).wf(),
            final(self).period_spec() == old(self).period_spec(),
            final(self).policy_spec() == old(self).policy_spec(),
            (final(self).ticks_spec(), final(self).failures_spec()) == record_spec(
                old(self).ticks_spec(),
                old(self).failures_spec(),
                pushed,
            ),
            r == report_spec(final(self).policy_spec(), final(self).failures_spec(), pushed),
    {
        self.ticks = self.ticks + 1;
        if pushed {
            self.failures = 0;
            TickReport::Pushed
        } else {
            self.failures = self.failures + 1;
            match self.policy {
                FailurePolicy::IgnoreAlways => TickReport::Failed,
                FailurePolicy::WarnAfter(k) => {
                    if self.failures >= k {
                        TickReport::FailedRepeatedly
                    } else {
                        TickReport::Failed
                    }
                },
            }
        }
    }
}

/// However many ticks fail in a row, the schedule keeps its period: after
/// `n` failures from any counters, the tick count has grown by `n`, every one
/// of them counts as a consecutive failure, and the next tick fires one
/// period after the last.
pub proof fn lemma_failures_never_stop_ticking(
    period: nat,
    ticks: nat,
    failures: nat,
    outcomes: Seq<bool>,
)
    requires
        forall|i: int| 0 <= i < outcomes.len() ==> !#[trigger] outcomes[i],
    ensures
        record_all(ticks, failures, outcomes) == (ticks + outcomes.len(), failures + outcomes.len()),
        tick_offset(period, record_all(ticks, failures, outcomes).0) == tick_offset(
            period,
            (ticks + outcomes.len()) as nat,
        ),
        tick_offset(period, record_all(ticks, failures, outcomes).0) == (ticks + outcomes.len()
            + 1) * period,
    decreases outcomes.len(),
{
    if outcomes.len() > 0 {
        let prev = outcomes.drop_last();
        assert forall|i: int| 0 <= i < prev.len() implies !#[trigger] prev[i] by {
            assert(prev[i] == outcomes[i]);
        }
        lemma_failures_never_stop_ticking(period, ticks, failures, prev);
        assert(!outcomes.last());
    }
}

} // verus!
