use vstd::prelude::*;

use backoff::backoff::Backoff;

verus! {

#[verifier::external_type_specification]
#[verifier::external_body]
#[verifier::reject_recursive_types(C)]
pub struct ExExponentialBackoff<C>(backoff::exponential::ExponentialBackoff<C>);

#[verifier::external_type_specification]
#[verifier::external_body]
pub struct ExSystemClock(backoff::SystemClock);

/// Relies on `backoff::ExponentialBackoff::default`: a fresh exponential schedule
/// (randomized, growing and capped intervals) whose elapsed time starts now.
#[verifier::external_body]
fn new_schedule() -> backoff::ExponentialBackoff {
    backoff::ExponentialBackoff::default()
}

/// Relies on `Backoff::next_backoff` of `backoff::ExponentialBackoff`: the next
/// randomized interval of the schedule, in milliseconds, or none once the schedule's
/// own elapsed-time limit is spent. The value depends on chance and on the clock, so
/// nothing is promised of it.
#[verifier::external_body]
fn next_interval_ms(schedule: &mut backoff::ExponentialBackoff) -> Option<u64> {
    schedule.next_backoff().map(|d| d.as_millis() as u64)
}

/// Why a service was given up on: its probe never reported ready within the budget.
#[derive(Debug, Clone)]
pub struct ReadinessTimeout {
    /// Number of probe attempts made.
    pub attempts: u64,
    /// The startup budget, in milliseconds.
    pub deadline_ms: u64,
    /// The error of the last failed probe.
    pub last_error: String,
}

/// What to do after one probe attempt.
#[derive(Debug, Clone)]
pub enum ProbeStep {
    /// The service answered: it is ready.
    Ready { attempts: u64 },
    /// Probe again after this many milliseconds.
    Retry { delay_ms: u64 },
    /// The budget is spent: the service did not become ready.
    TimedOut(ReadinessTimeout),
}

/// The decision after attempt number `attempts`, which ended with `outcome` at
/// `elapsed_ms` into a budget of `deadline_ms`, where the backoff schedule proposed
/// `interval_ms` as the next pause. Every probe error is retried until the deadline;
/// the pause never reaches past the deadline, so the last attempt falls on it.
pub open spec fn probe_step(
    outcome: Result<(), String>,
    elapsed_ms: u64,
    deadline_ms: u64,
    interval_ms: Option<u64>,
    attempts: u64,
) -> ProbeStep {
    match outcome {
        Ok(()) => ProbeStep::Ready { attempts },
        Err(e) => if elapsed_ms >= deadline_ms {
            ProbeStep::TimedOut(ReadinessTimeout { attempts, deadline_ms, last_error: e })
        } else {
            let remaining = (deadline_ms - elapsed_ms) as u64;
            match interval_ms {
                Some(d) if d <= remaining => ProbeStep::Retry { delay_ms: d },
                _ => ProbeStep::Retry { delay_ms: remaining },
            }
        },
    }
}

/// The decision after one probe attempt, given the interval the schedule proposed.
pub fn next_probe_step(
    outcome: Result<(), String>,
    elapsed_ms: u64,
    deadline_ms: u64,
    interval_ms: Option<u64>,
    attempts: u64,
) -> (r: ProbeStep)
    ensures
        r == probe_step(outcome, elapsed_ms, deadline_ms, interval_ms, attempts),
{
    match outcome {
        Ok(()) => ProbeStep::Ready { attempts },
        Err(e) => if elapsed_ms >= deadline_ms {
            ProbeStep::TimedOut(ReadinessTimeout { attempts, deadline_ms, last_error: e })
        } else {
            let remaining = deadline_ms - elapsed_ms;
            match interval_ms {
                Some(d) => if d <= remaining {
                    ProbeStep::Retry { delay_ms: d }
                } else {
                    ProbeStep::Retry { delay_ms: remaining }
                },
                None => ProbeStep::Retry { delay_ms: remaining },
            }
        },
    }
}

/// Retries a readiness probe on an exponential backoff schedule until it reports
/// ready or the startup budget is spent.
pub struct ReadinessProber {
    /// The startup budget, in milliseconds from the first attempt.
    pub deadline_ms: u64,
    /// Number of attempts recorded so far.
    pub attempts: u64,
    /// The backoff schedule that proposes the pauses between attempts.
    pub schedule: backoff::ExponentialBackoff,
}

impl ReadinessProber {
    pub fn new(deadline_ms: u64) -> (r: Self)
        ensures
            r.deadline_ms == deadline_ms,
            r.attempts == 0,
    {
        ReadinessProber { deadline_ms, attempts: 0, schedule: new_schedule() }
    }

    /// Records one probe attempt that ended with `outcome` at `elapsed_ms` and says
    /// what to do next.
    pub fn record(&mut self, outcome: Result<(), String>, elapsed_ms: u64) -> (r: ProbeStep)
        ensures
            final(self).deadline_ms == old(self).deadline_ms,
            final(self).attempts == if old(self).attempts < u64::MAX {
                old(self).attempts + 1
            } else {
                old(self).attempts as int
            },
            outcome is Ok ==> r == (ProbeStep::Ready { attempts: final(self).attempts }),
            outcome is Err && elapsed_ms >= old(self).deadline_ms ==> r == ProbeStep::TimedOut(
                ReadinessTimeout {
                    attempts: final(self).attempts,
                    deadline_ms: old(self).deadline_ms,
                    last_error: outcome->Err_0,
                },
            ),
            outcome is Err && elapsed_ms < old(self).deadline_ms ==> r is Retry
                && r->Retry_delay_ms <= old(self).deadline_ms - elapsed_ms,
            exists|interval_ms: Option<u64>|
                r == #[trigger] probe_step(
                    outcome,
                    elapsed_ms,
                    old(self).deadline_ms,
                    interval_ms,
                    final(self).attempts,
                ),
    {
        self.attempts = self.attempts.saturating_add(1);
        let interval_ms = if outcome.is_err() && elapsed_ms < self.deadline_ms {
            next_interval_ms(&mut self.schedule)
        } else {
            None
        };
        next_probe_step(outcome, elapsed_ms, self.deadline_ms, interval_ms, self.attempts)
    }
}

/// The final decision of a probe run over the attempts from number `i` on, where
/// attempt `k` ended with `outcomes[k]` at `elapsed[k]` and the schedule proposed
/// `intervals[k]`; none while every attempt so far asked for a retry.
pub open spec fn probe_run_from(
    deadline_ms: u64,
    outcomes: Seq<Result<(), String>>,
    elapsed: Seq<u64>,
    intervals: Seq<Option<u64>>,
    i: nat,
) -> Option<ProbeStep>
    decreases outcomes.len() - i,
{
    if i >= outcomes.len() {
        None
    } else {
        let s = probe_step(outcomes[i as int], elapsed[i as int], deadline_ms, intervals[i as int], (i + 1) as u64);
        if s is Retry {
            probe_run_from(deadline_ms, outcomes, elapsed, intervals, i + 1)
        } else {
            Some(s)
        }
    }
}

/// The final decision of a whole probe run, if it has reached one.
pub open spec fn probe_run(
    deadline_ms: u64,
    outcomes: Seq<Result<(), String>>,
    elapsed: Seq<u64>,
    intervals: Seq<Option<u64>>,
) -> Option<ProbeStep> {
    probe_run_from(deadline_ms, outcomes, elapsed, intervals, 0)
}

proof fn lemma_run_from_failures(
    deadline_ms: u64,
    outcomes: Seq<Result<(), String>>,
    elapsed: Seq<u64>,
    intervals: Seq<Option<u64>>,
    n: nat,
    i: nat,
)
    requires
        i <= n < outcomes.len(),
        outcomes.len() == elapsed.len(),
        outcomes.len() == intervals.len(),
        outcomes.len() < u64::MAX,
        forall|k: int| 0 <= k < n ==> #[trigger] outcomes[k] is Err && elapsed[k] < deadline_ms,
    ensures
        probe_run_from(deadline_ms, outcomes, elapsed, intervals, i) == probe_run_from(
            deadline_ms,
            outcomes,
            elapsed,
            intervals,
            n,
        ),
    decreases n - i,
{
    if i < n {
        assert(outcomes[i as int] is Err && elapsed[i as int] < deadline_ms);
        lemma_run_from_failures(deadline_ms, outcomes, elapsed, intervals, n, i + 1);
    }
}

/// A probe that is not ready for `n` attempts, all before the deadline, and then ready
/// ends the run as ready after `n + 1` attempts, whatever the schedule proposed.
pub proof fn lemma_ready_after_retries(
    deadline_ms: u64,
    outcomes: Seq<Result<(), String>>,
    elapsed: Seq<u64>,
    intervals: Seq<Option<u64>>,
    n: nat,
)
    requires
        n < outcomes.len(),
        outcomes.len() == elapsed.len(),
        outcomes.len() == intervals.len(),
        outcomes.len() < u64::MAX,
        forall|k: int| 0 <= k < n ==> #[trigger] outcomes[k] is Err && elapsed[k] < deadline_ms,
        outcomes[n as int] is Ok,
    ensures
        probe_run(deadline_ms, outcomes, elapsed, intervals) == Some(
            ProbeStep::Ready { attempts: (n + 1) as u64 },
        ),
{
    lemma_run_from_failures(deadline_ms, outcomes, elapsed, intervals, n, 0);
}

/// A probe that never reports ready gives up at its first failed attempt on or after
/// the deadline, naming the timeout, the attempt count and the last probe error.
pub proof fn lemma_never_ready_times_out(
    deadline_ms: u64,
    outcomes: Seq<Result<(), String>>,
    elapsed: Seq<u64>,
    intervals: Seq<Option<u64>>,
    n: nat,
)
    requires
        n < outcomes.len(),
        outcomes.len() == elapsed.len(),
        outcomes.len() == intervals.len(),
        outcomes.len() < u64::MAX,
        forall|k: int| 0 <= k < n ==> #[trigger] outcomes[k] is Err && elapsed[k] < deadline_ms,
        outcomes[n as int] is Err,
        elapsed[n as int] >= deadline_ms,
    ensures
        probe_run(deadline_ms, outcomes, elapsed, intervals) == Some(
            ProbeStep::TimedOut(
                ReadinessTimeout {
                    attempts: (n + 1) as u64,
                    deadline_ms,
                    last_error: outcomes[n as int]->Err_0,
                },
            ),
        ),
{
    lemma_run_from_failures(deadline_ms, outcomes, elapsed, intervals, n, 0);
}

} // verus!
