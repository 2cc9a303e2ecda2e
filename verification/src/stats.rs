//! Execution statistics: rolling counters over dispatched commands.
//!
//! The dispatcher records exactly one outcome per executed command; any
//! status command reads a snapshot.  The average execution time is kept
//! incrementally (`avg' = (avg*(n-1) + latest) / n` with `n` the
//! post-increment total), so no history is stored.

use vstd::prelude::*;

verus! {

/// Rolling counters over execution outcomes.  `uptime_seconds` is not held
/// here: it depends on the clock and is supplied by the caller when a
/// snapshot is taken.
#[derive(Debug, Clone, PartialEq, Eq)]
pub struct Statistics {
    pub total: u64,
    pub successful: u64,
    pub failed: u64,
    pub average_execution_time_ms: u64,
}

/// A point-in-time reading of the aggregator, carried in status responses.
#[derive(Debug, Clone, PartialEq, Eq)]
pub struct StatusData {
    pub total: u64,
    pub successful: u64,
    pub failed: u64,
    pub average_execution_time_ms: u64,
    pub uptime_seconds: u64,
}

impl Statistics {
    /// Internal invariant: every outcome is either a success or a failure.
    pub open spec fn wf(&self) -> bool {
        self.successful + self.failed == self.total
    }

    pub fn new() -> (s: Statistics)
        ensures
            s.total == 0 && s.successful == 0 && s.failed == 0,
            s.average_execution_time_ms == 0,
            s.wf(),
    {
        Statistics { total: 0, successful: 0, failed: 0, average_execution_time_ms: 0 }
    }

    /// Records one executed command.  Counts the outcome and folds the
    /// elapsed time into the rolling average.
    pub fn record(&mut self, success: bool, elapsed_ms: u64)
        requires
            old(self).wf(),
            old(self).total < u64::MAX,
        ensures
            final(self).wf(),
            recorded_one(*old(self), success, *final(self)),
            final(self).average_execution_time_ms == next_average(
                old(self).average_execution_time_ms as int,
                old(self).total as int + 1,
                elapsed_ms as int,
            ),
    {
        let n: u64 = self.total + 1;
        let a: u64 = self.average_execution_time_ms;
        proof {
            let m = u64::MAX as int;
            assert(0 <= (a as int) * (n as int - 1) + elapsed_ms as int <= m * (n as int)
                <= m * (m + 1)) by (nonlinear_arith)
                requires
                    0 <= a as int <= m,
                    0 <= elapsed_ms as int <= m,
                    1 <= n as int <= m + 1,
            ;
        }
        let numerator: u128 = (a as u128) * ((n - 1) as u128) + (elapsed_ms as u128);
        proof {
            let m = u64::MAX as int;
            assert((numerator as int) / (n as int) <= m) by (nonlinear_arith)
                requires
                    numerator as int <= m * (n as int),
                    n as int >= 1,
                    0 <= numerator as int,
            ;
        }
        let avg: u64 = (numerator / (n as u128)) as u64;
        self.total = n;
        if success {
            self.successful = self.successful + 1;
        } else {
            self.failed = self.failed + 1;
        }
        self.average_execution_time_ms = avg;
    }

    /// A reading of the counters paired with the caller-supplied uptime.
    pub fn snapshot(&self, uptime_seconds: u64) -> (d: StatusData)
        ensures
            d.total == self.total,
            d.successful == self.successful,
            d.failed == self.failed,
            d.average_execution_time_ms == self.average_execution_time_ms,
            d.uptime_seconds == uptime_seconds,
    {
        StatusData {
            total: self.total,
            successful: self.successful,
            failed: self.failed,
            average_execution_time_ms: self.average_execution_time_ms,
            uptime_seconds,
        }
    }
}

/// The incremental-average step: with `n` outcomes now recorded, the new
/// average is `(avg*(n-1) + latest) / n`, in integer milliseconds.
pub open spec fn next_average(avg: int, n: int, latest: int) -> int {
    (avg * (n - 1) + latest) / n
}

/// How one call of `record` moves the counters.
pub open spec fn recorded_one(pre: Statistics, success: bool, post: Statistics) -> bool {
    &&& post.total == pre.total + 1
    &&& post.successful == pre.successful + (if success { 1int } else { 0int })
    &&& post.failed == pre.failed + (if success { 0int } else { 1int })
}

/// A chain of `record` outcomes linking two counter states.
pub open spec fn records_outcomes(pre: Statistics, outcomes: Seq<bool>, post: Statistics) -> bool
    decreases outcomes.len(),
{
    if outcomes.len() == 0 {
        &&& post.total == pre.total
        &&& post.successful == pre.successful
        &&& post.failed == pre.failed
    } else {
        exists|mid: Statistics|
            records_outcomes(pre, outcomes.drop_last(), mid) && recorded_one(
                mid,
                outcomes.last(),
                post,
            )
    }
}

/// The number of failures in a run of outcomes.
pub open spec fn count_failures(outcomes: Seq<bool>) -> int
    decreases outcomes.len(),
{
    if outcomes.len() == 0 {
        0
    } else {
        count_failures(outcomes.drop_last()) + (if outcomes.last() {
            0int
        } else {
            1int
        })
    }
}

/// After N dispatched commands with k failures have been recorded into a
/// fresh aggregator, the counters read total = N, failed = k and
/// successful = N - k.
pub proof fn lemma_statistics_counts(start: Statistics, outcomes: Seq<bool>, end: Statistics)
    requires
        start.total == 0,
        start.successful == 0,
        start.failed == 0,
        records_outcomes(start, outcomes, end),
    ensures
        end.total == outcomes.len(),
        end.failed == count_failures(outcomes),
        end.successful == outcomes.len() - count_failures(outcomes),
    decreases outcomes.len(),
{
    if outcomes.len() > 0 {
        let mid = choose|mid: Statistics|
            records_outcomes(start, outcomes.drop_last(), mid) && recorded_one(
                mid,
                outcomes.last(),
                end,
            );
        lemma_statistics_counts(start, outcomes.drop_last(), mid);
    }
}

} // verus!
