//! Drives an ordered list of steps: each is executed in turn, the first
//! failure stops the run (no rollback of patches already applied), and only
//! a run whose every step passed reports success.

use vstd::prelude::*;

verus! {

/// Where the whole run stands.
#[derive(Clone, Copy, Debug, PartialEq, Eq, Structural)]
pub enum RunStatus {
    /// A step is still waiting to be executed.
    Running,
    /// Every step passed.
    Succeeded,
    /// A step failed; the rest were never executed.
    Failed,
}

/// The run's state: how many steps there are, how many were executed, and
/// the status so far.
#[derive(Clone, Copy, Debug, PartialEq, Eq, Structural)]
pub struct FeatureRunner {
    pub total: usize,
    pub next: usize,
    pub status: RunStatus,
}

/// The state a run of `total` steps begins in: an empty run has already
/// succeeded, any other waits on its first step.
pub open spec fn initial_runner(total: usize) -> FeatureRunner {
    FeatureRunner {
        total,
        next: 0,
        status: if total == 0 {
            RunStatus::Succeeded
        } else {
            RunStatus::Running
        },
    }
}

impl FeatureRunner {
    /// The counter never passes the step count, a running run still has a
    /// step left, a succeeded run has executed them all, and a failed run
    /// has executed at least the step that failed.
    pub open spec fn wf(self) -> bool {
        &&& self.next <= self.total
        &&& (self.status == RunStatus::Running ==> self.next < self.total)
        &&& (self.status == RunStatus::Succeeded ==> self.next == self.total)
        &&& (self.status == RunStatus::Failed ==> 1 <= self.next)
    }

    /// Begins a run over `total` steps.
    pub fn new(total: usize) -> (r: FeatureRunner)
        ensures
            r == initial_runner(total),
            r.wf(),
    {
        FeatureRunner {
            total,
            next: 0,
            status: if total == 0 {
                RunStatus::Succeeded
            } else {
                RunStatus::Running
            },
        }
    }

    /// The step to execute now, if the run still wants one.
    pub open spec fn spec_current(self) -> Option<int> {
        if self.status == RunStatus::Running {
            Some(self.next as int)
        } else {
            None
        }
    }

    pub fn current_step(&self) -> (r: Option<usize>)
        ensures
            r == (if self.status == RunStatus::Running {
                Some(self.next)
            } else {
                None::<usize>
            }),
            (r is Some) == (self.spec_current() is Some),
    {
        if self.status == RunStatus::Running {
            Some(self.next)
        } else {
            None
        }
    }

    /// What one step's outcome does to the run: a failure ends it there, a
    /// pass moves on, and the last pass completes it. A run already over
    /// absorbs nothing further.
    pub open spec fn runner_step(pre: FeatureRunner, passed: bool) -> FeatureRunner {
        if pre.status != RunStatus::Running {
            pre
        } else if !passed {
            FeatureRunner { total: pre.total, next: (pre.next + 1) as usize, status: RunStatus::Failed }
        } else if pre.next + 1 == pre.total {
            FeatureRunner {
                total: pre.total,
                next: (pre.next + 1) as usize,
                status: RunStatus::Succeeded,
            }
        } else {
            FeatureRunner {
                total: pre.total,
                next: (pre.next + 1) as usize,
                status: RunStatus::Running,
            }
        }
    }

    /// Records the outcome of the current step.
    pub fn on_step_result(&mut self, passed: bool)
        requires
            old(self).wf(),
            old(self).status == RunStatus::Running,
        ensures
            final(self).wf(),
            *final(self) == Self::runner_step(*old(self), passed),
    {
        self.next = self.next + 1;
        if !passed {
            self.status = RunStatus::Failed;
        } else if self.next == self.total {
            self.status = RunStatus::Succeeded;
        }
    }

    /// The run a whole sequence of step outcomes leads to, in order.
    pub open spec fn runner_fold(r0: FeatureRunner, results: Seq<bool>) -> FeatureRunner
        decreases results.len(),
    {
        if results.len() == 0 {
            r0
        } else {
            Self::runner_fold(Self::runner_step(r0, results[0]), results.drop_first())
        }
    }
}

proof fn lemma_fold_absorbs(r0: FeatureRunner, results: Seq<bool>)
    requires
        r0.status != RunStatus::Running,
    ensures
        FeatureRunner::runner_fold(r0, results) == r0,
    decreases results.len(),
{
    if results.len() > 0 {
        lemma_fold_absorbs(r0, results.drop_first());
    }
}

proof fn lemma_fold_failure_from(r0: FeatureRunner, results: Seq<bool>, i: int)
    requires
        r0.wf(),
        r0.status == RunStatus::Running,
        0 <= i < results.len(),
        r0.next + i < r0.total,
        !results[i],
        forall|j: int| 0 <= j < i ==> results[j],
    ensures
        FeatureRunner::runner_fold(r0, results).status == RunStatus::Failed,
        FeatureRunner::runner_fold(r0, results).next == r0.next + i + 1,
        FeatureRunner::runner_fold(r0, results).total == r0.total,
    decreases i,
{
    if i == 0 {
        let r1 = FeatureRunner::runner_step(r0, false);
        lemma_fold_absorbs(r1, results.drop_first());
    } else {
        let r1 = FeatureRunner::runner_step(r0, true);
        lemma_fold_failure_from(r1, results.drop_first(), i - 1);
    }
}

/// A run stops at its first failing step: whatever outcomes would have
/// followed, once step `i` fails (the steps before it all passing), the run
/// ends failed with exactly `i + 1` steps executed — the steps after `i`
/// are never current.
pub proof fn lemma_stops_at_first_failure(total: usize, results: Seq<bool>, i: int)
    requires
        0 <= i < results.len(),
        i < total,
        !results[i],
        forall|j: int| 0 <= j < i ==> results[j],
    ensures
        FeatureRunner::runner_fold(initial_runner(total), results).status == RunStatus::Failed,
        FeatureRunner::runner_fold(initial_runner(total), results).next == i + 1,
{
    lemma_fold_failure_from(initial_runner(total), results, i);
}

proof fn lemma_fold_all_pass_from(r0: FeatureRunner, results: Seq<bool>)
    requires
        r0.wf(),
        r0.status == RunStatus::Running,
        results.len() == r0.total - r0.next,
        forall|j: int| 0 <= j < results.len() ==> results[j],
    ensures
        FeatureRunner::runner_fold(r0, results).status == RunStatus::Succeeded,
    decreases results.len(),
{
    let r1 = FeatureRunner::runner_step(r0, true);
    if r0.next + 1 == r0.total {
        lemma_fold_absorbs(r1, results.drop_first());
    } else {
        lemma_fold_all_pass_from(r1, results.drop_first());
    }
}

/// A run whose every step passes executes them all and reports success.
pub proof fn lemma_all_pass_succeeds(total: usize, results: Seq<bool>)
    requires
        results.len() == total,
        forall|j: int| 0 <= j < results.len() ==> results[j],
    ensures
        FeatureRunner::runner_fold(initial_runner(total), results).status == RunStatus::Succeeded,
{
    if total == 0 {
        lemma_fold_absorbs(initial_runner(total), results);
    } else {
        lemma_fold_all_pass_from(initial_runner(total), results);
    }
}

} // verus!
