//! The job supervisor: the process-wide "current job" slot.
//!
//! A submission with at least one pipeline spawns a new job and atomically
//! replaces the tracked one; the displaced job's handle is returned so the
//! boundary can request its cancellation. A submission with no pipelines is
//! an informational no-op: nothing is spawned, nothing is cancelled. The
//! supervisor is an owned object constructed once at startup, never an
//! ambient singleton; the boundary holds the lock around each `submit` call
//! and nowhere else.

use vstd::prelude::*;

verus! {

/// What one submission decided.
#[derive(Clone, Copy, Debug, PartialEq, Eq, Structural)]
pub enum SubmitOutcome {
    /// The branch resolved to no pipelines: no job was created or cancelled.
    NotConfigured,
    /// A job was spawned under `job`, and `cancel` names the job it
    /// displaced, whose cancellation the boundary must now request.
    Spawned { job: u64, cancel: Option<u64> },
}

/// The supervisor: the identifier of the job tracked as current, and the
/// identifier the next spawned job will get.
#[derive(Clone, Copy, Debug, PartialEq, Eq, Structural)]
pub struct Supervisor {
    /// The job tracked as current, if any.
    pub current: Option<u64>,
    /// The identifier handed to the next spawned job.
    pub next_job: u64,
}

/// The supervisor after a submission of `count` pipelines.
pub open spec fn spec_submit_state(s: Supervisor, count: nat) -> Supervisor {
    if count == 0 {
        s
    } else {
        Supervisor { current: Some(s.next_job), next_job: (s.next_job + 1) as u64 }
    }
}

/// What a submission of `count` pipelines decides.
pub open spec fn spec_submit_outcome(s: Supervisor, count: nat) -> SubmitOutcome {
    if count == 0 {
        SubmitOutcome::NotConfigured
    } else {
        SubmitOutcome::Spawned { job: s.next_job, cancel: s.current }
    }
}

impl Supervisor {
    /// A fresh supervisor: no job is tracked.
    pub fn new() -> (s: Supervisor)
        ensures
            s == (Supervisor { current: None, next_job: 0 }),
    {
        Supervisor { current: None, next_job: 0 }
    }

    /// Submits a job of `pipeline_count` pipelines. An empty submission is a
    /// no-op and reports the branch as not configured. Otherwise the new job
    /// takes the slot, and the outcome names the displaced job whose
    /// cancellation the boundary must request — exactly the previously
    /// current one, or none.
    pub fn submit(&mut self, pipeline_count: usize) -> (r: SubmitOutcome)
        requires
            old(self).next_job < u64::MAX,
        ensures
            *final(self) == spec_submit_state(*old(self), pipeline_count as nat),
            r == spec_submit_outcome(*old(self), pipeline_count as nat),
    {
        if pipeline_count == 0 {
            SubmitOutcome::NotConfigured
        } else {
            let job = self.next_job;
            let displaced = self.current;
            self.current = Some(job);
            self.next_job = job + 1;
            SubmitOutcome::Spawned { job, cancel: displaced }
        }
    }
}

/// Supersession. When job A is submitted and job B is submitted after it,
/// both non-empty, B's submission displaces exactly A: its outcome orders
/// A's cancellation, and B's job is the one tracked as current afterwards.
pub proof fn lemma_newer_job_supersedes(s: Supervisor, count_a: nat, count_b: nat)
    requires
        count_a > 0,
        count_b > 0,
        s.next_job + 2 <= u64::MAX,
    ensures
        ({
            let s_after_a = spec_submit_state(s, count_a);
            let job_a = spec_submit_outcome(s, count_a)->Spawned_job;
            let outcome_b = spec_submit_outcome(s_after_a, count_b);
            &&& s_after_a.current == Some(job_a)
            &&& outcome_b->Spawned_cancel == Some(job_a)
            &&& spec_submit_state(s_after_a, count_b).current == Some(outcome_b->Spawned_job)
        }),
{
}

} // verus!
