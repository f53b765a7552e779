//! The runner's own state: the job it is working on.

use vstd::prelude::*;
use crate::events::Job;

verus! {

/// What the runner is doing.
#[derive(Debug, Clone, PartialEq, Eq)]
pub struct RunnerState {
    pub current_job: Option<Job>,
}

/// The runner.
#[derive(Debug, Clone, PartialEq, Eq)]
pub struct Runner(pub RunnerState);

impl Runner {
    /// A runner with no job.
    pub fn new() -> (r: Self)
        ensures
            r.0.current_job is None,
    {
        Runner(RunnerState { current_job: None })
    }

    /// Makes `job` the job the runner works on.
    pub fn set_current_job(&mut self, job: Job)
        ensures
            final(self).0.current_job == Some(job),
    {
        self.0.current_job = Some(job);
    }
}

} // verus!
