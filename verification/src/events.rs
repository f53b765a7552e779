//! What the server tells the runner about a job: the job, its pipeline and
//! its steps, and the identification the runner sends back.

use vstd::prelude::*;

verus! {

/// Where a pipeline wants its steps run.
#[derive(Debug, Clone, Copy, PartialEq, Eq)]
pub enum PipelineBackend {
    Docker,
    LXC,
}

/// The settings of a pipeline that the runner reads.
#[derive(Debug, Clone, PartialEq, Eq)]
pub struct Pipeline {
    pub backend: Option<PipelineBackend>,
    pub image: Option<String>,
    pub release: Option<String>,
}

/// A job, known by its id.
#[derive(Debug, Clone, PartialEq, Eq)]
pub struct Job {
    pub id: u64,
}

/// One step of a job: a command line to run.
#[derive(Debug, Clone, PartialEq, Eq)]
pub struct Step {
    pub id: u64,
    pub name: String,
    pub run: String,
}

/// The server asks the runner to run a job.
#[derive(Debug, Clone, PartialEq, Eq)]
pub struct CreateJobRun {
    pub job: Job,
    pub pipeline: Pipeline,
    pub steps: Vec<Step>,
}

/// The runner tells the server who it is.
#[derive(Debug, Clone, PartialEq, Eq)]
pub struct Identify {
    pub name: String,
    pub token: String,
}

} // verus!
