//! What the runner does with each message from the server, and the plan it
//! derives from a job: the backend whose defaults apply, the image and
//! release, the container and the command of each step.

use vstd::prelude::*;
use crate::backends::docker::{exec_spec, is_exec_spec, ExecSpec};
use crate::config::{Defaults, Image};
use crate::events::{CreateJobRun, Pipeline, PipelineBackend};
use crate::text::{
    decimal, decimal_string, digits_value, join_with, lemma_decimal_digits, lemma_decimal_injective,
    lemma_decimal_value, lemma_join_split, string_views,
};
use crate::websocket::{identify_message, OpCodes, WebsocketEvent, WebsocketMessage};

verus! {

/// What the runner does in answer to a message.
#[derive(Debug, Clone, PartialEq, Eq)]
pub enum RunnerAction {
    /// Nothing.
    Ignore,
    /// Sends this message back.
    Reply(WebsocketMessage),
    /// Runs this job.
    RunJob(CreateJobRun),
}

/// The name the runner identifies itself by.
pub open spec fn spec_runner_name() -> Seq<char> {
    "ibis1"@
}

/// The action that answers `message`, for a runner holding `token`: a job
/// request is run, a greeting is answered with the runner's identity, and
/// everything else is ignored.
pub open spec fn is_response(message: WebsocketMessage, token: String, a: RunnerAction) -> bool {
    match message.op {
        OpCodes::EventCreate => match message.event {
            Some(WebsocketEvent::CreateJobRun(run)) => a == RunnerAction::RunJob(run),
            _ => a == RunnerAction::Ignore,
        },
        OpCodes::Hello => match a {
            RunnerAction::Reply(m) => m.op == OpCodes::Identify && match m.event {
                Some(WebsocketEvent::Identify(id)) => id.name@ == spec_runner_name() && id.token
                    == token,
                _ => false,
            },
            _ => false,
        },
        _ => a == RunnerAction::Ignore,
    }
}

/// What the runner does in answer to `message`.
pub fn respond(message: WebsocketMessage, token: &String) -> (a: RunnerAction)
    ensures
        is_response(message, *token, a),
{
    match message.op {
        OpCodes::EventCreate => match message.event {
            Some(WebsocketEvent::CreateJobRun(run)) => RunnerAction::RunJob(run),
            _ => RunnerAction::Ignore,
        },
        OpCodes::Hello => RunnerAction::Reply(
            identify_message(String::from_str("ibis1"), token.clone()),
        ),
        _ => RunnerAction::Ignore,
    }
}

/// The name under which a backend's defaults are configured.
pub open spec fn spec_backend_name(b: PipelineBackend) -> Seq<char> {
    match b {
        PipelineBackend::Docker => "docker"@,
        PipelineBackend::LXC => "lxc"@,
    }
}

/// The name under which a backend's defaults are configured.
pub fn backend_name(b: PipelineBackend) -> (s: &'static str)
    ensures
        s@ == spec_backend_name(b),
{
    match b {
        PipelineBackend::Docker => "docker",
        PipelineBackend::LXC => "lxc",
    }
}

/// The name of the container that runs job `id`.
pub open spec fn spec_container_name(id: u64) -> Seq<char> {
    "runner-temp_value-"@ + decimal(id as nat)
}

/// The name of the container that runs job `id`.
pub fn container_name(id: u64) -> (s: String)
    ensures
        s@ == spec_container_name(id),
{
    let mut s = String::from_str("runner-temp_value-");
    let digits = decimal_string(id);
    s.append(digits.as_str());
    s
}

/// The value a pipeline gives for a setting, or else the backend's default.
pub open spec fn setting_or_default(given: Option<String>, default: Option<String>) -> Option<String> {
    match given {
        Some(v) => Some(v),
        None => default,
    }
}

/// The image the backend `backend` uses by default, if any.
pub open spec fn default_image(defaults: Map<Seq<char>, Image>, backend: Seq<char>) -> Option<String> {
    if defaults.contains_key(backend) {
        defaults[backend].image
    } else {
        None
    }
}

/// The release the backend `backend` uses by default, if any.
pub open spec fn default_release(defaults: Map<Seq<char>, Image>, backend: Seq<char>) -> Option<String> {
    if defaults.contains_key(backend) {
        defaults[backend].release
    } else {
        None
    }
}

/// The image a job runs in: the pipeline's own, or its backend's default.
pub open spec fn resolved_image(p: Pipeline, defaults: Map<Seq<char>, Image>) -> Option<String> {
    setting_or_default(p.image, default_image(defaults, spec_backend_name(p.backend->0)))
}

/// The release a job runs in: the pipeline's own, or its backend's default.
pub open spec fn resolved_release(p: Pipeline, defaults: Map<Seq<char>, Image>) -> Option<String> {
    setting_or_default(p.release, default_release(defaults, spec_backend_name(p.backend->0)))
}

/// A job can be planned: its pipeline names a backend, and an image and a
/// release are known, from the pipeline or from the backend's defaults.
pub open spec fn spec_plannable(run: CreateJobRun, defaults: Map<Seq<char>, Image>) -> bool {
    &&& run.pipeline.backend is Some
    &&& resolved_image(run.pipeline, defaults) is Some
    &&& resolved_release(run.pipeline, defaults) is Some
}

/// What the runner needs to run a job: the name of its container, the image
/// and release the container is made from, and one command per step, in the
/// order of the steps.
#[derive(Debug, Clone, PartialEq, Eq)]
pub struct JobPlan {
    pub container_name: String,
    pub image: String,
    pub release: String,
    pub execs: Vec<ExecSpec>,
}

/// `plan` runs `run`, with the image and release resolved against
/// `defaults`.
pub open spec fn is_job_plan(plan: JobPlan, run: CreateJobRun, defaults: Map<Seq<char>, Image>) -> bool {
    &&& plan.container_name@ == spec_container_name(run.job.id)
    &&& Some(plan.image) == resolved_image(run.pipeline, defaults)
    &&& Some(plan.release) == resolved_release(run.pipeline, defaults)
    &&& plan.execs@.len() == run.steps@.len()
    &&& forall|i: int| 0 <= i < run.steps@.len() ==> is_exec_spec(#[trigger] plan.execs@[i], run.steps@[i].run@)
}

/// The setting a pipeline gives, or else the default.
fn pick(given: &Option<String>, default: Option<&Option<String>>) -> (r: Option<String>)
    ensures
        r == setting_or_default(*given, match default { Some(d) => *d, None => None }),
{
    match given {
        Some(v) => Some(v.clone()),
        None => match default {
            Some(Some(v)) => Some(v.clone()),
            _ => None,
        },
    }
}

/// The image and release a job runs in, when both are known.
fn resolve(run: &CreateJobRun, defaults: &Defaults) -> (r: Option<(String, String)>)
    requires
        run.pipeline.backend is Some,
    ensures
        match r {
            Some((i, rel)) => spec_plannable(*run, defaults@)
                && Some(i) == resolved_image(run.pipeline, defaults@)
                && Some(rel) == resolved_release(run.pipeline, defaults@),
            None => !spec_plannable(*run, defaults@),
        },
{
    let backend = match run.pipeline.backend {
        Some(b) => b,
        None => PipelineBackend::Docker,
    };
    let entry = defaults.get(backend_name(backend));
    let default_image = match entry {
        Some(img) => Some(&img.image),
        None => None,
    };
    let default_release = match entry {
        Some(img) => Some(&img.release),
        None => None,
    };
    let image = pick(&run.pipeline.image, default_image);
    let release = pick(&run.pipeline.release, default_release);
    match (image, release) {
        (Some(i), Some(r)) => Some((i, r)),
        _ => None,
    }
}

/// Whether a job can be planned against `defaults`.
pub fn can_plan(run: &CreateJobRun, defaults: &Defaults) -> (b: bool)
    ensures
        b == spec_plannable(*run, defaults@),
{
    match run.pipeline.backend {
        Some(_) => resolve(run, defaults).is_some(),
        None => false,
    }
}

/// The plan that runs `run`.
pub fn plan_job(run: &CreateJobRun, defaults: &Defaults) -> (plan: JobPlan)
    requires
        spec_plannable(*run, defaults@),
    ensures
        is_job_plan(plan, *run, defaults@),
{
    let (image, release) = match resolve(run, defaults) {
        Some(p) => p,
        None => (String::new(), String::new()),
    };
    let name = container_name(run.job.id);
    let mut execs: Vec<ExecSpec> = Vec::new();
    let n = run.steps.len();
    let mut i: usize = 0;
    while i < n
        invariant
            n == run.steps@.len(),
            i <= n,
            execs@.len() == i,
            forall|j: int| 0 <= j < i ==> is_exec_spec(#[trigger] execs@[j], run.steps@[j].run@),
        decreases n - i,
    {
        let e = exec_spec(run.steps[i].run.as_str());
        execs.push(e);
        i = i + 1;
    }
    JobPlan { container_name: name, image, release, execs }
}

/// Different jobs run in differently named containers.
pub proof fn law_container_names_distinct(a: u64, b: u64)
    requires
        a != b,
    ensures
        spec_container_name(a) != spec_container_name(b),
{
    let p = "runner-temp_value-"@;
    if spec_container_name(a) == spec_container_name(b) {
        assert(spec_container_name(a).skip(p.len() as int) =~= decimal(a as nat));
        assert(spec_container_name(b).skip(p.len() as int) =~= decimal(b as nat));
        lemma_decimal_injective(a as nat, b as nat);
    }
}

/// The words of each step's command, put back together with single spaces,
/// give the step's command line: splitting loses nothing.
pub proof fn law_step_commands_rejoin(plan: JobPlan, run: CreateJobRun, defaults: Map<Seq<char>, Image>, i: int)
    requires
        is_job_plan(plan, run, defaults),
        0 <= i < run.steps@.len(),
    ensures
        join_with(string_views(plan.execs@[i].cmd@), ' ') == run.steps@[i].run@,
{
    assert(is_exec_spec(plan.execs@[i], run.steps@[i].run@));
    lemma_join_split(run.steps@[i].run@, ' ');
}

/// A pipeline's own image and release win over the configured defaults:
/// with both given, the plan does not depend on the defaults.
pub proof fn law_pipeline_settings_override(run: CreateJobRun, d1: Map<Seq<char>, Image>, d2: Map<Seq<char>, Image>)
    requires
        run.pipeline.backend is Some,
        run.pipeline.image is Some,
        run.pipeline.release is Some,
    ensures
        spec_plannable(run, d1),
        spec_plannable(run, d2),
        resolved_image(run.pipeline, d1) == run.pipeline.image,
        resolved_image(run.pipeline, d2) == run.pipeline.image,
        resolved_release(run.pipeline, d1) == run.pipeline.release,
        resolved_release(run.pipeline, d2) == run.pipeline.release,
{
}

/// Where a job's image and release come from: the pipeline's own when it
/// gives one, and otherwise the default stored under the name of the
/// pipeline's own backend, "docker" for Docker and "lxc" for LXC.
pub proof fn law_plan_settings_source(plan: JobPlan, run: CreateJobRun, defaults: Map<Seq<char>, Image>)
    requires
        is_job_plan(plan, run, defaults),
        run.pipeline.backend is Some,
    ensures
        run.pipeline.image is Some ==> run.pipeline.image == Some(plan.image),
        run.pipeline.release is Some ==> run.pipeline.release == Some(plan.release),
        run.pipeline.image is None && run.pipeline.backend == Some(PipelineBackend::Docker) ==> (
        defaults.contains_key("docker"@) && defaults["docker"@].image == Some(plan.image)),
        run.pipeline.image is None && run.pipeline.backend == Some(PipelineBackend::LXC) ==> (
        defaults.contains_key("lxc"@) && defaults["lxc"@].image == Some(plan.image)),
        run.pipeline.release is None && run.pipeline.backend == Some(PipelineBackend::Docker) ==> (
        defaults.contains_key("docker"@) && defaults["docker"@].release == Some(plan.release)),
        run.pipeline.release is None && run.pipeline.backend == Some(PipelineBackend::LXC) ==> (
        defaults.contains_key("lxc"@) && defaults["lxc"@].release == Some(plan.release)),
{
}

/// Every job request is run, whatever its pipeline says; a greeting is
/// answered with the identity "ibis1" and the runner's token; every other
/// message is ignored.
pub proof fn law_respond(message: WebsocketMessage, token: String, a: RunnerAction)
    requires
        is_response(message, token, a),
    ensures
        message.op == OpCodes::EventCreate && message.event is Some && message.event->0 is CreateJobRun
            ==> a == RunnerAction::RunJob(message.event->0->CreateJobRun_0),
        message.op == OpCodes::EventCreate && !(message.event is Some && message.event->0 is CreateJobRun)
            ==> a == RunnerAction::Ignore,
        message.op == OpCodes::Hello ==> match a {
            RunnerAction::Reply(m) => m.op == OpCodes::Identify && match m.event {
                Some(WebsocketEvent::Identify(id)) => id.name@ == "ibis1"@ && id.token == token,
                _ => false,
            },
            _ => false,
        },
        message.op == OpCodes::Identify ==> a == RunnerAction::Ignore,
        message.op == OpCodes::HeartBeatAck ==> a == RunnerAction::Ignore,
{
}

/// A container name is "runner-temp_value-" followed by the job id written
/// in decimal digits, with no leading zero.
pub proof fn law_container_name_layout(id: u64)
    ensures
        spec_container_name(id).take(18) == "runner-temp_value-"@,
        spec_container_name(id).len() >= 19,
        forall|i: int| 18 <= i < spec_container_name(id).len() ==> '0' <= #[trigger] spec_container_name(id)[i]
            && spec_container_name(id)[i] <= '9',
        digits_value(spec_container_name(id).skip(18)) == id,
        spec_container_name(id).len() > 19 ==> spec_container_name(id)[18] != '0',
{
    reveal_strlit("runner-temp_value-");
    let p = "runner-temp_value-"@;
    let d = decimal(id as nat);
    lemma_decimal_value(id as nat);
    lemma_decimal_digits(id as nat);
    let s = spec_container_name(id);
    assert(s.take(18) =~= p);
    assert(s.skip(18) =~= d);
    assert forall|i: int| 18 <= i < s.len() implies '0' <= #[trigger] s[i] && s[i] <= '9' by {
        assert(s[i] == d[i - 18]);
    }
    assert(s[18] == d[0]);
}

} // verus!
