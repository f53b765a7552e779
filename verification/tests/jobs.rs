use channel_runner::config::{Defaults, Image};
use channel_runner::events::{CreateJobRun, Identify, Job, Pipeline, PipelineBackend, Step};
use channel_runner::jobs::{backend_name, can_plan, container_name, plan_job, respond, RunnerAction};
use channel_runner::websocket::{OpCodes, WebsocketEvent, WebsocketMessage};

fn strings(v: &[&str]) -> Vec<String> {
    v.iter().map(|s| s.to_string()).collect()
}

fn defaults() -> Defaults {
    let mut d = Defaults::new();
    d.insert("docker".to_string(), Image { image: Some("alpine".to_string()), release: Some("latest".to_string()) });
    d.insert("lxc".to_string(), Image { image: Some("debian".to_string()), release: None });
    d
}

fn run(backend: Option<PipelineBackend>, image: Option<&str>, release: Option<&str>) -> CreateJobRun {
    CreateJobRun {
        job: Job { id: 42 },
        pipeline: Pipeline {
            backend,
            image: image.map(|s| s.to_string()),
            release: release.map(|s| s.to_string()),
        },
        steps: vec![
            Step { id: 1, name: "build".to_string(), run: "cargo build".to_string() },
            Step { id: 2, name: "test".to_string(), run: "cargo test --all".to_string() },
        ],
    }
}

#[test]
fn backend_names() {
    assert_eq!(backend_name(PipelineBackend::Docker), "docker");
    assert_eq!(backend_name(PipelineBackend::LXC), "lxc");
}

#[test]
fn container_name_of_job() {
    assert_eq!(container_name(42), "runner-temp_value-42");
    assert_eq!(container_name(0), "runner-temp_value-0");
    assert_ne!(container_name(1), container_name(10));
}

#[test]
fn hello_is_answered_with_identity() {
    let m = WebsocketMessage { op: OpCodes::Hello, event: None };
    let a = respond(m, &"secret".to_string());
    assert_eq!(
        a,
        RunnerAction::Reply(WebsocketMessage {
            op: OpCodes::Identify,
            event: Some(WebsocketEvent::Identify(Identify {
                name: "ibis1".to_string(),
                token: "secret".to_string()
            })),
        })
    );
}

#[test]
fn job_request_is_run() {
    let r = run(Some(PipelineBackend::Docker), None, None);
    let m = WebsocketMessage { op: OpCodes::EventCreate, event: Some(WebsocketEvent::CreateJobRun(r.clone())) };
    assert_eq!(respond(m, &"t".to_string()), RunnerAction::RunJob(r));
}

#[test]
fn other_messages_are_ignored() {
    let t = "t".to_string();
    assert_eq!(respond(WebsocketMessage { op: OpCodes::EventCreate, event: None }, &t), RunnerAction::Ignore);
    let id = WebsocketEvent::Identify(Identify { name: "x".to_string(), token: "y".to_string() });
    assert_eq!(respond(WebsocketMessage { op: OpCodes::EventCreate, event: Some(id) }, &t), RunnerAction::Ignore);
    assert_eq!(respond(WebsocketMessage { op: OpCodes::HeartBeatAck, event: None }, &t), RunnerAction::Ignore);
    assert_eq!(respond(WebsocketMessage { op: OpCodes::Identify, event: None }, &t), RunnerAction::Ignore);
}

#[test]
fn plan_uses_backend_defaults() {
    let r = run(Some(PipelineBackend::Docker), None, None);
    let d = defaults();
    assert!(can_plan(&r, &d));
    let p = plan_job(&r, &d);
    assert_eq!(p.container_name, "runner-temp_value-42");
    assert_eq!(p.image, "alpine");
    assert_eq!(p.release, "latest");
    assert_eq!(p.execs.len(), 2);
    assert_eq!(p.execs[0].cmd, strings(&["cargo", "build"]));
    assert_eq!(p.execs[1].cmd, strings(&["cargo", "test", "--all"]));
}

#[test]
fn plan_prefers_pipeline_settings() {
    let r = run(Some(PipelineBackend::LXC), Some("ubuntu"), Some("jammy"));
    let p = plan_job(&r, &defaults());
    assert_eq!((p.image.as_str(), p.release.as_str()), ("ubuntu", "jammy"));
}

#[test]
fn plan_mixes_pipeline_and_default() {
    let r = run(Some(PipelineBackend::Docker), Some("rust"), None);
    let p = plan_job(&r, &defaults());
    assert_eq!((p.image.as_str(), p.release.as_str()), ("rust", "latest"));
}

#[test]
fn cannot_plan_without_backend() {
    assert!(!can_plan(&run(None, Some("a"), Some("b")), &defaults()));
}

#[test]
fn cannot_plan_without_release() {
    assert!(!can_plan(&run(Some(PipelineBackend::LXC), None, None), &defaults()));
    assert!(can_plan(&run(Some(PipelineBackend::LXC), None, Some("bookworm")), &defaults()));
}

#[test]
fn cannot_plan_without_defaults_entry() {
    let empty = Defaults::new();
    assert!(!can_plan(&run(Some(PipelineBackend::Docker), None, Some("x")), &empty));
    assert!(can_plan(&run(Some(PipelineBackend::Docker), Some("x"), Some("y")), &empty));
}

#[test]
fn plan_without_steps_has_no_commands() {
    let mut r = run(Some(PipelineBackend::Docker), None, None);
    r.steps.clear();
    let p = plan_job(&r, &defaults());
    assert!(p.execs.is_empty());
}
