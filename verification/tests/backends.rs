use channel_runner::backends::docker::{container_spec, exec_spec, image_reference, EXEC_DETACHED};
use channel_runner::backends::lxc::{lxc_create_plan, LxcError};
use channel_runner::docker::images::{check_build_reply, check_clone, image_build_plan, ImageError};
use channel_runner::docker::{check_ping, DockerError};

fn strings(v: &[&str]) -> Vec<String> {
    v.iter().map(|s| s.to_string()).collect()
}

#[test]
fn image_reference_joins_with_colon() {
    assert_eq!(image_reference("alpine", "latest"), "alpine:latest");
    assert_eq!(image_reference("", ""), ":");
}

#[test]
fn container_spec_fields() {
    let c = container_spec("runner-temp_value-1", "alpine", "latest");
    assert_eq!(c.name, "runner-temp_value-1");
    assert_eq!(c.image, "alpine:latest");
    assert!(c.attach_stdout);
    assert!(c.tty);
    assert_eq!(c.cmd, strings(&["/usr/bin/git", "--help"]));
    assert_eq!(c.working_dir, "/usr/");
}

#[test]
fn exec_spec_splits_the_run_line() {
    let e = exec_spec("echo hello  world");
    assert_eq!(e.cmd, strings(&["echo", "hello", "", "world"]));
    assert!(e.attach_stdout);
    assert!(e.attach_stderr);
    assert!(!EXEC_DETACHED);
}

#[test]
fn lxc_plan_needs_image_and_release() {
    assert_eq!(lxc_create_plan(None, Some("edge"), true), Err(LxcError::MissingImageOrRelease));
    assert_eq!(lxc_create_plan(Some("alpine"), None, true), Err(LxcError::MissingImageOrRelease));
    assert_eq!(lxc_create_plan(None, None, false), Err(LxcError::MissingImageOrRelease));
}

#[test]
fn lxc_plan_needs_create_function() {
    assert_eq!(lxc_create_plan(Some("alpine"), Some("edge"), false), Err(LxcError::MissingCreateFunction));
}

#[test]
fn lxc_plan_download_arguments() {
    let p = lxc_create_plan(Some("alpine"), Some("edge"), true).unwrap();
    assert_eq!(p.template, "download");
    assert!(p.quiet);
    assert_eq!(p.args, strings(&["-d", "alpine", "-r", "edge", "-a", "amd64"]));
}

#[test]
fn error_messages() {
    assert_eq!(LxcError::MissingImageOrRelease.message(), "Both image and release are required.");
    assert_eq!(LxcError::MissingCreateFunction.message(), "Could not find LXC createl function.");
    assert_eq!(DockerError::PingFailed.message(), "Failed to ping docker.");
    assert_eq!(ImageError::CloneFailed.message(), "Cloning git repo to a temporary directory failed.");
    assert_eq!(ImageError::CloneUnsuccessful.message(), "Git command was not successful.");
    assert_eq!(ImageError::NoImageInfo.message(), "Image was None?");
}

#[test]
fn ping_decides_connection() {
    assert_eq!(check_ping(true), Ok(()));
    assert_eq!(check_ping(false), Err(DockerError::PingFailed));
}

#[test]
fn image_build_plan_paths_and_args() {
    let p = image_build_plan("/tmp", "https://example.org/repo.git", "img", "v1");
    assert_eq!(p.clone_dir, "/tmp/channel-runner/images/img/v1");
    assert_eq!(
        p.git_args,
        strings(&["clone", "https://example.org/repo.git", "/tmp/channel-runner/images/img/v1", "--recursive"])
    );
    assert_eq!(p.archive_path, "channel-runner/images/img/v1");
    assert_eq!(p.repo, "img");
    assert_eq!(p.tag, "v1");
    assert_eq!(p.from_src, "-");
}

#[test]
fn clone_outcomes() {
    assert_eq!(check_clone(false, true), Err(ImageError::CloneFailed));
    assert_eq!(check_clone(false, false), Err(ImageError::CloneFailed));
    assert_eq!(check_clone(true, false), Err(ImageError::CloneUnsuccessful));
    assert_eq!(check_clone(true, true), Ok(()));
}

#[test]
fn build_reply_outcomes() {
    assert_eq!(check_build_reply(Some(true)), Ok(()));
    assert_eq!(check_build_reply(Some(false)), Err(ImageError::NoImageInfo));
    assert_eq!(check_build_reply(None), Err(ImageError::NoImageInfo));
}
