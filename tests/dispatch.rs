use dxrun::args::UserArgs;
use dxrun::dispatch::{run_command, Action, ChildSpec, Dispatch, Event, Phase};
use dxrun::error::DxError;
use dxrun::tool::{composer_candidates, select_composer};

fn s(x: &str) -> String {
    x.to_string()
}

fn strings(xs: &[&str]) -> Vec<String> {
    xs.iter().map(|x| x.to_string()).collect()
}

fn user(command: Option<&str>, no_cache: bool, environ: &[&str], volume: &[&str]) -> UserArgs {
    UserArgs {
        environ: strings(environ),
        volume: strings(volume),
        no_cache,
        command: command.map(s),
    }
}

fn start(args: UserArgs, config_dir: &str) -> (Dispatch, Action) {
    run_command(args, config_dir).expect("a command was named")
}

/// Drives an invocation along the usual path up to the run child and
/// returns the two children it asked for.
fn usual_path(
    args: UserArgs,
    config_dir: &str,
    composer: &str,
    manifest: &str,
) -> (Dispatch, ChildSpec, ChildSpec) {
    let (mut d, _) = start(args, config_dir);
    d.step(Event::Exists(true));
    d.step(Event::Exists(true));
    let build = match d.step(Event::Located(Ok(s(composer)))) {
        Action::Spawn(c) => c,
        other => panic!("expected the build child, got {:?}", other),
    };
    d.step(Event::Exited(Some(0)));
    let run = match d.step(Event::ManifestText(Some(s(manifest)))) {
        Action::Spawn(c) => c,
        other => panic!("expected the run child, got {:?}", other),
    };
    (d, build, run)
}

#[test]
fn plain_command_builds_then_runs_in_its_directory() {
    let (mut d, first) = start(user(Some("hello"), false, &[], &[]), "/home/u/.config/app/");
    assert_eq!(first, Action::CheckExists(s("/home/u/.config/app/hello")));
    assert_eq!(
        d.step(Event::Exists(true)),
        Action::CheckExists(s("/home/u/.config/app/hello/docker-compose.yml"))
    );
    assert_eq!(d.step(Event::Exists(true)), Action::LocateComposer);
    assert_eq!(
        d.step(Event::Located(Ok(s("/usr/bin/docker-compose")))),
        Action::Spawn(ChildSpec {
            program: s("/usr/bin/docker-compose"),
            cwd: s("/home/u/.config/app/hello"),
            args: strings(&["build"]),
        })
    );
    assert_eq!(d.phase(), Phase::Building);
    assert_eq!(
        d.step(Event::Exited(Some(0))),
        Action::ReadManifest(s("/home/u/.config/app/hello/docker-compose.yml"))
    );
    assert_eq!(
        d.step(Event::ManifestText(Some(s("services:\n  hello:\n    build: .\n")))),
        Action::Spawn(ChildSpec {
            program: s("/usr/bin/docker-compose"),
            cwd: s("/home/u/.config/app/hello"),
            args: strings(&["run", "--rm", "hello"]),
        })
    );
    assert_eq!(d.phase(), Phase::Running);
    assert_eq!(d.step(Event::Exited(Some(0))), Action::Finish(Ok(Some(0))));
    assert_eq!(d.phase(), Phase::Finished);
}

#[test]
fn flags_reach_the_right_phase() {
    let args = user(Some("hello"), true, &["FOO=1"], &["/tmp:/tmp"]);
    let (_, build, run) = usual_path(args, "/home/u/.config/app", "docker-compose", "services: {}");
    assert_eq!(build.args, strings(&["build", "--no-cache"]));
    assert_eq!(run.args, strings(&["run", "--rm", "-e", "FOO=1", "-v", "/tmp:/tmp", "hello"]));
    assert_eq!(build.cwd, s("/home/u/.config/app/hello"));
    assert_eq!(run.cwd, s("/home/u/.config/app/hello"));
}

#[test]
fn ports_in_manifest_publish_service_ports() {
    let manifest = "services:\n  web:\n    ports:\n      - \"80:80\"\n";
    let (_, _, run) = usual_path(user(Some("web"), false, &[], &[]), "/c", "docker-compose", manifest);
    assert_eq!(run.args, strings(&["run", "--rm", "--service-ports", "web"]));
}

#[test]
fn unreadable_manifest_publishes_no_ports() {
    let (mut d, _) = start(user(Some("web"), false, &[], &[]), "/c");
    d.step(Event::Exists(true));
    d.step(Event::Exists(true));
    d.step(Event::Located(Ok(s("docker-compose"))));
    d.step(Event::Exited(Some(0)));
    match d.step(Event::ManifestText(None)) {
        Action::Spawn(c) => assert_eq!(c.args, strings(&["run", "--rm", "web"])),
        other => panic!("expected the run child, got {:?}", other),
    }
}

#[test]
fn passthrough_keeps_order_environment_before_volumes() {
    let args = user(Some("svc"), false, &["A=1", "B=2", "C=3"], &["/x:/x", "/y:/y"]);
    let (_, build, run) = usual_path(args, "/c/", "docker-compose", "ports: []");
    assert_eq!(build.args, strings(&["build"]));
    assert_eq!(
        run.args,
        strings(&[
            "run", "--rm", "--service-ports", "-e", "A=1", "-e", "B=2", "-e", "C=3", "-v", "/x:/x",
            "-v", "/y:/y", "svc"
        ])
    );
}

#[test]
fn podman_is_used_when_docker_compose_is_missing() {
    let composer = select_composer(None, Some(s("/usr/bin/podman-compose"))).unwrap();
    assert_eq!(composer, "/usr/bin/podman-compose");
    let (_, build, run) = usual_path(user(Some("hello"), false, &[], &[]), "/c", &composer, "");
    assert_eq!(build.program, "/usr/bin/podman-compose");
    assert_eq!(run.program, "/usr/bin/podman-compose");
}

#[test]
fn docker_compose_is_preferred() {
    let r = select_composer(Some(s("/a/docker-compose")), Some(s("/b/podman-compose")));
    assert_eq!(r, Ok(s("/a/docker-compose")));
}

#[test]
fn no_compose_tool_is_composer_missing() {
    assert_eq!(select_composer(None, None), Err(DxError::ComposerMissing));
    let (mut d, _) = start(user(Some("hello"), false, &[], &[]), "/c");
    d.step(Event::Exists(true));
    d.step(Event::Exists(true));
    assert_eq!(
        d.step(Event::Located(Err(DxError::ComposerMissing))),
        Action::Finish(Err(DxError::ComposerMissing))
    );
}

#[test]
fn failed_build_never_runs() {
    let (mut d, _) = start(user(Some("hello"), false, &[], &[]), "/c");
    d.step(Event::Exists(true));
    d.step(Event::Exists(true));
    d.step(Event::Located(Ok(s("docker-compose"))));
    assert_eq!(d.step(Event::Exited(Some(2))), Action::Finish(Err(DxError::BuildFailed)));
    assert_eq!(d.phase(), Phase::Finished);
    assert_eq!(
        d.step(Event::ManifestText(Some(s("")))),
        Action::Finish(Err(DxError::BuildFailed))
    );
}

#[test]
fn build_killed_by_signal_is_build_failure() {
    let (mut d, _) = start(user(Some("hello"), false, &[], &[]), "/c");
    d.step(Event::Exists(true));
    d.step(Event::Exists(true));
    d.step(Event::Located(Ok(s("docker-compose"))));
    assert_eq!(d.step(Event::Exited(None)), Action::Finish(Err(DxError::BuildFailed)));
}

#[test]
fn missing_command_directory_is_command_not_found() {
    let (mut d, _) = start(user(Some("nope"), false, &[], &[]), "/c");
    assert_eq!(d.step(Event::Exists(false)), Action::Finish(Err(DxError::CommandNotFound)));
}

#[test]
fn no_command_name_is_command_not_found() {
    assert!(matches!(
        run_command(user(None, false, &[], &[]), "/c"),
        Err(DxError::CommandNotFound)
    ));
}

#[test]
fn missing_manifest_is_manifest_missing_and_spawns_nothing() {
    let (mut d, _) = start(user(Some("hello"), false, &[], &[]), "/c");
    d.step(Event::Exists(true));
    assert_eq!(d.step(Event::Exists(false)), Action::Finish(Err(DxError::ManifestMissing)));
    assert_eq!(
        d.step(Event::Located(Ok(s("docker-compose")))),
        Action::Finish(Err(DxError::ManifestMissing))
    );
}

#[test]
fn spawn_failure_is_reported() {
    let (mut d, _) = start(user(Some("hello"), false, &[], &[]), "/c");
    d.step(Event::Exists(true));
    d.step(Event::Exists(true));
    d.step(Event::Located(Ok(s("docker-compose"))));
    assert_eq!(d.step(Event::SpawnFailed), Action::Finish(Err(DxError::SpawnFailed)));
}

#[test]
fn interrupt_kills_the_run_child() {
    let (mut d, _, _) = usual_path(user(Some("hello"), false, &[], &[]), "/c", "dc", "");
    assert_eq!(d.step(Event::Interrupt), Action::Kill);
    assert_eq!(d.phase(), Phase::Terminating);
    assert_eq!(d.step(Event::Exited(Some(0))), Action::Finish(Err(DxError::Interrupted)));
}

#[test]
fn interrupt_during_build_is_not_trapped() {
    let (mut d, _) = start(user(Some("hello"), false, &[], &[]), "/c");
    d.step(Event::Exists(true));
    d.step(Event::Exists(true));
    d.step(Event::Located(Ok(s("docker-compose"))));
    assert_eq!(d.step(Event::Interrupt), Action::Wait);
    assert_eq!(d.phase(), Phase::Building);
}

#[test]
fn run_child_exit_code_is_the_outcome() {
    let (mut d, _, _) = usual_path(user(Some("hello"), false, &[], &[]), "/c", "dc", "");
    assert_eq!(d.step(Event::Exited(Some(3))), Action::Finish(Ok(Some(3))));
}

#[test]
fn candidates_in_order_of_preference() {
    assert_eq!(composer_candidates(), (s("docker-compose"), s("podman-compose")));
}
