use taurigon::engine::docker::DockerEngine;
use taurigon::engine::podman::PodmanEngine;
use taurigon::engine::{
    build_run_args, cli_result, copy_spec, create_engine, ensure_network_next, exec_command,
    image_inspect_command, inspect_state_command, is_running_state, list_command,
    network_create_command, network_inspect_command, parse_container_list, parse_state,
    pull_command, remove_command, run_result, status_from_inspect, verb_command, CliOutcome,
    ContainerEngine, ContainerSpec, ContainerState, EngineError, RestartPolicy, SelectedEngine,
    MANAGED_LABEL, NETWORK_NAME,
};
use taurigon::system::inspector::{
    ContainerEngineKind, DetectedEngine, Distro, EngineMode, SystemInfo,
};

fn strs(v: &[&str]) -> Vec<String> {
    v.iter().map(|s| s.to_string()).collect()
}

fn redis_spec() -> ContainerSpec {
    ContainerSpec::new("taurigon-redis", "docker.io/library/redis:7-alpine")
        .with_port(8379, 6379)
        .with_volume("/data/redis", "/data", true)
        .with_shared_volume("/srv/www", "/var/www")
        .with_env("A", "1")
        .with_command(strs(&["redis-server", "--appendonly", "yes"]))
}

#[test]
fn spec_defaults() {
    let s = ContainerSpec::new("n", "img");
    assert_eq!(s.name, "n");
    assert_eq!(s.image, "img");
    assert!(s.ports.is_empty() && s.volumes.is_empty() && s.env.is_empty() && s.command.is_empty());
    assert_eq!(s.restart, RestartPolicy::UnlessStopped);
    assert_eq!(s.network, NETWORK_NAME);
    assert_eq!(NETWORK_NAME, "taurigon-net");
    assert_eq!(MANAGED_LABEL, "taurigon=true");
}

#[test]
fn spec_builders() {
    let s = redis_spec().with_restart(RestartPolicy::OnFailure);
    assert_eq!(s.ports.len(), 1);
    assert_eq!((s.ports[0].host, s.ports[0].container), (8379, 6379));
    assert_eq!(s.volumes.len(), 2);
    assert_eq!(s.volumes[0].source, "/data/redis");
    assert!(s.volumes[0].selinux_relabel && !s.volumes[0].shared);
    assert_eq!(s.volumes[1].target, "/var/www");
    assert!(s.volumes[1].selinux_relabel && s.volumes[1].shared);
    assert_eq!(s.env, vec![("A".to_string(), "1".to_string())]);
    assert_eq!(s.restart, RestartPolicy::OnFailure);
    assert_eq!(s.command, strs(&["redis-server", "--appendonly", "yes"]));
}

#[test]
fn restart_words() {
    assert_eq!(RestartPolicy::No.as_arg(), "no");
    assert_eq!(RestartPolicy::Always.as_arg(), "always");
    assert_eq!(RestartPolicy::UnlessStopped.as_arg(), "unless-stopped");
    assert_eq!(RestartPolicy::OnFailure.as_arg(), "on-failure");
}

#[test]
fn run_args_with_selinux() {
    let args = build_run_args(&redis_spec(), true);
    assert_eq!(
        args,
        strs(&[
            "run", "-d", "--name", "taurigon-redis", "--label", "taurigon=true", "--network",
            "taurigon-net", "--restart", "unless-stopped", "-p", "8379:6379", "-v",
            "/data/redis:/data:Z", "-v", "/srv/www:/var/www:z", "-e", "A=1",
            "docker.io/library/redis:7-alpine", "redis-server", "--appendonly", "yes",
        ])
    );
}

#[test]
fn run_args_without_selinux() {
    let args = build_run_args(&redis_spec(), false);
    assert_eq!(args[13], "/data/redis:/data");
    assert_eq!(args[15], "/srv/www:/var/www");
}

#[test]
fn run_args_no_relabel_requested() {
    let s = ContainerSpec::new("x", "i").with_volume("/a", "/b", false).with_port(0, 65535);
    let args = build_run_args(&s, true);
    assert_eq!(
        args,
        strs(&[
            "run", "-d", "--name", "x", "--label", "taurigon=true", "--network", "taurigon-net",
            "--restart", "unless-stopped", "-p", "0:65535", "-v", "/a:/b", "i",
        ])
    );
}

#[test]
fn run_containers_are_listed_concretely() {
    let run = build_run_args(&redis_spec(), false);
    let list = list_command();
    assert_eq!(list[3], format!("label={}", run[5]));
    assert_eq!(
        list,
        strs(&["ps", "-a", "--filter", "label=taurigon=true", "--format", "{{.Names}}\t{{.State}}"])
    );
}

#[test]
fn simple_commands() {
    assert_eq!(network_inspect_command(), strs(&["network", "inspect", "taurigon-net"]));
    assert_eq!(network_create_command(), strs(&["network", "create", "taurigon-net"]));
    assert_eq!(verb_command("stop", "c"), strs(&["stop", "c"]));
    assert_eq!(remove_command("c", true), strs(&["rm", "-f", "c"]));
    assert_eq!(remove_command("c", false), strs(&["rm", "c"]));
    assert_eq!(
        inspect_state_command("c"),
        strs(&["inspect", "--format", "{{.State.Status}}", "c"])
    );
    assert_eq!(image_inspect_command("img"), strs(&["image", "inspect", "img"]));
    assert_eq!(pull_command("img"), strs(&["pull", "img"]));
    assert_eq!(
        exec_command("taurigon-proxy", &strs(&["nginx", "-s", "reload"])),
        strs(&["exec", "taurigon-proxy", "nginx", "-s", "reload"])
    );
}

#[test]
fn ensure_network_creates_only_when_missing() {
    assert!(ensure_network_next(true).is_none());
    assert_eq!(ensure_network_next(false), Some(strs(&["network", "create", "taurigon-net"])));
}

#[test]
fn state_words() {
    assert_eq!(parse_state("running"), ContainerState::Running);
    assert_eq!(parse_state("exited"), ContainerState::Stopped);
    assert_eq!(parse_state("created"), ContainerState::Stopped);
    assert_eq!(parse_state(""), ContainerState::Stopped);
    assert_eq!(parse_state("Running"), ContainerState::Stopped);
}

#[test]
fn inspect_status() {
    let ok: Result<String, EngineError> = Ok("running\n".to_string());
    let s = status_from_inspect("c", &ok);
    assert_eq!(s.name, "c");
    assert_eq!(s.state, ContainerState::Running);
    let paused: Result<String, EngineError> = Ok(" paused ".to_string());
    assert_eq!(status_from_inspect("c", &paused).state, ContainerState::Stopped);
    let err: Result<String, EngineError> = Err(EngineError::Io("x".to_string()));
    assert_eq!(status_from_inspect("c", &err).state, ContainerState::NotFound);
}

#[test]
fn list_parsing() {
    let out = "taurigon-redis\trunning\r\ntaurigon-mariadb\texited\n\n   \nodd\n";
    let l = parse_container_list(out);
    assert_eq!(l.len(), 3);
    assert_eq!((l[0].name.as_str(), l[0].state), ("taurigon-redis", ContainerState::Running));
    assert_eq!((l[1].name.as_str(), l[1].state), ("taurigon-mariadb", ContainerState::Stopped));
    assert_eq!((l[2].name.as_str(), l[2].state), ("odd", ContainerState::Stopped));
    assert!(parse_container_list("").is_empty());
    let t = parse_container_list("a\tb\trunning");
    assert_eq!(t[0].name, "a");
    assert_eq!(t[0].state, ContainerState::Stopped);
}

#[test]
fn cli_outcomes() {
    let args = strs(&["rm", "x"]);
    match cli_result("podman", &args, CliOutcome::SpawnFailed { not_found: true, message: "m".into() }) {
        Err(EngineError::BinaryNotFound(b)) => assert_eq!(b, "podman"),
        other => panic!("{other:?}"),
    }
    match cli_result("podman", &args, CliOutcome::SpawnFailed { not_found: false, message: "denied".into() }) {
        Err(EngineError::Io(m)) => assert_eq!(m, "denied"),
        other => panic!("{other:?}"),
    }
    match cli_result(
        "podman",
        &args,
        CliOutcome::Exited { success: true, stdout: "out\n".into(), stderr: "warn".into() },
    ) {
        Ok(o) => assert_eq!(o, "out\n"),
        other => panic!("{other:?}"),
    }
    match cli_result(
        "podman",
        &args,
        CliOutcome::Exited { success: false, stdout: "".into(), stderr: "  boom \n".into() },
    ) {
        Err(EngineError::CommandFailed { command, stderr }) => {
            assert_eq!(command, "podman rm x");
            assert_eq!(stderr, "boom");
        }
        other => panic!("{other:?}"),
    }
    match cli_result("docker", &vec![], CliOutcome::Exited { success: false, stdout: "".into(), stderr: "".into() }) {
        Err(EngineError::CommandFailed { command, .. }) => assert_eq!(command, "docker "),
        other => panic!("{other:?}"),
    }
}

#[test]
fn run_result_trims_id() {
    assert_eq!(run_result(Ok(" abc123\n".to_string())).unwrap(), "abc123");
    assert!(matches!(run_result(Err(EngineError::NoEngineAvailable)), Err(EngineError::NoEngineAvailable)));
}

#[test]
fn error_texts() {
    assert_eq!(
        EngineError::BinaryNotFound("podman".into()).to_string(),
        "Container-Engine 'podman' nicht gefunden (ist sie installiert?)"
    );
    assert_eq!(EngineError::NoEngineAvailable.to_string(), "Keine Container-Engine verfügbar");
    assert_eq!(
        EngineError::CommandFailed { command: "docker ps".into(), stderr: "err".into() }.to_string(),
        "Kommando fehlgeschlagen: docker ps\nerr"
    );
    assert_eq!(EngineError::Io("x".into()).to_string(), "I/O-Fehler: x");
}

fn info(kind: Option<ContainerEngineKind>, selinux: bool) -> SystemInfo {
    SystemInfo {
        engine: kind.map(|k| DetectedEngine { kind: k, mode: EngineMode::Rootless, version: "1".into() }),
        distro: Distro::Other(String::new()),
        selinux_enforcing: selinux,
    }
}

#[test]
fn engine_selection() {
    assert!(matches!(create_engine(&info(None, true)), Err(EngineError::NoEngineAvailable)));
    let p = create_engine(&info(Some(ContainerEngineKind::Podman), true)).unwrap();
    assert!(matches!(p, SelectedEngine::Podman(_)));
    assert_eq!(p.kind(), ContainerEngineKind::Podman);
    assert_eq!(p.binary(), "podman");
    assert!(p.selinux_enforcing());
    let d = create_engine(&info(Some(ContainerEngineKind::Docker), false)).unwrap();
    assert_eq!(d.kind(), ContainerEngineKind::Docker);
    assert_eq!(d.binary(), "docker");
    assert!(!d.selinux_enforcing());
    assert_eq!(DockerEngine::new(true).binary(), DockerEngine::BINARY);
    assert_eq!(PodmanEngine::new(false).binary(), PodmanEngine::BINARY);
}

#[test]
fn running_state_and_copies() {
    assert!(is_running_state(ContainerState::Running));
    assert!(!is_running_state(ContainerState::Stopped));
    assert!(!is_running_state(ContainerState::NotFound));
    let s = redis_spec();
    let c = copy_spec(&s);
    assert_eq!(build_run_args(&c, true), build_run_args(&s, true));
}
