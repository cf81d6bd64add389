use taurigon::engine::docker::DockerEngine;
use taurigon::engine::plan::{Instr, Next, Outcome, Runner, Step};
use taurigon::engine::{build_run_args, ContainerState, EngineError, RestartPolicy};
use taurigon::services::catalog::{ServiceInfoDto, ServiceKind, CONTAINER_PREFIX};
use taurigon::services::{state_to_str, ServiceManager};

#[test]
fn identifiers_roundtrip() {
    for k in ServiceKind::ALL {
        assert_eq!(ServiceKind::from_id(k.id()), Some(k));
    }
    assert_eq!(ServiceKind::from_id("mysql"), None);
    assert_eq!(ServiceKind::from_id("MariaDB"), None);
    assert_eq!(ServiceKind::from_id(""), None);
}

#[test]
fn catalogue_values() {
    assert_eq!(ServiceKind::MariaDB.id(), "mariadb");
    assert_eq!(ServiceKind::Postgres.display_name(), "PostgreSQL");
    assert_eq!(ServiceKind::Redis.display_name(), "Redis");
    assert_eq!(ServiceKind::MariaDB.container_name(), "taurigon-mariadb");
    assert_eq!(ServiceKind::Postgres.container_name(), format!("{CONTAINER_PREFIX}postgres"));
    assert_eq!(ServiceKind::MariaDB.image(), "docker.io/library/mariadb:11");
    assert_eq!(ServiceKind::Postgres.image(), "docker.io/library/postgres:16");
    assert_eq!(ServiceKind::Redis.image(), "docker.io/library/redis:7-alpine");
    assert_eq!(
        (ServiceKind::MariaDB.host_port(), ServiceKind::MariaDB.container_port()),
        (8306, 3306)
    );
    assert_eq!(
        (ServiceKind::Postgres.host_port(), ServiceKind::Postgres.container_port()),
        (8432, 5432)
    );
    assert_eq!((ServiceKind::Redis.host_port(), ServiceKind::Redis.container_port()), (8379, 6379));
}

#[test]
fn ports_in_range_and_distinct() {
    let ports: Vec<u16> = ServiceKind::ALL.iter().map(|k| k.host_port()).collect();
    for p in &ports {
        assert!((8000..=8999).contains(p));
    }
    assert_ne!(ports[0], ports[1]);
    assert_ne!(ports[1], ports[2]);
    assert_ne!(ports[0], ports[2]);
}

#[test]
fn mariadb_spec() {
    let s = ServiceKind::MariaDB.build_spec("/home/u/.local/share/taurigon/volumes");
    assert_eq!(s.name, "taurigon-mariadb");
    assert_eq!(s.env, vec![("MARIADB_ROOT_PASSWORD".to_string(), "root".to_string())]);
    assert_eq!(s.volumes.len(), 1);
    assert_eq!(s.volumes[0].source, "/home/u/.local/share/taurigon/volumes/mariadb");
    assert_eq!(s.volumes[0].target, "/var/lib/mysql");
    assert!(s.volumes[0].selinux_relabel && !s.volumes[0].shared);
    assert_eq!(s.restart, RestartPolicy::UnlessStopped);
    assert!(s.command.is_empty());
    let args = build_run_args(&s, true);
    assert_eq!(
        args,
        vec![
            "run", "-d", "--name", "taurigon-mariadb", "--label", "taurigon=true", "--network",
            "taurigon-net", "--restart", "unless-stopped", "-p", "8306:3306", "-v",
            "/home/u/.local/share/taurigon/volumes/mariadb:/var/lib/mysql:Z", "-e",
            "MARIADB_ROOT_PASSWORD=root", "docker.io/library/mariadb:11",
        ]
    );
}

#[test]
fn postgres_and_redis_specs() {
    let p = ServiceKind::Postgres.build_spec("/v/");
    assert_eq!(p.env, vec![("POSTGRES_PASSWORD".to_string(), "postgres".to_string())]);
    assert_eq!(p.volumes[0].source, "/v/postgres");
    assert_eq!(p.volumes[0].target, "/var/lib/postgresql/data");
    let r = ServiceKind::Redis.build_spec("./taurigon-data/volumes");
    assert!(r.env.is_empty());
    assert_eq!(r.volumes[0].source, "./taurigon-data/volumes/redis");
    assert_eq!(r.volumes[0].target, "/data");
}

#[test]
fn info_dto() {
    let d = ServiceInfoDto::from_kind(ServiceKind::Postgres);
    assert_eq!(d.id, "postgres");
    assert_eq!(d.name, "PostgreSQL");
    assert_eq!(d.image, "docker.io/library/postgres:16");
    assert_eq!(d.host_port, 8432);
}

#[test]
fn state_strings() {
    assert_eq!(state_to_str(ContainerState::Running), "running");
    assert_eq!(state_to_str(ContainerState::Stopped), "stopped");
    assert_eq!(state_to_str(ContainerState::NotFound), "not_found");
}

/// Runs a plan, answering each step with the next scripted outcome, and
/// returns a description of the steps and the result.
fn run(plan: Vec<Instr>, mut outcomes: Vec<Outcome>) -> (Vec<String>, Result<(), String>) {
    outcomes.reverse();
    let (mut runner, mut next) = Runner::start(plan);
    let mut steps = Vec::new();
    loop {
        match next {
            Next::Finish(r) => return (steps, r.map_err(|e| e.to_string())),
            Next::Do(step) => {
                steps.push(describe(&step));
                let o = outcomes.pop().expect("an outcome for every step");
                assert!(runner.accepts(&o));
                next = runner.resume(o);
            }
        }
    }
}

fn describe(s: &Step) -> String {
    match s {
        Step::EnsureNetwork => "network".into(),
        Step::Status(n) => format!("status {n}"),
        Step::Start(n) => format!("start {n}"),
        Step::Stop(n) => format!("stop {n}"),
        Step::Restart(n) => format!("restart {n}"),
        Step::Remove(n) => format!("rm {n}"),
        Step::ImageExists(i) => format!("image? {i}"),
        Step::Pull(i) => format!("pull {i}"),
        Step::Run(spec) => format!("run {}", spec.name),
        Step::Exec(n, c) => format!("exec {n} {}", c.join(" ")),
        Step::CreateDir(d) => format!("mkdir {d}"),
        Step::RemoveDir(d) => format!("rmdir {d}"),
        Step::WriteFile(f, _) => format!("write {f}"),
        Step::RemoveFile(f) => format!("rmfile {f}"),
    }
}

#[test]
fn start_is_idempotent() {
    let e = DockerEngine::new(false);
    let m = ServiceManager::with_data_root(&e, "/vol");
    assert_eq!(m.data_root(), "/vol");
    let (steps, r) = run(
        m.start_steps(ServiceKind::Redis),
        vec![Outcome::Unit, Outcome::State(ContainerState::Running)],
    );
    assert_eq!(steps, vec!["network", "status taurigon-redis"]);
    assert_eq!(r, Ok(()));
}

#[test]
fn start_of_stopped_service() {
    let e = DockerEngine::new(false);
    let m = ServiceManager::with_data_root(&e, "/vol");
    let (steps, r) = run(
        m.start_steps(ServiceKind::MariaDB),
        vec![Outcome::Unit, Outcome::State(ContainerState::Stopped), Outcome::Unit],
    );
    assert_eq!(steps, vec!["network", "status taurigon-mariadb", "start taurigon-mariadb"]);
    assert_eq!(r, Ok(()));
}

#[test]
fn first_start_pulls_and_creates() {
    let e = DockerEngine::new(false);
    let m = ServiceManager::with_data_root(&e, "/vol");
    let (steps, r) = run(
        m.start_steps(ServiceKind::Postgres),
        vec![
            Outcome::Unit,
            Outcome::State(ContainerState::NotFound),
            Outcome::Present(false),
            Outcome::Unit,
            Outcome::Unit,
            Outcome::Output("id".into()),
        ],
    );
    assert_eq!(
        steps,
        vec![
            "network",
            "status taurigon-postgres",
            "image? docker.io/library/postgres:16",
            "pull docker.io/library/postgres:16",
            "mkdir /vol/postgres",
            "run taurigon-postgres",
        ]
    );
    assert_eq!(r, Ok(()));
    let (steps, _) = run(
        m.start_steps(ServiceKind::Postgres),
        vec![
            Outcome::Unit,
            Outcome::State(ContainerState::NotFound),
            Outcome::Present(true),
            Outcome::Unit,
            Outcome::Output("id".into()),
        ],
    );
    assert_eq!(steps[3], "mkdir /vol/postgres");
}

#[test]
fn start_failures_propagate() {
    let e = DockerEngine::new(false);
    let m = ServiceManager::with_data_root(&e, "/vol");
    let (steps, r) = run(m.start_steps(ServiceKind::Redis), vec![Outcome::Failed(EngineError::NoEngineAvailable)]);
    assert_eq!(steps, vec!["network"]);
    assert_eq!(r, Err("Keine Container-Engine verfügbar".to_string()));
    let (_, r) = run(
        m.start_steps(ServiceKind::Redis),
        vec![
            Outcome::Unit,
            Outcome::State(ContainerState::NotFound),
            Outcome::Present(false),
            Outcome::Failed(EngineError::Io("net".into())),
        ],
    );
    assert_eq!(r, Err("I/O-Fehler: net".to_string()));
    let (steps, r) = run(
        m.start_steps(ServiceKind::Redis),
        vec![
            Outcome::Unit,
            Outcome::State(ContainerState::NotFound),
            Outcome::Present(true),
            Outcome::Unit,
            Outcome::Failed(EngineError::CommandFailed { command: "c".into(), stderr: "port".into() }),
        ],
    );
    assert_eq!(steps.last().unwrap(), "run taurigon-redis");
    assert_eq!(r, Err("Kommando fehlgeschlagen: c\nport".to_string()));
}

#[test]
fn stop_remove_restart() {
    let e = DockerEngine::new(false);
    let m = ServiceManager::with_data_root(&e, "/vol");
    let (s, r) = run(m.stop_steps(ServiceKind::Redis), vec![Outcome::State(ContainerState::Running), Outcome::Unit]);
    assert_eq!(s, vec!["status taurigon-redis", "stop taurigon-redis"]);
    assert_eq!(r, Ok(()));
    let (s, r) = run(m.stop_steps(ServiceKind::Redis), vec![Outcome::State(ContainerState::Stopped)]);
    assert_eq!(s, vec!["status taurigon-redis"]);
    assert_eq!(r, Ok(()));
    let (s, _) = run(m.remove_steps(ServiceKind::Redis), vec![Outcome::State(ContainerState::NotFound)]);
    assert_eq!(s, vec!["status taurigon-redis"]);
    let (s, r) = run(m.remove_steps(ServiceKind::Redis), vec![Outcome::State(ContainerState::Running), Outcome::Unit]);
    assert_eq!(s, vec!["status taurigon-redis", "rm taurigon-redis"]);
    assert_eq!(r, Ok(()));
    let (s, r) = run(
        m.remove_with_data_steps(ServiceKind::Redis),
        vec![Outcome::State(ContainerState::Stopped), Outcome::Unit, Outcome::Unit],
    );
    assert_eq!(s, vec!["status taurigon-redis", "rm taurigon-redis", "rmdir /vol/redis"]);
    assert_eq!(r, Ok(()));
    let (s, r) = run(
        m.remove_with_data_steps(ServiceKind::Redis),
        vec![Outcome::State(ContainerState::Stopped), Outcome::Failed(EngineError::Io("busy".into()))],
    );
    assert_eq!(s.len(), 2);
    assert_eq!(r, Err("I/O-Fehler: busy".to_string()));
    let (s, r) = run(m.restart_steps(ServiceKind::MariaDB), vec![Outcome::Unit]);
    assert_eq!(s, vec!["restart taurigon-mariadb"]);
    assert_eq!(r, Ok(()));
}

#[test]
fn status_values() {
    let e = DockerEngine::new(false);
    let m = ServiceManager::with_data_root(&e, "/vol");
    let st = m.status_of(ServiceKind::Redis, ContainerState::NotFound);
    assert_eq!((st.id.as_str(), st.state.as_str(), st.host_port), ("redis", "not_found", 8379));
    assert_eq!(m.spec_for(ServiceKind::MariaDB).name, "taurigon-mariadb");
    assert_eq!(m.volume_dir(ServiceKind::Redis), "/vol/redis");
}

#[test]
fn default_data_root_layout() {
    let e = DockerEngine::new(false);
    let m = ServiceManager::new(&e);
    let root = m.data_root();
    assert!(root.ends_with("taurigon/volumes"), "{root}");
}
