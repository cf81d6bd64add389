use taurigon::engine::docker::DockerEngine;
use taurigon::engine::plan::{Instr, Next, Outcome, Runner, Step};
use taurigon::engine::{build_run_args, ContainerState, EngineError};
use taurigon::projects::model::Project;
use taurigon::web::catalog::{php_container_name, php_image, PHP_VERSIONS, PROXY_HTTP_PORT, PROXY_IMAGE, PROXY_NAME};
use taurigon::web::vhost::{generate, TPL_PHP, TPL_STATIC};
use taurigon::web::{needed_php_versions, reload_command, WebManager, DEFAULT_VHOST};

fn project(id: i64, name: &str, ty: &str, php: Option<&str>) -> Project {
    Project {
        id,
        name: name.to_string(),
        domain: format!("{name}.localhost"),
        project_type: ty.to_string(),
        php_version: php.map(|s| s.to_string()),
        path: format!("/p/{name}"),
        created_at: String::new(),
    }
}

#[test]
fn php_catalogue() {
    assert_eq!(php_container_name("8.3"), "taurigon-php83");
    assert_eq!(php_container_name("8.4.1"), "taurigon-php841");
    assert_eq!(php_container_name(""), "taurigon-php");
    assert_eq!(php_image("8.3"), "docker.io/library/php:8.3-fpm-alpine");
    assert_eq!(PHP_VERSIONS, ["8.2", "8.3", "8.4"]);
    assert_eq!(PROXY_NAME, "taurigon-proxy");
    assert_eq!(PROXY_IMAGE, "docker.io/library/nginx:alpine");
    assert_eq!(PROXY_HTTP_PORT, 8080);
}

#[test]
fn php_vhost() {
    let c = generate("shop", "shop.localhost", "php", Some("8.2"));
    let expected = "server {
    listen 80;
    server_name shop.localhost;
    root /var/www/shop;
    index index.php index.html;

    location / {
        try_files $uri $uri/ /index.php?$query_string;
    }

    location ~ \\.php$ {
        fastcgi_pass taurigon-php82:9000;
        fastcgi_index index.php;
        include fastcgi_params;
        fastcgi_param SCRIPT_FILENAME $document_root$fastcgi_script_name;
    }
}
";
    assert_eq!(c, expected);
    assert_eq!(c, TPL_PHP.replace("__DOMAIN__", "shop.localhost").replace("__NAME__", "shop").replace("__PHP__", "taurigon-php82"));
}

#[test]
fn php_vhost_default_version() {
    let c = generate("a", "a.localhost", "php", None);
    assert!(c.contains("fastcgi_pass taurigon-php83:9000;"));
}

#[test]
fn static_vhost() {
    let c = generate("site", "site.localhost", "static", Some("8.3"));
    let expected = "server {
    listen 80;
    server_name site.localhost;
    root /var/www/site;
    index index.html;

    location / {
        try_files $uri $uri/ =404;
    }
}
";
    assert_eq!(c, expected);
    assert_eq!(generate("x", "d", "other", None), TPL_STATIC.replace("__DOMAIN__", "d").replace("__NAME__", "x"));
}

#[test]
fn sequential_replacement() {
    let c = generate("n", "__NAME__.localhost", "static", None);
    assert!(c.contains("server_name n.localhost;"));
}

#[test]
fn needed_versions_dedup() {
    let ps = vec![
        project(1, "a", "php", Some("8.3")),
        project(2, "b", "static", Some("8.2")),
        project(3, "c", "php", Some("8.3")),
        project(4, "d", "php", None),
        project(5, "e", "php", Some("8.4")),
    ];
    let v = needed_php_versions(&ps);
    assert_eq!(v, vec!["8.3".to_string(), "8.4".to_string()]);
    let ps = vec![project(1, "a", "php", None), project(2, "b", "php", Some("8.2")), project(3, "c", "static", None)];
    assert_eq!(needed_php_versions(&ps), vec!["8.3".to_string(), "8.2".to_string()]);
    assert!(needed_php_versions(&vec![]).is_empty());
}

#[test]
fn proxy_and_php_specs() {
    let e = DockerEngine::new(true);
    let w = WebManager::with_dirs(&e, "/d/projects", "/d/nginx/conf.d");
    let p = w.proxy_spec();
    assert_eq!(
        build_run_args(&p, true),
        vec![
            "run", "-d", "--name", "taurigon-proxy", "--label", "taurigon=true", "--network",
            "taurigon-net", "--restart", "unless-stopped", "-p", "8080:80", "-v",
            "/d/nginx/conf.d:/etc/nginx/conf.d:Z", "-v", "/d/projects:/var/www:z",
            "docker.io/library/nginx:alpine",
        ]
    );
    let php = w.php_spec("8.3");
    assert_eq!(
        build_run_args(&php, false),
        vec![
            "run", "-d", "--name", "taurigon-php83", "--label", "taurigon=true", "--network",
            "taurigon-net", "--restart", "unless-stopped", "-v", "/d/projects:/var/www", "-e",
            "PHP_OPCACHE_VALIDATE_TIMESTAMPS=1", "-e", "PHP_OPCACHE_REVALIDATE_FREQ=0",
            "docker.io/library/php:8.3-fpm-alpine",
        ]
    );
}

#[test]
fn vhost_files() {
    let e = DockerEngine::new(false);
    let w = WebManager::with_dirs(&e, "/d/projects", "/d/conf");
    let ps = vec![project(1, "shop", "php", Some("8.2")), project(2, "site", "static", None)];
    let files = w.vhost_files(&ps);
    assert_eq!(files.len(), 3);
    assert_eq!(files[0], ("/d/conf/00-default.conf".to_string(), DEFAULT_VHOST.to_string()));
    assert_eq!(files[1].0, "/d/conf/shop.conf");
    assert_eq!(files[1].1, generate("shop", "shop.localhost", "php", Some("8.2")));
    assert_eq!(files[2].0, "/d/conf/site.conf");
    assert!(DEFAULT_VHOST.contains("return 404 \"Taurigon: Keine Website fuer diese Domain.\\n\";"));
    assert_eq!(w.vhost_file("shop"), "/d/conf/shop.conf");
}

/// Runs a plan, answering each step with the next scripted outcome, and
/// returns a description of the steps and the result.
fn run(plan: Vec<Instr>, mut outcomes: Vec<Outcome>) -> (Vec<String>, Result<(), String>) {
    outcomes.reverse();
    let (mut runner, mut next) = Runner::start(plan);
    let mut steps = Vec::new();
    loop {
        match next {
            Next::Finish(r) => return (steps, r.map_err(|e| e.to_string())),
            Next::Do(step) => {
                steps.push(describe(&step));
                let o = outcomes.pop().expect("an outcome for every step");
                assert!(runner.accepts(&o));
                next = runner.resume(o);
            }
        }
    }
}

fn describe(s: &Step) -> String {
    match s {
        Step::EnsureNetwork => "network".into(),
        Step::Status(n) => format!("status {n}"),
        Step::Start(n) => format!("start {n}"),
        Step::Stop(n) => format!("stop {n}"),
        Step::Restart(n) => format!("restart {n}"),
        Step::Remove(n) => format!("rm {n}"),
        Step::ImageExists(i) => format!("image? {i}"),
        Step::Pull(i) => format!("pull {i}"),
        Step::Run(spec) => format!("run {}", spec.name),
        Step::Exec(n, c) => format!("exec {n} {}", c.join(" ")),
        Step::CreateDir(d) => format!("mkdir {d}"),
        Step::RemoveDir(d) => format!("rmdir {d}"),
        Step::WriteFile(f, _) => format!("write {f}"),
        Step::RemoveFile(f) => format!("rmfile {f}"),
    }
}

#[test]
fn stop_plan_and_reload_command() {
    let e = DockerEngine::new(false);
    let w = WebManager::with_dirs(&e, "/p", "/c");
    let (s, r) = run(
        w.stop_steps(),
        vec![
            Outcome::State(ContainerState::Running),
            Outcome::Unit,
            Outcome::State(ContainerState::NotFound),
            Outcome::State(ContainerState::Running),
            Outcome::Unit,
            Outcome::State(ContainerState::Stopped),
        ],
    );
    assert_eq!(
        s,
        vec![
            "status taurigon-proxy",
            "stop taurigon-proxy",
            "status taurigon-php82",
            "status taurigon-php83",
            "stop taurigon-php83",
            "status taurigon-php84",
        ]
    );
    assert_eq!(r, Ok(()));
    let (s, r) = run(w.stop_steps(), vec![Outcome::Failed(EngineError::Io("x".into()))]);
    assert_eq!(s, vec!["status taurigon-proxy"]);
    assert_eq!(r, Err("I/O-Fehler: x".to_string()));
    assert_eq!(reload_command(), vec!["nginx", "-s", "reload"]);
    assert_eq!(w.projects_root(), "/p");
    assert_eq!(w.nginx_conf_dir(), "/c");
}

#[test]
fn start_plan_order() {
    let e = DockerEngine::new(false);
    let w = WebManager::with_dirs(&e, "/p", "/c");
    let ps = vec![project(1, "shop", "php", Some("8.2"))];
    let (s, r) = run(
        w.start_steps(&ps),
        vec![
            Outcome::Unit,
            Outcome::Unit,
            Outcome::Failed(EngineError::Io("denied".into())),
            Outcome::Unit,
            Outcome::Unit,
            Outcome::State(ContainerState::Stopped),
            Outcome::Unit,
            Outcome::State(ContainerState::Running),
            Outcome::State(ContainerState::Running),
            Outcome::Failed(EngineError::Io("reload".into())),
        ],
    );
    assert_eq!(
        s,
        vec![
            "network",
            "mkdir /c",
            "mkdir /p",
            "write /c/00-default.conf",
            "write /c/shop.conf",
            "status taurigon-php82",
            "start taurigon-php82",
            "status taurigon-proxy",
            "status taurigon-proxy",
            "exec taurigon-proxy nginx -s reload",
        ]
    );
    assert_eq!(r, Ok(()));
}

#[test]
fn start_plan_creates_missing_proxy() {
    let e = DockerEngine::new(false);
    let w = WebManager::with_dirs(&e, "/p", "/c");
    let (s, r) = run(
        w.start_steps(&vec![]),
        vec![
            Outcome::Unit,
            Outcome::Unit,
            Outcome::Unit,
            Outcome::Unit,
            Outcome::State(ContainerState::NotFound),
            Outcome::State(ContainerState::NotFound),
            Outcome::Present(false),
            Outcome::Unit,
            Outcome::Output("id".into()),
        ],
    );
    assert_eq!(
        s,
        vec![
            "network",
            "mkdir /c",
            "mkdir /p",
            "write /c/00-default.conf",
            "status taurigon-proxy",
            "status taurigon-proxy",
            "image? docker.io/library/nginx:alpine",
            "pull docker.io/library/nginx:alpine",
            "run taurigon-proxy",
        ]
    );
    assert_eq!(r, Ok(()));
    let (s, r) = run(w.start_steps(&vec![]), vec![Outcome::Failed(EngineError::NoEngineAvailable)]);
    assert_eq!(s, vec!["network"]);
    assert_eq!(r, Err("Keine Container-Engine verfügbar".to_string()));
}

#[test]
fn reload_plan() {
    let e = DockerEngine::new(false);
    let w = WebManager::with_dirs(&e, "/p", "/c");
    let ps = vec![project(1, "site", "static", None)];
    let (s, r) = run(
        w.reload_steps(&ps),
        vec![Outcome::Unit, Outcome::Unit, Outcome::Unit, Outcome::Unit, Outcome::State(ContainerState::Stopped)],
    );
    assert_eq!(
        s,
        vec!["mkdir /c", "mkdir /p", "write /c/00-default.conf", "write /c/site.conf", "status taurigon-proxy"]
    );
    assert_eq!(r, Ok(()));
    let (s, r) = run(
        w.reload_steps(&ps),
        vec![
            Outcome::Unit,
            Outcome::Unit,
            Outcome::Unit,
            Outcome::Unit,
            Outcome::State(ContainerState::Running),
            Outcome::Failed(EngineError::CommandFailed { command: "exec".into(), stderr: "bad".into() }),
        ],
    );
    assert_eq!(s.last().unwrap(), "exec taurigon-proxy nginx -s reload");
    assert_eq!(r, Err("Kommando fehlgeschlagen: exec\nbad".to_string()));
}

#[test]
fn remove_vhost_plan() {
    let e = DockerEngine::new(false);
    let w = WebManager::with_dirs(&e, "/p", "/c");
    let (s, r) = run(
        w.remove_vhost_steps("shop"),
        vec![Outcome::Unit, Outcome::State(ContainerState::NotFound)],
    );
    assert_eq!(s, vec!["rmfile /c/shop.conf", "status taurigon-proxy"]);
    assert_eq!(r, Ok(()));
    let (s, r) = run(
        w.remove_vhost_steps("shop"),
        vec![Outcome::Unit, Outcome::State(ContainerState::Running), Outcome::Failed(EngineError::Io("e".into()))],
    );
    assert_eq!(s.len(), 3);
    assert_eq!(r, Ok(()));
}

#[test]
fn default_web_dirs() {
    let e = DockerEngine::new(false);
    let w = WebManager::new(&e);
    assert!(w.projects_root().ends_with("taurigon/projects"));
    assert!(w.nginx_conf_dir().ends_with("nginx/conf.d"));
}
