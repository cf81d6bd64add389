//! The web layer: the nginx reverse proxy, the PHP-FPM containers and the
//! per-project virtual hosts.
//!
//! Starting the web environment: make sure the network exists, write the
//! virtual hosts of all projects, bring up the PHP-FPM containers of the
//! versions in use, note whether the proxy was running, bring up the proxy,
//! and have nginx reload its configuration if it was already running.
pub mod catalog;
pub mod vhost;

use vstd::prelude::*;

use crate::engine::plan::{plan_view, Instr, InstrView, Step, StepView};
use crate::engine::{ContainerEngine, ContainerSpec, ContainerSpecView, PortMapping, RestartPolicy, NETWORK_NAME};
use crate::paths::{app_path, default_nginx_conf_dir, default_projects_root, join_path, path_join};
use crate::projects::model::Project;
use crate::text::{chars_eq, chars_of, opt_view, owned, str_concat, str_eq, strings_view};
use catalog::{
    php_container, php_container_name, php_image, php_image_of, PHP_VERSIONS, PROXY_HTTP_PORT,
    PROXY_IMAGE, PROXY_NAME,
};
use vhost::{generate, php_version_used, vhost_config};

verus! {

/// The default server: it answers unknown domains with 404 instead of
/// falling back to the first project.
pub const DEFAULT_VHOST: &'static str = "server {
    listen 80 default_server;
    server_name _;
    return 404 \"Taurigon: Keine Website fuer diese Domain.\\n\";
    default_type text/plain;
}
";

/// The proxy's specification: nginx with the proxy port on 80, the
/// configuration directory mounted privately at `/etc/nginx/conf.d`, the
/// projects directory shared at `/var/www`, restart `unless-stopped`.
pub open spec fn proxy_spec_view(conf_dir: Seq<char>, projects_root: Seq<char>) -> ContainerSpecView {
    ContainerSpecView {
        name: PROXY_NAME@,
        image: PROXY_IMAGE@,
        ports: seq![PortMapping { host: PROXY_HTTP_PORT, container: 80 }],
        volumes: seq![(conf_dir, "/etc/nginx/conf.d"@, true, false), (projects_root, "/var/www"@, true, true)],
        env: Seq::empty(),
        restart: RestartPolicy::UnlessStopped,
        command: Seq::empty(),
        network: NETWORK_NAME@,
    }
}

/// A PHP-FPM container's specification: the version's container and image,
/// the projects directory shared at `/var/www`, OPcache revalidating on
/// every request (development), restart `unless-stopped`.
pub open spec fn php_spec_view(version: Seq<char>, projects_root: Seq<char>) -> ContainerSpecView {
    ContainerSpecView {
        name: php_container(version),
        image: php_image_of(version),
        ports: Seq::empty(),
        volumes: seq![(projects_root, "/var/www"@, true, true)],
        env: seq![("PHP_OPCACHE_VALIDATE_TIMESTAMPS"@, "1"@), ("PHP_OPCACHE_REVALIDATE_FREQ"@, "0"@)],
        restart: RestartPolicy::UnlessStopped,
        command: Seq::empty(),
        network: NETWORK_NAME@,
    }
}

/// The configuration file of a project: `<conf_dir>/<name>.conf`.
pub open spec fn vhost_path(conf_dir: Seq<char>, name: Seq<char>) -> Seq<char> {
    path_join(conf_dir, name + ".conf"@)
}

/// The configuration files of the projects, in their order.
pub open spec fn project_vhosts(conf_dir: Seq<char>, ps: Seq<Project>) -> Seq<(Seq<char>, Seq<char>)>
    decreases ps.len(),
{
    if ps.len() == 0 {
        Seq::empty()
    } else {
        let p = ps.last();
        project_vhosts(conf_dir, ps.drop_last()).push(
            (
                vhost_path(conf_dir, p.name@),
                vhost_config(p.name@, p.domain@, p.project_type@, opt_view(p.php_version)),
            ),
        )
    }
}

/// All configuration files to write: the default server first
/// (`00-default.conf`), then one per project.
pub open spec fn vhost_files_view(conf_dir: Seq<char>, ps: Seq<Project>) -> Seq<(Seq<char>, Seq<char>)> {
    seq![(path_join(conf_dir, "00-default.conf"@), DEFAULT_VHOST@)] + project_vhosts(conf_dir, ps)
}

/// The views of a list of (path, contents) pairs.
pub open spec fn files_view(v: Seq<(String, String)>) -> Seq<(Seq<char>, Seq<char>)> {
    Seq::new(v.len(), |i: int| (v[i].0@, v[i].1@))
}

/// The PHP versions the projects need: the version each `php` project is
/// served with (its own, or 8.3 when it names none; see
/// [`php_version_used`]), each once, in order of first appearance.
pub open spec fn php_versions(ps: Seq<Project>) -> Seq<Seq<char>>
    decreases ps.len(),
{
    if ps.len() == 0 {
        Seq::empty()
    } else {
        let prev = php_versions(ps.drop_last());
        let p = ps.last();
        let v = php_version_used(opt_view(p.php_version));
        if p.project_type@ == "php"@ && !prev.contains(v) {
            prev.push(v)
        } else {
            prev
        }
    }
}

/// The PHP versions needed by `projects` (see [`php_versions`]).
pub fn needed_php_versions(projects: &Vec<Project>) -> (r: Vec<String>)
    ensures
        strings_view(r@) == php_versions(projects@),
{
    let mut r: Vec<String> = Vec::new();
    let mut i: usize = 0;
    while i < projects.len()
        invariant
            i <= projects@.len(),
            strings_view(r@) == php_versions(projects@.take(i as int)),
        decreases projects@.len() - i,
    {
        let ghost before = strings_view(r@);
        assert(projects@.take(i + 1).drop_last() =~= projects@.take(i as int));
        assert(projects@.take(i + 1).last() == projects@[i as int]);
        let p = &projects[i];
        if str_eq(p.project_type.as_str(), "php") {
            let v: &str = match &p.php_version {
                Some(x) => x.as_str(),
                None => "8.3",
            };
            assert(v@ == php_version_used(opt_view(p.php_version)));
            let vc = chars_of(v);
            let mut found = false;
            let mut j: usize = 0;
            while j < r.len()
                invariant
                    j <= r@.len(),
                    vc@ == v@,
                    before == strings_view(r@),
                    found <==> exists|k: int| 0 <= k < j && before[k] == v@,
                decreases r@.len() - j,
            {
                assert(before[j as int] == r@[j as int]@);
                let rc = chars_of(r[j].as_str());
                if chars_eq(rc.as_slice(), vc.as_slice()) {
                    found = true;
                }
                j = j + 1;
            }
            if !found {
                r.push(owned(v));
                assert(strings_view(r@) =~= before.push(v@));
            }
        }
        i = i + 1;
    }
    assert(projects@.take(projects@.len() as int) =~= projects@);
    r
}

/// Manages the web infrastructure through a container engine: project files
/// below `projects_root`, generated configuration in `nginx_conf_dir`.
pub struct WebManager<'a, E: ContainerEngine> {
    engine: &'a E,
    projects_root: String,
    nginx_conf_dir: String,
}

impl<'a, E: ContainerEngine> WebManager<'a, E> {
    pub closed spec fn spec_engine(&self) -> &'a E {
        self.engine
    }

    pub closed spec fn spec_projects_root(&self) -> Seq<char> {
        self.projects_root@
    }

    pub closed spec fn spec_conf_dir(&self) -> Seq<char> {
        self.nginx_conf_dir@
    }

    /// A manager with the default directories below the user's data
    /// directory.
    pub fn new(engine: &'a E) -> (m: Self)
        ensures
            m.spec_engine() == engine,
            exists|d: Option<Seq<char>>| m.spec_projects_root() == app_path(d, seq!["projects"@], "./taurigon-data/projects"@),
            exists|d: Option<Seq<char>>| m.spec_conf_dir() == app_path(d, seq!["nginx"@, "conf.d"@], "./taurigon-data/nginx/conf.d"@),
    {
        WebManager {
            engine,
            projects_root: default_projects_root(),
            nginx_conf_dir: default_nginx_conf_dir(),
        }
    }

    /// A manager with the given directories.
    pub fn with_dirs(engine: &'a E, projects_root: &str, nginx_conf_dir: &str) -> (m: Self)
        ensures
            m.spec_engine() == engine,
            m.spec_projects_root() == projects_root@,
            m.spec_conf_dir() == nginx_conf_dir@,
    {
        WebManager { engine, projects_root: owned(projects_root), nginx_conf_dir: owned(nginx_conf_dir) }
    }

    /// The engine in use.
    pub fn engine(&self) -> (e: &'a E)
        ensures
            e == self.spec_engine(),
    {
        self.engine
    }

    /// The directory of the project files.
    pub fn projects_root(&self) -> (d: &str)
        ensures
            d@ == self.spec_projects_root(),
    {
        self.projects_root.as_str()
    }

    /// The directory of the generated configuration.
    pub fn nginx_conf_dir(&self) -> (d: &str)
        ensures
            d@ == self.spec_conf_dir(),
    {
        self.nginx_conf_dir.as_str()
    }

    /// The proxy's specification (see [`proxy_spec_view`]).
    pub fn proxy_spec(&self) -> (s: ContainerSpec)
        ensures
            s@ == proxy_spec_view(self.spec_conf_dir(), self.spec_projects_root()),
    {
        let s = ContainerSpec::new(PROXY_NAME, PROXY_IMAGE).with_port(PROXY_HTTP_PORT, 80).with_volume(
            self.nginx_conf_dir.as_str(),
            "/etc/nginx/conf.d",
            true,
        ).with_shared_volume(self.projects_root.as_str(), "/var/www").with_restart(
            RestartPolicy::UnlessStopped,
        );
        assert(s@.ports =~= seq![PortMapping { host: PROXY_HTTP_PORT, container: 80 }]);
        assert(s@.volumes =~= seq![(self.spec_conf_dir(), "/etc/nginx/conf.d"@, true, false), (self.spec_projects_root(), "/var/www"@, true, true)]);
        assert(s@.env =~= Seq::<(Seq<char>, Seq<char>)>::empty());
        assert(s@.command =~= Seq::<Seq<char>>::empty());
        s
    }

    /// The PHP-FPM specification of a version (see [`php_spec_view`]).
    pub fn php_spec(&self, version: &str) -> (s: ContainerSpec)
        ensures
            s@ == php_spec_view(version@, self.spec_projects_root()),
    {
        let name = php_container_name(version);
        let image = php_image(version);
        let s = ContainerSpec::new(name.as_str(), image.as_str()).with_shared_volume(
            self.projects_root.as_str(),
            "/var/www",
        ).with_env("PHP_OPCACHE_VALIDATE_TIMESTAMPS", "1").with_env("PHP_OPCACHE_REVALIDATE_FREQ", "0").with_restart(RestartPolicy::UnlessStopped);
        assert(s@.ports =~= Seq::<PortMapping>::empty());
        assert(s@.volumes =~= seq![(self.spec_projects_root(), "/var/www"@, true, true)]);
        assert(s@.env =~= seq![("PHP_OPCACHE_VALIDATE_TIMESTAMPS"@, "1"@), ("PHP_OPCACHE_REVALIDATE_FREQ"@, "0"@)]);
        assert(s@.command =~= Seq::<Seq<char>>::empty());
        s
    }

    /// The configuration file of a project.
    pub fn vhost_file(&self, name: &str) -> (p: String)
        ensures
            p@ == vhost_path(self.spec_conf_dir(), name@),
    {
        let f = str_concat(name, ".conf");
        join_path(self.nginx_conf_dir.as_str(), f.as_str())
    }

    /// The configuration files to write for `projects`, with their contents
    /// (see [`vhost_files_view`]); existing files are overwritten.
    pub fn vhost_files(&self, projects: &Vec<Project>) -> (r: Vec<(String, String)>)
        ensures
            files_view(r@) == vhost_files_view(self.spec_conf_dir(), projects@),
    {
        let mut r: Vec<(String, String)> = Vec::new();
        let default_file = join_path(self.nginx_conf_dir.as_str(), "00-default.conf");
        r.push((default_file, owned(DEFAULT_VHOST)));
        let ghost head = files_view(r@);
        assert(head =~= seq![(path_join(self.spec_conf_dir(), "00-default.conf"@), DEFAULT_VHOST@)]);
        let mut i: usize = 0;
        while i < projects.len()
            invariant
                i <= projects@.len(),
                head == seq![(path_join(self.spec_conf_dir(), "00-default.conf"@), DEFAULT_VHOST@)],
                files_view(r@) == head + project_vhosts(self.spec_conf_dir(), projects@.take(i as int)),
            decreases projects@.len() - i,
        {
            let ghost before = files_view(r@);
            assert(projects@.take(i + 1).drop_last() =~= projects@.take(i as int));
            assert(projects@.take(i + 1).last() == projects@[i as int]);
            let p = &projects[i];
            let version: Option<&str> = match &p.php_version {
                Some(v) => Some(v.as_str()),
                None => None,
            };
            let config = generate(p.name.as_str(), p.domain.as_str(), p.project_type.as_str(), version);
            let file = self.vhost_file(p.name.as_str());
            r.push((file, config));
            assert(files_view(r@) =~= before.push(
                (
                    vhost_path(self.spec_conf_dir(), p.name@),
                    vhost_config(p.name@, p.domain@, p.project_type@, opt_view(p.php_version)),
                ),
            ));
            i = i + 1;
        }
        assert(projects@.take(projects@.len() as int) =~= projects@);
        r
    }

    /// The plan that stops the web environment: the proxy, then the PHP-FPM
    /// container of every supported version, each only if it is running.
    pub fn stop_steps(&self) -> (p: Vec<Instr>)
        ensures
            plan_view(p@) == web_stop_plan(),
    {
        let mut p: Vec<Instr> = Vec::new();
        p.push(Instr::StopIfRunning(owned(PROXY_NAME)));
        p.push(Instr::StopIfRunning(php_container_name(PHP_VERSIONS[0])));
        p.push(Instr::StopIfRunning(php_container_name(PHP_VERSIONS[1])));
        p.push(Instr::StopIfRunning(php_container_name(PHP_VERSIONS[2])));
        assert(plan_view(p@) =~= web_stop_plan());
        p
    }

    /// Appends the steps that create both directories and write all
    /// configuration files for `projects`.
    fn push_config_steps(&self, p: &mut Vec<Instr>, projects: &Vec<Project>)
        ensures
            plan_view(final(p)@) == plan_view(old(p)@) + config_plan(self.spec_conf_dir(), self.spec_projects_root(), projects@),
    {
        let ghost start = plan_view(p@);
        p.push(Instr::Try(Step::CreateDir(owned(self.nginx_conf_dir.as_str()))));
        p.push(Instr::Try(Step::CreateDir(owned(self.projects_root.as_str()))));
        let files = self.vhost_files(projects);
        let ghost fv = files_view(files@);
        let ghost head = plan_view(p@);
        assert(head =~= start + seq![
            InstrView::Try(StepView::CreateDir(self.spec_conf_dir())),
            InstrView::Try(StepView::CreateDir(self.spec_projects_root())),
        ]);
        let mut i: usize = 0;
        while i < files.len()
            invariant
                i <= files@.len(),
                fv == files_view(files@),
                plan_view(p@) == head + write_plan(fv.take(i as int)),
            decreases files@.len() - i,
        {
            let ghost before = plan_view(p@);
            p.push(Instr::Try(Step::WriteFile(owned(files[i].0.as_str()), owned(files[i].1.as_str()))));
            assert(plan_view(p@) =~= before.push(InstrView::Try(StepView::WriteFile(fv[i as int].0, fv[i as int].1))));
            assert(fv.take(i + 1) =~= fv.take(i as int).push(fv[i as int]));
            assert(write_plan(fv.take(i + 1)) =~= write_plan(fv.take(i as int)).push(InstrView::Try(StepView::WriteFile(fv[i as int].0, fv[i as int].1))));
            i = i + 1;
        }
        assert(fv.take(fv.len() as int) =~= fv);
        assert(plan_view(p@) =~= plan_view(old(p)@) + config_plan(self.spec_conf_dir(), self.spec_projects_root(), projects@));
    }

    /// Appends the steps that bring up the PHP-FPM container of every
    /// version that `projects` need.
    fn push_php_steps(&self, p: &mut Vec<Instr>, projects: &Vec<Project>)
        ensures
            plan_view(final(p)@) == plan_view(old(p)@) + php_plan(php_versions(projects@), self.spec_projects_root()),
    {
        let versions = needed_php_versions(projects);
        let ghost vs = strings_view(versions@);
        let ghost head = plan_view(p@);
        let mut i: usize = 0;
        while i < versions.len()
            invariant
                i <= versions@.len(),
                vs == strings_view(versions@),
                vs == php_versions(projects@),
                plan_view(p@) == head + php_plan(vs.take(i as int), self.spec_projects_root()),
            decreases versions@.len() - i,
        {
            let ghost before = plan_view(p@);
            let spec = self.php_spec(versions[i].as_str());
            let ghost item = InstrView::EnsureUp(php_spec_view(vs[i as int], self.spec_projects_root()), None);
            p.push(Instr::EnsureUp(spec, None));
            assert(plan_view(p@) =~= before.push(item));
            assert(vs.take(i + 1) =~= vs.take(i as int).push(vs[i as int]));
            assert(php_plan(vs.take(i + 1), self.spec_projects_root()) =~= php_plan(vs.take(i as int), self.spec_projects_root()).push(item));
            i = i + 1;
        }
        assert(vs.take(vs.len() as int) =~= vs);
    }

    /// The plan that starts the web environment (see [`web_start_plan`]).
    pub fn start_steps(&self, projects: &Vec<Project>) -> (p: Vec<Instr>)
        ensures
            plan_view(p@) == web_start_plan(self.spec_conf_dir(), self.spec_projects_root(), projects@),
    {
        let mut p: Vec<Instr> = Vec::new();
        p.push(Instr::Call(Step::EnsureNetwork));
        assert(plan_view(p@) =~= seq![InstrView::Call(StepView::EnsureNetwork)]);
        self.push_config_steps(&mut p, projects);
        self.push_php_steps(&mut p, projects);
        let ghost mid = plan_view(p@);
        p.push(Instr::Probe(owned(PROXY_NAME)));
        p.push(Instr::EnsureUp(self.proxy_spec(), None));
        p.push(Instr::TryIfRunning(Step::Exec(owned(PROXY_NAME), reload_command())));
        assert(plan_view(p@) =~= mid + proxy_tail(self.spec_conf_dir(), self.spec_projects_root()));
        p
    }

    /// The plan that reloads the configuration (see [`web_reload_plan`]).
    pub fn reload_steps(&self, projects: &Vec<Project>) -> (p: Vec<Instr>)
        ensures
            plan_view(p@) == web_reload_plan(self.spec_conf_dir(), self.spec_projects_root(), projects@),
    {
        let mut p: Vec<Instr> = Vec::new();
        assert(plan_view(p@) =~= Seq::<InstrView>::empty());
        self.push_config_steps(&mut p, projects);
        p.push(Instr::Probe(owned(PROXY_NAME)));
        p.push(Instr::FinishUnlessRunning);
        let ghost mid = plan_view(p@);
        self.push_php_steps(&mut p, projects);
        let ghost mid2 = plan_view(p@);
        p.push(Instr::Call(Step::Exec(owned(PROXY_NAME), reload_command())));
        assert(plan_view(p@) =~= mid2.push(InstrView::Call(reload_step())));
        p
    }

    /// The plan that removes a project's configuration (see
    /// [`remove_vhost_plan`]).
    pub fn remove_vhost_steps(&self, name: &str) -> (p: Vec<Instr>)
        ensures
            plan_view(p@) == remove_vhost_plan(self.spec_conf_dir(), name@),
    {
        let mut p: Vec<Instr> = Vec::new();
        p.push(Instr::Try(Step::RemoveFile(self.vhost_file(name))));
        p.push(Instr::Probe(owned(PROXY_NAME)));
        p.push(Instr::TryIfRunning(Step::Exec(owned(PROXY_NAME), reload_command())));
        assert(plan_view(p@) =~= remove_vhost_plan(self.spec_conf_dir(), name@));
        p
    }
}

/// `nginx -s reload` inside the proxy.
pub open spec fn reload_step() -> StepView {
    StepView::Exec(PROXY_NAME@, seq!["nginx"@, "-s"@, "reload"@])
}

/// Writing each configuration file (best effort).
pub open spec fn write_plan(files: Seq<(Seq<char>, Seq<char>)>) -> Seq<InstrView> {
    Seq::new(files.len(), |i: int| InstrView::Try(StepView::WriteFile(files[i].0, files[i].1)))
}

/// Bringing up the PHP-FPM container of each version.
pub open spec fn php_plan(versions: Seq<Seq<char>>, projects_root: Seq<char>) -> Seq<InstrView> {
    Seq::new(versions.len(), |i: int| InstrView::EnsureUp(php_spec_view(versions[i], projects_root), None))
}

/// Creating both directories and writing every configuration file (all
/// best effort: failures are only logged).
pub open spec fn config_plan(conf_dir: Seq<char>, projects_root: Seq<char>, ps: Seq<Project>) -> Seq<InstrView> {
    seq![InstrView::Try(StepView::CreateDir(conf_dir)), InstrView::Try(StepView::CreateDir(projects_root))]
        + write_plan(vhost_files_view(conf_dir, ps))
}

/// Noting whether the proxy ran, bringing it up, and making nginx reload
/// when it had been running already (best effort).
pub open spec fn proxy_tail(conf_dir: Seq<char>, projects_root: Seq<char>) -> Seq<InstrView> {
    seq![
        InstrView::Probe(PROXY_NAME@),
        InstrView::EnsureUp(proxy_spec_view(conf_dir, projects_root), None),
        InstrView::TryIfRunning(reload_step()),
    ]
}

/// Starting the web environment: the network (failure ends it), the
/// configuration, the PHP-FPM containers needed, then the proxy, reloaded if
/// it was running before.
pub open spec fn web_start_plan(conf_dir: Seq<char>, projects_root: Seq<char>, ps: Seq<Project>) -> Seq<InstrView> {
    seq![InstrView::Call(StepView::EnsureNetwork)] + config_plan(conf_dir, projects_root, ps) + php_plan(
        php_versions(ps),
        projects_root,
    ) + proxy_tail(conf_dir, projects_root)
}

/// Reloading: the configuration is rewritten; only when the proxy runs are
/// the PHP-FPM containers brought up and nginx reloaded (a failing reload is
/// an error).
pub open spec fn web_reload_plan(conf_dir: Seq<char>, projects_root: Seq<char>, ps: Seq<Project>) -> Seq<InstrView> {
    config_plan(conf_dir, projects_root, ps) + seq![InstrView::Probe(PROXY_NAME@), InstrView::FinishUnlessRunning]
        + php_plan(php_versions(ps), projects_root) + seq![InstrView::Call(reload_step())]
}

/// Removing a project's configuration: delete its file (if present), and
/// make nginx reload if the proxy runs (best effort).
pub open spec fn remove_vhost_plan(conf_dir: Seq<char>, name: Seq<char>) -> Seq<InstrView> {
    seq![
        InstrView::Try(StepView::RemoveFile(vhost_path(conf_dir, name))),
        InstrView::Probe(PROXY_NAME@),
        InstrView::TryIfRunning(reload_step()),
    ]
}

/// Stopping the web environment: the proxy and each PHP-FPM container, if
/// running.
pub open spec fn web_stop_plan() -> Seq<InstrView> {
    seq![
        InstrView::StopIfRunning(PROXY_NAME@),
        InstrView::StopIfRunning(php_container(PHP_VERSIONS[0]@)),
        InstrView::StopIfRunning(php_container(PHP_VERSIONS[1]@)),
        InstrView::StopIfRunning(php_container(PHP_VERSIONS[2]@)),
    ]
}

/// The command that makes nginx reload its configuration.
pub fn reload_command() -> (c: Vec<String>)
    ensures
        strings_view(c@) == seq!["nginx"@, "-s"@, "reload"@],
{
    let mut c: Vec<String> = Vec::new();
    c.push(owned("nginx"));
    c.push(owned("-s"));
    c.push(owned("reload"));
    assert(strings_view(c@) =~= seq!["nginx"@, "-s"@, "reload"@]);
    c
}


/// The PHP versions needed are listed once each, and a version is listed
/// exactly when some `php` project is served with it (its own version, or
/// 8.3 when it names none): every PHP-FPM container that a project's
/// virtual host forwards to is among those brought up.
pub proof fn php_versions_exact(ps: Seq<Project>)
    ensures
        php_versions(ps).no_duplicates(),
        forall|v: Seq<char>|
            php_versions(ps).contains(v) <==> exists|i: int|
                0 <= i < ps.len() && (#[trigger] ps[i]).project_type@ == "php"@
                    && php_version_used(opt_view(ps[i].php_version)) == v,
    decreases ps.len(),
{
    if ps.len() > 0 {
        let init = ps.drop_last();
        php_versions_exact(init);
        let p = ps.last();
        assert forall|v: Seq<char>|
            php_versions(ps).contains(v) <==> exists|i: int|
                0 <= i < ps.len() && (#[trigger] ps[i]).project_type@ == "php"@
                    && php_version_used(opt_view(ps[i].php_version)) == v by {
            if php_versions(ps).contains(v) {
                if php_versions(init).contains(v) {
                    let i = choose|i: int|
                        0 <= i < init.len() && (#[trigger] init[i]).project_type@ == "php"@
                            && php_version_used(opt_view(init[i].php_version)) == v;
                    assert(ps[i] == init[i]);
                } else {
                    assert(ps[ps.len() - 1] == p);
                }
            }
            if exists|i: int|
                0 <= i < ps.len() && (#[trigger] ps[i]).project_type@ == "php"@
                    && php_version_used(opt_view(ps[i].php_version)) == v {
                let i = choose|i: int|
                    0 <= i < ps.len() && (#[trigger] ps[i]).project_type@ == "php"@
                        && php_version_used(opt_view(ps[i].php_version)) == v;
                if i < ps.len() - 1 {
                    assert(init[i] == ps[i]);
                    assert(php_versions(init).contains(v));
                } else {
                    assert(ps[i] == p);
                }
                if php_versions(init).contains(v) {
                    let k = choose|k: int| 0 <= k < php_versions(init).len() && php_versions(init)[k] == v;
                    assert(php_versions(ps)[k] == v);
                } else {
                    assert(php_versions(ps).last() == v);
                }
            }
        }
    }
}


/// Reloading brings up, once the proxy is found running, the PHP-FPM
/// container of every `php` project (of its version, or 8.3 when it names
/// none) before nginx reloads: the plan probes the proxy and stops unless it
/// runs at `f`, ends with the reload at `e`, and brings each such container
/// up between the two.
pub proof fn reload_brings_up_php_before_reloading(conf_dir: Seq<char>, projects_root: Seq<char>, ps: Seq<Project>)
    ensures
        ({
            let plan = web_reload_plan(conf_dir, projects_root, ps);
            exists|f: int, e: int|
                #![trigger plan[f], plan[e]]
                {
                    &&& 1 <= f < e
                    &&& e == plan.len() - 1
                    &&& plan[f - 1] == InstrView::Probe(PROXY_NAME@)
                    &&& plan[f] == InstrView::FinishUnlessRunning
                    &&& plan[e] == InstrView::Call(StepView::Exec(PROXY_NAME@, seq!["nginx"@, "-s"@, "reload"@]))
                    &&& forall|i: int|
                        #![trigger ps[i]]
                        0 <= i < ps.len() && ps[i].project_type@ == "php"@ ==> exists|k: int|
                            #![trigger plan[k]]
                            f < k < e && plan[k] == InstrView::EnsureUp(
                                php_spec_view(php_version_used(opt_view(ps[i].php_version)), projects_root),
                                None,
                            )
                }
        }),
{
    let plan = web_reload_plan(conf_dir, projects_root, ps);
    let cfg = config_plan(conf_dir, projects_root, ps);
    let vs = php_versions(ps);
    let php = php_plan(vs, projects_root);
    let f: int = cfg.len() as int + 1;
    let e: int = plan.len() - 1;
    assert(plan.len() == cfg.len() + 2 + php.len() + 1);
    assert(plan[f - 1] == InstrView::Probe(PROXY_NAME@));
    assert(plan[f] == InstrView::FinishUnlessRunning);
    assert(plan[e] == InstrView::Call(reload_step()));
    php_versions_exact(ps);
    assert forall|i: int|
        #![trigger ps[i]]
        0 <= i < ps.len() && ps[i].project_type@ == "php"@ implies exists|k: int|
            #![trigger plan[k]]
            f < k < e && plan[k] == InstrView::EnsureUp(
                php_spec_view(php_version_used(opt_view(ps[i].php_version)), projects_root),
                None,
            ) by {
        let v = php_version_used(opt_view(ps[i].php_version));
        assert(vs.contains(v));
        let j = choose|j: int| 0 <= j < vs.len() && vs[j] == v;
        let k = f + 1 + j;
        assert(plan[k] == php[j]);
    }
}


/// Starting the web environment first makes sure of the network, then
/// brings up the PHP-FPM container of every `php` project (of its version,
/// or 8.3 when it names none) before the proxy that forwards to them is
/// probed and brought up at `q`.
pub proof fn start_brings_up_php_before_proxy(conf_dir: Seq<char>, projects_root: Seq<char>, ps: Seq<Project>)
    ensures
        ({
            let plan = web_start_plan(conf_dir, projects_root, ps);
            &&& plan[0] == InstrView::Call(StepView::EnsureNetwork)
            &&& exists|q: int|
                #![trigger plan[q]]
                {
                    &&& 1 <= q
                    &&& q + 1 < plan.len()
                    &&& plan[q] == InstrView::Probe(PROXY_NAME@)
                    &&& plan[q + 1] == InstrView::EnsureUp(proxy_spec_view(conf_dir, projects_root), None)
                    &&& forall|i: int|
                        #![trigger ps[i]]
                        0 <= i < ps.len() && ps[i].project_type@ == "php"@ ==> exists|k: int|
                            #![trigger plan[k]]
                            0 < k < q && plan[k] == InstrView::EnsureUp(
                                php_spec_view(php_version_used(opt_view(ps[i].php_version)), projects_root),
                                None,
                            )
                }
        }),
{
    let plan = web_start_plan(conf_dir, projects_root, ps);
    let cfg = config_plan(conf_dir, projects_root, ps);
    let vs = php_versions(ps);
    let php = php_plan(vs, projects_root);
    let start: int = 1 + cfg.len() as int;
    let q: int = start + php.len() as int;
    assert(plan.len() == q + 3);
    assert(plan[0] == InstrView::Call(StepView::EnsureNetwork));
    assert(plan[q] == InstrView::Probe(PROXY_NAME@));
    assert(plan[q + 1] == InstrView::EnsureUp(proxy_spec_view(conf_dir, projects_root), None));
    php_versions_exact(ps);
    assert forall|i: int|
        #![trigger ps[i]]
        0 <= i < ps.len() && ps[i].project_type@ == "php"@ implies exists|k: int|
            #![trigger plan[k]]
            0 < k < q && plan[k] == InstrView::EnsureUp(
                php_spec_view(php_version_used(opt_view(ps[i].php_version)), projects_root),
                None,
            ) by {
        let v = php_version_used(opt_view(ps[i].php_version));
        assert(vs.contains(v));
        let j = choose|j: int| 0 <= j < vs.len() && vs[j] == v;
        let k = start + j;
        assert(plan[k] == php[j]);
    }
}

} // verus!
