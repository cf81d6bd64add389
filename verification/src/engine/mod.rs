//! Container-engine abstraction.
//!
//! Podman and Docker share nearly the same command line; the argument lists
//! for every operation are built here, parametrised only by the binary's name,
//! and the raw outcome of running a command is interpreted here too. Running
//! the process is left to the caller.
pub mod docker;
pub mod plan;
pub mod podman;

use vstd::prelude::*;

use crate::system::inspector::{ContainerEngineKind, SystemInfo};
use crate::text::{
    chars_of, str_concat, decimal, join, join_strings, owned, rows, split_char, split_chars, str_eq,
    string_of, strings_view, trim, trim_chars, trim_str, u64_to_string,
};

verus! {

/// Name of the shared container network.
pub const NETWORK_NAME: &'static str = "taurigon-net";

/// Label with which the managed containers are marked.
pub const MANAGED_LABEL: &'static str = "taurigon=true";

// ============================================================================
//  Errors
// ============================================================================

/// Errors of engine operations.
#[derive(Debug)]
pub enum EngineError {
    /// The engine binary was not found in `PATH`.
    BinaryNotFound(String),
    /// No engine is available at all.
    NoEngineAvailable,
    /// A command ran but exited unsuccessfully.
    CommandFailed { command: String, stderr: String },
    /// Any other failure (process I/O, invalid input).
    Io(String),
}

/// Result type of engine operations.
pub type EngineResult<T> = Result<T, EngineError>;

/// The user-facing text of an error.
pub open spec fn error_message(e: EngineError) -> Seq<char> {
    match e {
        EngineError::BinaryNotFound(b) => "Container-Engine '"@ + b@ + "' nicht gefunden (ist sie installiert?)"@,
        EngineError::NoEngineAvailable => "Keine Container-Engine verfügbar"@,
        EngineError::CommandFailed { command, stderr } => "Kommando fehlgeschlagen: "@ + command@ + "\n"@ + stderr@,
        EngineError::Io(m) => "I/O-Fehler: "@ + m@,
    }
}

impl EngineError {
    /// The user-facing text of this error.
    pub fn to_string(&self) -> (m: String)
        ensures
            m@ == error_message(*self),
    {
        match self {
            EngineError::BinaryNotFound(b) => {
                let m = str_concat("Container-Engine '", b.as_str());
                str_concat(m.as_str(), "' nicht gefunden (ist sie installiert?)")
            },
            EngineError::NoEngineAvailable => owned("Keine Container-Engine verfügbar"),
            EngineError::CommandFailed { command, stderr } => {
                let m = str_concat("Kommando fehlgeschlagen: ", command.as_str());
                let m = str_concat(m.as_str(), "\n");
                str_concat(m.as_str(), stderr.as_str())
            },
            EngineError::Io(msg) => str_concat("I/O-Fehler: ", msg.as_str()),
        }
    }
}

// ============================================================================
//  Container specification
// ============================================================================

/// A port mapping host → container.
#[derive(Debug, Clone, Copy, PartialEq, Eq, Structural)]
pub struct PortMapping {
    pub host: u16,
    pub container: u16,
}

/// A volume mount host path → container path.
#[derive(Debug, Clone)]
pub struct VolumeMount {
    pub source: String,
    pub target: String,
    /// Whether the mount is relabelled when SELinux is enforcing.
    pub selinux_relabel: bool,
    /// Whether several containers share it (`:z`) or only this one (`:Z`).
    pub shared: bool,
}

/// Restart behaviour of a container.
#[derive(Debug, Clone, Copy, PartialEq, Eq, Structural)]
pub enum RestartPolicy {
    No,
    Always,
    UnlessStopped,
    OnFailure,
}

/// The command-line word of a restart policy.
pub open spec fn restart_word(p: RestartPolicy) -> Seq<char> {
    match p {
        RestartPolicy::No => "no"@,
        RestartPolicy::Always => "always"@,
        RestartPolicy::UnlessStopped => "unless-stopped"@,
        RestartPolicy::OnFailure => "on-failure"@,
    }
}

impl RestartPolicy {
    /// The command-line word of this policy.
    pub fn as_arg(&self) -> (s: &'static str)
        ensures
            s@ == restart_word(*self),
    {
        match self {
            RestartPolicy::No => "no",
            RestartPolicy::Always => "always",
            RestartPolicy::UnlessStopped => "unless-stopped",
            RestartPolicy::OnFailure => "on-failure",
        }
    }
}

/// Everything needed to start a container.
#[derive(Debug, Clone)]
pub struct ContainerSpec {
    pub name: String,
    pub image: String,
    pub ports: Vec<PortMapping>,
    pub volumes: Vec<VolumeMount>,
    pub env: Vec<(String, String)>,
    pub restart: RestartPolicy,
    /// Command override; empty means the image's default.
    pub command: Vec<String>,
    pub network: String,
}

/// The views of a volume list: (source, target, relabel, shared).
pub open spec fn volumes_view(v: Seq<VolumeMount>) -> Seq<(Seq<char>, Seq<char>, bool, bool)> {
    Seq::new(v.len(), |i: int| (v[i].source@, v[i].target@, v[i].selinux_relabel, v[i].shared))
}

/// The views of an environment list.
pub open spec fn env_view(v: Seq<(String, String)>) -> Seq<(Seq<char>, Seq<char>)> {
    Seq::new(v.len(), |i: int| (v[i].0@, v[i].1@))
}

/// The mathematical content of a [`ContainerSpec`].
pub struct ContainerSpecView {
    pub name: Seq<char>,
    pub image: Seq<char>,
    pub ports: Seq<PortMapping>,
    pub volumes: Seq<(Seq<char>, Seq<char>, bool, bool)>,
    pub env: Seq<(Seq<char>, Seq<char>)>,
    pub restart: RestartPolicy,
    pub command: Seq<Seq<char>>,
    pub network: Seq<char>,
}

impl View for ContainerSpec {
    type V = ContainerSpecView;

    open spec fn view(&self) -> ContainerSpecView {
        ContainerSpecView {
            name: self.name@,
            image: self.image@,
            ports: self.ports@,
            volumes: volumes_view(self.volumes@),
            env: env_view(self.env@),
            restart: self.restart,
            command: strings_view(self.command@),
            network: self.network@,
        }
    }
}

impl ContainerSpec {
    /// A specification with the defaults: no ports, volumes, environment or
    /// command override, restart `unless-stopped`, the shared network.
    pub fn new(name: &str, image: &str) -> (s: Self)
        ensures
            s.name@ == name@,
            s.image@ == image@,
            s.ports@ == Seq::<PortMapping>::empty(),
            s.volumes@ == Seq::<VolumeMount>::empty(),
            s.env@ == Seq::<(String, String)>::empty(),
            s.restart == RestartPolicy::UnlessStopped,
            s.command@ == Seq::<String>::empty(),
            s.network@ == NETWORK_NAME@,
    {
        ContainerSpec {
            name: owned(name),
            image: owned(image),
            ports: Vec::new(),
            volumes: Vec::new(),
            env: Vec::new(),
            restart: RestartPolicy::UnlessStopped,
            command: Vec::new(),
            network: owned(NETWORK_NAME),
        }
    }

    /// Adds a port mapping.
    pub fn with_port(self, host: u16, container: u16) -> (s: Self)
        ensures
            s.ports@ == self.ports@.push(PortMapping { host, container }),
            s.name == self.name,
            s.image == self.image,
            s.volumes == self.volumes,
            s.env == self.env,
            s.restart == self.restart,
            s.command == self.command,
            s.network == self.network,
    {
        let mut s = self;
        s.ports.push(PortMapping { host, container });
        s
    }

    /// Adds a private volume mount (`:Z` under enforcing SELinux when
    /// `selinux_relabel` is set).
    pub fn with_volume(self, source: &str, target: &str, selinux_relabel: bool) -> (s: Self)
        ensures
            volumes_view(s.volumes@) == volumes_view(self.volumes@).push(
                (source@, target@, selinux_relabel, false),
            ),
            s.name == self.name,
            s.image == self.image,
            s.ports == self.ports,
            s.env == self.env,
            s.restart == self.restart,
            s.command == self.command,
            s.network == self.network,
    {
        let mut s = self;
        let ghost before = volumes_view(s.volumes@);
        s.volumes.push(
            VolumeMount {
                source: owned(source),
                target: owned(target),
                selinux_relabel,
                shared: false,
            },
        );
        assert(volumes_view(s.volumes@) =~= before.push((source@, target@, selinux_relabel, false)));
        s
    }

    /// Adds a shared volume mount (`:z` under enforcing SELinux).
    pub fn with_shared_volume(self, source: &str, target: &str) -> (s: Self)
        ensures
            volumes_view(s.volumes@) == volumes_view(self.volumes@).push(
                (source@, target@, true, true),
            ),
            s.name == self.name,
            s.image == self.image,
            s.ports == self.ports,
            s.env == self.env,
            s.restart == self.restart,
            s.command == self.command,
            s.network == self.network,
    {
        let mut s = self;
        let ghost before = volumes_view(s.volumes@);
        s.volumes.push(
            VolumeMount { source: owned(source), target: owned(target), selinux_relabel: true, shared: true },
        );
        assert(volumes_view(s.volumes@) =~= before.push((source@, target@, true, true)));
        s
    }

    /// Adds an environment variable.
    pub fn with_env(self, key: &str, value: &str) -> (s: Self)
        ensures
            env_view(s.env@) == env_view(self.env@).push((key@, value@)),
            s.name == self.name,
            s.image == self.image,
            s.ports == self.ports,
            s.volumes == self.volumes,
            s.restart == self.restart,
            s.command == self.command,
            s.network == self.network,
    {
        let mut s = self;
        let ghost before = env_view(s.env@);
        s.env.push((owned(key), owned(value)));
        assert(env_view(s.env@) =~= before.push((key@, value@)));
        s
    }

    /// Sets the restart policy.
    pub fn with_restart(self, policy: RestartPolicy) -> (s: Self)
        ensures
            s.restart == policy,
            s.name == self.name,
            s.image == self.image,
            s.ports == self.ports,
            s.volumes == self.volumes,
            s.env == self.env,
            s.command == self.command,
            s.network == self.network,
    {
        let mut s = self;
        s.restart = policy;
        s
    }

    /// Replaces the start command.
    pub fn with_command(self, command: Vec<String>) -> (s: Self)
        ensures
            s.command == command,
            s.name == self.name,
            s.image == self.image,
            s.ports == self.ports,
            s.volumes == self.volumes,
            s.env == self.env,
            s.restart == self.restart,
            s.network == self.network,
    {
        let mut s = self;
        s.command = command;
        s
    }
}

/// A copy of a string list.
pub fn copy_strings(v: &Vec<String>) -> (r: Vec<String>)
    ensures
        strings_view(r@) == strings_view(v@),
{
    let mut r: Vec<String> = Vec::new();
    let mut i: usize = 0;
    while i < v.len()
        invariant
            i <= v@.len(),
            strings_view(r@) == strings_view(v@).take(i as int),
        decreases v@.len() - i,
    {
        let ghost before = strings_view(r@);
        let x = owned(v[i].as_str());
        r.push(x);
        assert(strings_view(r@) =~= before.push(v@[i as int]@));
        assert(strings_view(v@).take(i + 1) =~= strings_view(v@).take(i as int).push(v@[i as int]@));
        i = i + 1;
    }
    assert(strings_view(v@).take(v@.len() as int) =~= strings_view(v@));
    r
}

/// A copy of a specification.
pub fn copy_spec(s: &ContainerSpec) -> (r: ContainerSpec)
    ensures
        r@ == s@,
{
    let mut ports: Vec<PortMapping> = Vec::new();
    let mut i: usize = 0;
    while i < s.ports.len()
        invariant
            i <= s.ports@.len(),
            ports@ == s.ports@.take(i as int),
        decreases s.ports@.len() - i,
    {
        ports.push(s.ports[i]);
        i = i + 1;
        assert(ports@ =~= s.ports@.take(i as int));
    }
    assert(s.ports@.take(s.ports@.len() as int) =~= s.ports@);
    let mut volumes: Vec<VolumeMount> = Vec::new();
    let mut j: usize = 0;
    while j < s.volumes.len()
        invariant
            j <= s.volumes@.len(),
            volumes_view(volumes@) == volumes_view(s.volumes@).take(j as int),
        decreases s.volumes@.len() - j,
    {
        let v = &s.volumes[j];
        let ghost before = volumes_view(volumes@);
        let ghost item = (v.source@, v.target@, v.selinux_relabel, v.shared);
        volumes.push(
            VolumeMount {
                source: owned(v.source.as_str()),
                target: owned(v.target.as_str()),
                selinux_relabel: v.selinux_relabel,
                shared: v.shared,
            },
        );
        assert(volumes_view(volumes@) =~= before.push(item));
        assert(volumes_view(s.volumes@).take(j + 1) =~= volumes_view(s.volumes@).take(j as int).push(item));
        j = j + 1;
    }
    assert(volumes_view(s.volumes@).take(s.volumes@.len() as int) =~= volumes_view(s.volumes@));
    let mut env: Vec<(String, String)> = Vec::new();
    let mut k: usize = 0;
    while k < s.env.len()
        invariant
            k <= s.env@.len(),
            env_view(env@) == env_view(s.env@).take(k as int),
        decreases s.env@.len() - k,
    {
        let ghost before = env_view(env@);
        let ghost item = (s.env@[k as int].0@, s.env@[k as int].1@);
        env.push((owned(s.env[k].0.as_str()), owned(s.env[k].1.as_str())));
        assert(env_view(env@) =~= before.push(item));
        assert(env_view(s.env@).take(k + 1) =~= env_view(s.env@).take(k as int).push(item));
        k = k + 1;
    }
    assert(env_view(s.env@).take(s.env@.len() as int) =~= env_view(s.env@));
    ContainerSpec {
        name: owned(s.name.as_str()),
        image: owned(s.image.as_str()),
        ports,
        volumes,
        env,
        restart: s.restart,
        command: copy_strings(&s.command),
        network: owned(s.network.as_str()),
    }
}

// ============================================================================
//  Container status
// ============================================================================

/// The runtime state of a container.
#[derive(Debug, Clone, Copy, PartialEq, Eq, Structural)]
pub enum ContainerState {
    Running,
    Stopped,
    NotFound,
}

/// A container's name and state.
#[derive(Debug, Clone)]
pub struct ContainerStatus {
    pub name: String,
    pub state: ContainerState,
}

// ============================================================================
//  The engine interface
// ============================================================================

/// The binary of an engine kind.
pub open spec fn binary_of(kind: ContainerEngineKind) -> Seq<char> {
    match kind {
        ContainerEngineKind::Podman => "podman"@,
        ContainerEngineKind::Docker => "docker"@,
    }
}

/// What every engine offers: its kind, the binary that drives it, and whether
/// volume mounts are relabelled for SELinux.
pub trait ContainerEngine {
    spec fn engine_kind(&self) -> ContainerEngineKind;

    spec fn relabels(&self) -> bool;

    /// Which engine this is.
    fn kind(&self) -> (k: ContainerEngineKind)
        ensures
            k == self.engine_kind(),
    ;

    /// The name of the binary in `PATH`.
    fn binary(&self) -> (b: &'static str)
        ensures
            b@ == binary_of(self.engine_kind()),
    ;

    /// Whether SELinux is enforcing (controls the relabel suffixes).
    fn selinux_enforcing(&self) -> (b: bool)
        ensures
            b == self.relabels(),
    ;
}

/// Either of the two engines, as chosen by [`create_engine`].
pub enum SelectedEngine {
    Podman(podman::PodmanEngine),
    Docker(docker::DockerEngine),
}

impl ContainerEngine for SelectedEngine {
    open spec fn engine_kind(&self) -> ContainerEngineKind {
        match self {
            SelectedEngine::Podman(e) => e.engine_kind(),
            SelectedEngine::Docker(e) => e.engine_kind(),
        }
    }

    open spec fn relabels(&self) -> bool {
        match self {
            SelectedEngine::Podman(e) => e.relabels(),
            SelectedEngine::Docker(e) => e.relabels(),
        }
    }

    fn kind(&self) -> (k: ContainerEngineKind) {
        match self {
            SelectedEngine::Podman(e) => e.kind(),
            SelectedEngine::Docker(e) => e.kind(),
        }
    }

    fn binary(&self) -> (b: &'static str) {
        match self {
            SelectedEngine::Podman(e) => e.binary(),
            SelectedEngine::Docker(e) => e.binary(),
        }
    }

    fn selinux_enforcing(&self) -> (b: bool) {
        match self {
            SelectedEngine::Podman(e) => e.selinux_enforcing(),
            SelectedEngine::Docker(e) => e.selinux_enforcing(),
        }
    }
}

/// Chooses the engine that the system inspection found, with its SELinux
/// setting; fails with `NoEngineAvailable` when none was found.
pub fn create_engine(info: &SystemInfo) -> (r: EngineResult<SelectedEngine>)
    ensures
        info.engine is None <==> r matches Err(EngineError::NoEngineAvailable),
        info.engine is Some <==> r is Ok,
        r matches Ok(e) ==> e.engine_kind() == info.engine->0.kind && e.relabels()
            == info.selinux_enforcing,
{
    match &info.engine {
        Some(detected) => match detected.kind {
            ContainerEngineKind::Podman => Ok(
                SelectedEngine::Podman(podman::PodmanEngine::new(info.selinux_enforcing)),
            ),
            ContainerEngineKind::Docker => Ok(
                SelectedEngine::Docker(docker::DockerEngine::new(info.selinux_enforcing)),
            ),
        },
        None => Err(EngineError::NoEngineAvailable),
    }
}

// ============================================================================
//  Running a command: interpreting the outcome
// ============================================================================

/// What happened when a command was run.
pub enum CliOutcome {
    /// The process could not be started; `not_found` when the binary is
    /// missing, `message` the system's description otherwise.
    SpawnFailed { not_found: bool, message: String },
    /// The process ran; its exit status and its output decoded as text.
    Exited { success: bool, stdout: String, stderr: String },
}

/// The command line as shown in error messages: the binary, a space, and the
/// arguments joined by spaces.
pub open spec fn command_line(binary: Seq<char>, args: Seq<Seq<char>>) -> Seq<char> {
    binary + " "@ + join(args, " "@)
}

/// Whether `r` is the result of a command run as `binary args` with the
/// given outcome: stdout on success; `BinaryNotFound` when the binary is
/// missing; `Io` with the system's message for other start failures;
/// `CommandFailed` with the command line and the trimmed stderr on an
/// unsuccessful exit.
pub open spec fn is_cli_result(
    binary: Seq<char>,
    args: Seq<Seq<char>>,
    outcome: CliOutcome,
    r: EngineResult<String>,
) -> bool {
    match outcome {
        CliOutcome::SpawnFailed { not_found, message } => if not_found {
            r matches Err(EngineError::BinaryNotFound(b)) && b@ == binary
        } else {
            r matches Err(EngineError::Io(m)) && m@ == message@
        },
        CliOutcome::Exited { success, stdout, stderr } => if success {
            r matches Ok(o) && o@ == stdout@
        } else {
            r matches Err(EngineError::CommandFailed { command, stderr: e }) && command@
                == command_line(binary, args) && e@ == trim(stderr@)
        },
    }
}

/// Interprets the outcome of running `binary` with `args`.
pub fn cli_result(binary: &str, args: &Vec<String>, outcome: CliOutcome) -> (r: EngineResult<String>)
    ensures
        is_cli_result(binary@, args.deep_view(), outcome, r),
{
    match outcome {
        CliOutcome::SpawnFailed { not_found, message } => {
            if not_found {
                Err(EngineError::BinaryNotFound(owned(binary)))
            } else {
                Err(EngineError::Io(message))
            }
        },
        CliOutcome::Exited { success, stdout, stderr } => {
            if success {
                Ok(stdout)
            } else {
                let joined = join_strings(args, " ");
                let head = str_concat(binary, " ");
                let command = str_concat(head.as_str(), joined.as_str());
                let stderr = trim_str(stderr.as_str());
                Err(EngineError::CommandFailed { command, stderr })
            }
        },
    }
}

/// `v` with `s` appended.
fn push_str(v: &mut Vec<String>, s: &str)
    ensures
        final(v).deep_view() == old(v).deep_view().push(s@),
{
    let ghost before = v.deep_view();
    v.push(owned(s));
    assert(v.deep_view() =~= before.push(s@));
}

/// `v` with the owned string `s` appended.
fn push_string(v: &mut Vec<String>, s: String)
    ensures
        final(v).deep_view() == old(v).deep_view().push(s@),
{
    let ghost before = v.deep_view();
    let ghost sv = s@;
    v.push(s);
    assert(v.deep_view() =~= before.push(sv));
}

// ============================================================================
//  Argument lists
// ============================================================================

/// Arguments that check whether the shared network exists.
pub open spec fn network_inspect_args() -> Seq<Seq<char>> {
    seq!["network"@, "inspect"@, NETWORK_NAME@]
}

/// Arguments that create the shared network.
pub open spec fn network_create_args() -> Seq<Seq<char>> {
    seq!["network"@, "create"@, NETWORK_NAME@]
}

/// `network inspect taurigon-net`: succeeds exactly when the network exists
/// (with Podman and with Docker).
pub fn network_inspect_command() -> (a: Vec<String>)
    ensures
        a.deep_view() == network_inspect_args(),
{
    let mut a = Vec::new();
    push_str(&mut a, "network");
    push_str(&mut a, "inspect");
    push_str(&mut a, NETWORK_NAME);
    assert(a.deep_view() =~= network_inspect_args());
    a
}

/// `network create taurigon-net`.
pub fn network_create_command() -> (a: Vec<String>)
    ensures
        a.deep_view() == network_create_args(),
{
    let mut a = Vec::new();
    push_str(&mut a, "network");
    push_str(&mut a, "create");
    push_str(&mut a, NETWORK_NAME);
    assert(a.deep_view() =~= network_create_args());
    a
}

/// After `network inspect`: the network is created only when the inspection
/// failed; otherwise there is nothing left to do.
pub fn ensure_network_next(inspect_succeeded: bool) -> (next: Option<Vec<String>>)
    ensures
        inspect_succeeded <==> next is None,
        next matches Some(a) ==> a.deep_view() == network_create_args(),
{
    if inspect_succeeded {
        None
    } else {
        Some(network_create_command())
    }
}

/// A verb applied to a container: `start NAME`, `stop NAME`, `restart NAME`.
pub fn verb_command(verb: &str, name: &str) -> (a: Vec<String>)
    ensures
        a.deep_view() == seq![verb@, name@],
{
    let mut a = Vec::new();
    push_str(&mut a, verb);
    push_str(&mut a, name);
    assert(a.deep_view() =~= seq![verb@, name@]);
    a
}

/// Arguments that remove a container, forcibly when `force` is set.
pub open spec fn remove_args(name: Seq<char>, force: bool) -> Seq<Seq<char>> {
    if force {
        seq!["rm"@, "-f"@, name]
    } else {
        seq!["rm"@, name]
    }
}

/// `rm [-f] NAME`.
pub fn remove_command(name: &str, force: bool) -> (a: Vec<String>)
    ensures
        a.deep_view() == remove_args(name@, force),
{
    let mut a = Vec::new();
    push_str(&mut a, "rm");
    if force {
        push_str(&mut a, "-f");
    }
    push_str(&mut a, name);
    assert(a.deep_view() =~= remove_args(name@, force));
    a
}

/// Arguments that ask for a container's state.
pub open spec fn inspect_state_args(name: Seq<char>) -> Seq<Seq<char>> {
    seq!["inspect"@, "--format"@, "{{.State.Status}}"@, name]
}

/// `inspect --format {{.State.Status}} NAME`.
pub fn inspect_state_command(name: &str) -> (a: Vec<String>)
    ensures
        a.deep_view() == inspect_state_args(name@),
{
    let mut a = Vec::new();
    push_str(&mut a, "inspect");
    push_str(&mut a, "--format");
    push_str(&mut a, "{{.State.Status}}");
    push_str(&mut a, name);
    assert(a.deep_view() =~= inspect_state_args(name@));
    a
}

/// Arguments that list the managed containers as `name<TAB>state` lines.
pub open spec fn list_args() -> Seq<Seq<char>> {
    seq!["ps"@, "-a"@, "--filter"@, "label="@ + MANAGED_LABEL@, "--format"@, "{{.Names}}\t{{.State}}"@]
}

/// `ps -a --filter label=taurigon=true --format {{.Names}}\t{{.State}}`.
pub fn list_command() -> (a: Vec<String>)
    ensures
        a.deep_view() == list_args(),
{
    let mut a = Vec::new();
    push_str(&mut a, "ps");
    push_str(&mut a, "-a");
    push_str(&mut a, "--filter");
    push_string(&mut a, str_concat("label=", MANAGED_LABEL));
    push_str(&mut a, "--format");
    push_str(&mut a, "{{.Names}}\t{{.State}}");
    assert(a.deep_view() =~= list_args());
    a
}

/// `image inspect IMAGE`: succeeds exactly when the image is present.
pub fn image_inspect_command(image: &str) -> (a: Vec<String>)
    ensures
        a.deep_view() == seq!["image"@, "inspect"@, image@],
{
    let mut a = Vec::new();
    push_str(&mut a, "image");
    push_str(&mut a, "inspect");
    push_str(&mut a, image);
    assert(a.deep_view() =~= seq!["image"@, "inspect"@, image@]);
    a
}

/// `pull IMAGE`.
pub fn pull_command(image: &str) -> (a: Vec<String>)
    ensures
        a.deep_view() == seq!["pull"@, image@],
{
    verb_command("pull", image)
}

/// `exec NAME CMD...`: runs a command inside a running container.
pub fn exec_command(name: &str, cmd: &Vec<String>) -> (a: Vec<String>)
    ensures
        a.deep_view() == seq!["exec"@, name@] + cmd.deep_view(),
{
    let mut a = Vec::new();
    push_str(&mut a, "exec");
    push_str(&mut a, name);
    let mut i: usize = 0;
    while i < cmd.len()
        invariant
            i <= cmd@.len(),
            a.deep_view() == seq!["exec"@, name@] + cmd.deep_view().take(i as int),
        decreases cmd@.len() - i,
    {
        push_str(&mut a, cmd[i].as_str());
        i = i + 1;
        assert(a.deep_view() =~= seq!["exec"@, name@] + cmd.deep_view().take(i as int));
    }
    assert(cmd.deep_view().take(cmd@.len() as int) =~= cmd.deep_view());
    a
}

// ============================================================================
//  `run -d ...`
// ============================================================================

/// `HOST:CONTAINER` in decimal.
pub open spec fn port_arg(p: PortMapping) -> Seq<char> {
    decimal(p.host as nat) + ":"@ + decimal(p.container as nat)
}

/// The relabel suffix of a mount: `:z` (shared) or `:Z` (private) when
/// SELinux is enforcing and the mount asks for relabelling, else nothing.
pub open spec fn volume_suffix(relabel: bool, shared: bool, selinux_enforcing: bool) -> Seq<char> {
    if selinux_enforcing && relabel {
        if shared {
            ":z"@
        } else {
            ":Z"@
        }
    } else {
        ""@
    }
}

/// `SOURCE:TARGET` followed by the relabel suffix.
pub open spec fn volume_arg(v: (Seq<char>, Seq<char>, bool, bool), selinux_enforcing: bool) -> Seq<char> {
    v.0 + ":"@ + v.1 + volume_suffix(v.2, v.3, selinux_enforcing)
}

/// `-p HOST:CONTAINER` for each mapping.
pub open spec fn port_args(ps: Seq<PortMapping>) -> Seq<Seq<char>>
    decreases ps.len(),
{
    if ps.len() == 0 {
        Seq::empty()
    } else {
        port_args(ps.drop_last()) + seq!["-p"@, port_arg(ps.last())]
    }
}

/// `-v SOURCE:TARGET[SUFFIX]` for each mount.
pub open spec fn volume_args(vs: Seq<(Seq<char>, Seq<char>, bool, bool)>, selinux_enforcing: bool) -> Seq<Seq<char>>
    decreases vs.len(),
{
    if vs.len() == 0 {
        Seq::empty()
    } else {
        volume_args(vs.drop_last(), selinux_enforcing) + seq!["-v"@, volume_arg(vs.last(), selinux_enforcing)]
    }
}

/// `-e KEY=VALUE` for each variable.
pub open spec fn env_args(es: Seq<(Seq<char>, Seq<char>)>) -> Seq<Seq<char>>
    decreases es.len(),
{
    if es.len() == 0 {
        Seq::empty()
    } else {
        env_args(es.drop_last()) + seq!["-e"@, es.last().0 + "="@ + es.last().1]
    }
}

/// The full argument list of `run`: the fixed options (detached, name, the
/// managed label, network, restart policy), then ports, volumes and
/// environment in their order, the image, and the command override.
pub open spec fn run_args(spec: ContainerSpec, selinux_enforcing: bool) -> Seq<Seq<char>> {
    seq![
        "run"@,
        "-d"@,
        "--name"@,
        spec.name@,
        "--label"@,
        MANAGED_LABEL@,
        "--network"@,
        spec.network@,
        "--restart"@,
        restart_word(spec.restart),
    ] + port_args(spec.ports@) + volume_args(volumes_view(spec.volumes@), selinux_enforcing)
        + env_args(env_view(spec.env@)) + seq![spec.image@] + strings_view(spec.command@)
}

/// Builds the argument list of `run -d ...` for a specification.
pub fn build_run_args(spec: &ContainerSpec, selinux_enforcing: bool) -> (args: Vec<String>)
    ensures
        args.deep_view() == run_args(*spec, selinux_enforcing),
{
    let mut args: Vec<String> = Vec::new();
    push_str(&mut args, "run");
    push_str(&mut args, "-d");
    push_str(&mut args, "--name");
    push_str(&mut args, spec.name.as_str());
    push_str(&mut args, "--label");
    push_str(&mut args, MANAGED_LABEL);
    push_str(&mut args, "--network");
    push_str(&mut args, spec.network.as_str());
    push_str(&mut args, "--restart");
    push_str(&mut args, spec.restart.as_arg());
    let ghost head = args.deep_view();

    let mut i: usize = 0;
    while i < spec.ports.len()
        invariant
            i <= spec.ports@.len(),
            args.deep_view() == head + port_args(spec.ports@.take(i as int)),
        decreases spec.ports@.len() - i,
    {
        let p = spec.ports[i];
        let h = u64_to_string(p.host as u64);
        let c = u64_to_string(p.container as u64);
        let hc = str_concat(h.as_str(), ":");
        let arg = str_concat(hc.as_str(), c.as_str());
        push_str(&mut args, "-p");
        push_string(&mut args, arg);
        assert(spec.ports@.take(i + 1).drop_last() =~= spec.ports@.take(i as int));
        i = i + 1;
        assert(args.deep_view() =~= head + port_args(spec.ports@.take(i as int)));
    }
    assert(spec.ports@.take(spec.ports@.len() as int) =~= spec.ports@);
    let ghost head2 = args.deep_view();
    let ghost vv = volumes_view(spec.volumes@);

    let mut j: usize = 0;
    while j < spec.volumes.len()
        invariant
            j <= spec.volumes@.len(),
            vv == volumes_view(spec.volumes@),
            args.deep_view() == head2 + volume_args(vv.take(j as int), selinux_enforcing),
        decreases spec.volumes@.len() - j,
    {
        let v = &spec.volumes[j];
        let suffix = if selinux_enforcing && v.selinux_relabel {
            if v.shared {
                ":z"
            } else {
                ":Z"
            }
        } else {
            ""
        };
        let st = str_concat(v.source.as_str(), ":");
        let stt = str_concat(st.as_str(), v.target.as_str());
        let arg = str_concat(stt.as_str(), suffix);
        push_str(&mut args, "-v");
        push_string(&mut args, arg);
        assert(vv.take(j + 1).drop_last() =~= vv.take(j as int));
        assert(vv.take(j + 1).last() == vv[j as int]);
        j = j + 1;
        assert(args.deep_view() =~= head2 + volume_args(vv.take(j as int), selinux_enforcing));
    }
    assert(vv.take(vv.len() as int) =~= vv);
    let ghost head3 = args.deep_view();
    let ghost ev = env_view(spec.env@);

    let mut k: usize = 0;
    while k < spec.env.len()
        invariant
            k <= spec.env@.len(),
            ev == env_view(spec.env@),
            args.deep_view() == head3 + env_args(ev.take(k as int)),
        decreases spec.env@.len() - k,
    {
        let kv = &spec.env[k];
        let ke = str_concat(kv.0.as_str(), "=");
        let arg = str_concat(ke.as_str(), kv.1.as_str());
        push_str(&mut args, "-e");
        push_string(&mut args, arg);
        assert(ev.take(k + 1).drop_last() =~= ev.take(k as int));
        assert(ev.take(k + 1).last() == ev[k as int]);
        k = k + 1;
        assert(args.deep_view() =~= head3 + env_args(ev.take(k as int)));
    }
    assert(ev.take(ev.len() as int) =~= ev);

    push_str(&mut args, spec.image.as_str());
    let ghost head4 = args.deep_view();
    let ghost cv = strings_view(spec.command@);
    let mut m: usize = 0;
    while m < spec.command.len()
        invariant
            m <= spec.command@.len(),
            cv == strings_view(spec.command@),
            args.deep_view() == head4 + cv.take(m as int),
        decreases spec.command@.len() - m,
    {
        push_str(&mut args, spec.command[m].as_str());
        m = m + 1;
        assert(args.deep_view() =~= head4 + cv.take(m as int));
    }
    assert(cv.take(cv.len() as int) =~= cv);
    assert(args.deep_view() =~= run_args(*spec, selinux_enforcing));
    args
}

/// The container id printed by `run`: the output, trimmed.
pub fn run_result(r: EngineResult<String>) -> (out: EngineResult<String>)
    ensures
        r is Ok <==> out is Ok,
        r matches Ok(id) ==> out matches Ok(t) && t@ == trim(id@),
        r matches Err(e) ==> out == Err::<String, EngineError>(e),
{
    match r {
        Ok(id) => Ok(trim_str(id.as_str())),
        Err(e) => Err(e),
    }
}

// ============================================================================
//  Container state
// ============================================================================

/// The state named by the engine: `running` is running; every other word
/// (created, exited, paused, dead, ...) counts as stopped.
pub open spec fn state_of(raw: Seq<char>) -> ContainerState {
    if raw == "running"@ {
        ContainerState::Running
    } else {
        ContainerState::Stopped
    }
}

/// Translates the engine's raw state word.
pub fn parse_state(raw: &str) -> (s: ContainerState)
    ensures
        s == state_of(raw@),
{
    if str_eq(raw, "running") {
        ContainerState::Running
    } else {
        ContainerState::Stopped
    }
}

/// The status after `inspect`: the trimmed output's state when it succeeded;
/// `NotFound` when it failed (the container does not exist).
pub fn status_from_inspect(name: &str, result: &EngineResult<String>) -> (s: ContainerStatus)
    ensures
        s.name@ == name@,
        s.state == match result {
            Ok(out) => state_of(trim(out@)),
            Err(_) => ContainerState::NotFound,
        },
{
    let state = match result {
        Ok(out) => {
            let t = trim_str(out.as_str());
            parse_state(t.as_str())
        },
        Err(_) => ContainerState::NotFound,
    };
    ContainerStatus { name: owned(name), state }
}

/// The index of the first `c` in `s`, or `s.len()` if there is none.
pub open spec fn find_char(s: Seq<char>, c: char) -> nat
    decreases s.len(),
{
    if s.len() == 0 {
        0
    } else if s[0] == c {
        0
    } else {
        1 + find_char(s.drop_first(), c)
    }
}

proof fn lemma_find_char(s: Seq<char>, c: char)
    ensures
        find_char(s, c) <= s.len(),
        forall|k: int| 0 <= k < find_char(s, c) ==> s[k] != c,
        find_char(s, c) < s.len() ==> s[find_char(s, c) as int] == c,
    decreases s.len(),
{
    if s.len() > 0 && s[0] != c {
        lemma_find_char(s.drop_first(), c);
        assert forall|k: int| 0 <= k < find_char(s, c) implies s[k] != c by {
            if k > 0 {
                assert(s[k] == s.drop_first()[k - 1]);
            }
        }
    }
}

proof fn lemma_find_char_unique(s: Seq<char>, c: char, i: int)
    requires
        0 <= i <= s.len(),
        forall|k: int| 0 <= k < i ==> s[k] != c,
        i < s.len() ==> s[i] == c,
    ensures
        find_char(s, c) == i,
    decreases s.len(),
{
    if s.len() > 0 && i > 0 {
        lemma_find_char_unique(s.drop_first(), c, i - 1);
    }
}

/// One line of the container listing: the name up to the first tab and the
/// state after it (an empty state word when there is no tab).
pub open spec fn status_line(line: Seq<char>) -> (Seq<char>, ContainerState) {
    let t = find_char(line, '\t');
    let rest = if t < line.len() {
        line.skip(t + 1 as int)
    } else {
        Seq::<char>::empty()
    };
    (line.take(t as int), state_of(rest))
}

/// The statuses listed in `lines`: every line is trimmed, empty lines are
/// skipped.
pub open spec fn status_lines(lines: Seq<Seq<char>>) -> Seq<(Seq<char>, ContainerState)>
    decreases lines.len(),
{
    if lines.len() == 0 {
        Seq::empty()
    } else {
        let prev = status_lines(lines.drop_last());
        let l = trim(lines.last());
        if l.len() == 0 {
            prev
        } else {
            prev.push(status_line(l))
        }
    }
}

/// The statuses in the output of the listing command. Lines are split at
/// `\n`; since each line is trimmed, a `\r` before the `\n` and a final line
/// ending do not matter.
pub open spec fn container_list(out: Seq<char>) -> Seq<(Seq<char>, ContainerState)> {
    status_lines(split_char(out, '\n'))
}

/// The views of a status list.
pub open spec fn statuses_view(v: Seq<ContainerStatus>) -> Seq<(Seq<char>, ContainerState)> {
    Seq::new(v.len(), |i: int| (v[i].name@, v[i].state))
}

/// Parses one trimmed listing line.
fn parse_status_line(line: &[char]) -> (s: ContainerStatus)
    ensures
        (s.name@, s.state) == status_line(line@),
{
    let mut t: usize = 0;
    while t < line.len() && line[t] != '\t'
        invariant
            t <= line@.len(),
            forall|k: int| 0 <= k < t ==> line@[k] != '\t',
        decreases line@.len() - t,
    {
        t = t + 1;
    }
    proof {
        lemma_find_char_unique(line@, '\t', t as int);
    }
    let mut name: Vec<char> = Vec::new();
    let mut i: usize = 0;
    while i < t
        invariant
            t <= line@.len(),
            i <= t,
            name@ == line@.take(i as int),
        decreases t - i,
    {
        name.push(line[i]);
        i = i + 1;
        assert(name@ =~= line@.take(i as int));
    }
    let mut rest: Vec<char> = Vec::new();
    if t < line.len() {
        let mut j: usize = t + 1;
        while j < line.len()
            invariant
                t < line@.len(),
                t + 1 <= j <= line@.len(),
                rest@ == line@.subrange(t + 1, j as int),
            decreases line@.len() - j,
        {
            rest.push(line[j]);
            j = j + 1;
            assert(rest@ =~= line@.subrange(t + 1, j as int));
        }
        assert(rest@ =~= line@.skip(t + 1));
    } else {
        assert(rest@ =~= Seq::<char>::empty());
    }
    let rest_s = string_of(rest.as_slice());
    let state = parse_state(rest_s.as_str());
    ContainerStatus { name: string_of(name.as_slice()), state }
}

/// Parses the output of the listing command (see [`container_list`]).
pub fn parse_container_list(out: &str) -> (r: Vec<ContainerStatus>)
    ensures
        statuses_view(r@) == container_list(out@),
{
    let chars = chars_of(out);
    let lines = split_chars(chars.as_slice(), '\n');
    let mut r: Vec<ContainerStatus> = Vec::new();
    let mut i: usize = 0;
    while i < lines.len()
        invariant
            i <= lines@.len(),
            rows(lines@) == split_char(out@, '\n'),
            statuses_view(r@) == status_lines(rows(lines@).take(i as int)),
        decreases lines@.len() - i,
    {
        let ghost before = statuses_view(r@);
        assert(rows(lines@).take(i + 1).drop_last() =~= rows(lines@).take(i as int));
        assert(rows(lines@).take(i + 1).last() == lines@[i as int]@);
        let t = trim_chars(lines[i].as_slice());
        if t.len() > 0 {
            let st = parse_status_line(t.as_slice());
            r.push(st);
            assert(statuses_view(r@) =~= before.push(status_line(t@)));
        }
        i = i + 1;
    }
    assert(rows(lines@).take(lines@.len() as int) =~= rows(lines@));
    r
}

// ============================================================================
//  Shared decisions
// ============================================================================

/// Whether a status means the container is running.
pub fn is_running_state(state: ContainerState) -> (b: bool)
    ensures
        b == (state == ContainerState::Running),
{
    match state {
        ContainerState::Running => true,
        _ => false,
    }
}


/// Every container this library runs carries the managed label, and the
/// listing filters by exactly that label: whatever is run is listed.
pub proof fn run_containers_are_listed(spec: ContainerSpec, selinux_enforcing: bool)
    ensures
        run_args(spec, selinux_enforcing)[4] == "--label"@,
        list_args()[2] == "--filter"@,
        list_args()[3] == "label="@ + run_args(spec, selinux_enforcing)[5],
        run_args(spec, selinux_enforcing)[6] == "--network"@,
        run_args(spec, selinux_enforcing)[7] == spec.network@,
{
}

/// Without enforcing SELinux no mount gets a relabel suffix; with it, a
/// mount gets one exactly when it asks for relabelling.
pub proof fn relabel_only_under_selinux(v: (Seq<char>, Seq<char>, bool, bool))
    ensures
        volume_arg(v, false) == v.0 + ":"@ + v.1 + ""@,
        volume_suffix(v.2, v.3, true).len() > 0 <==> v.2,
{
    reveal_strlit(":z");
    reveal_strlit(":Z");
    reveal_strlit("");
}

} // verus!
