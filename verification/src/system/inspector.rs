//! Inspection of the host system.
//!
//! The probes (running `podman version`, reading `/etc/os-release`, ...) are
//! performed by the caller and handed in as a [`SystemProbe`]; the functions
//! here turn those raw observations into a [`SystemInfo`]. Detection is by
//! feature, not by distribution: SELinux is judged by the kernel interface,
//! not by the distribution's name.
use vstd::prelude::*;

use crate::text::{
    chars_of, str_concat, has_prefix, lowercase, owned, rows, split_char, split_chars, split_ws,
    split_ws_chars, str_eq, str_eq_ignore_ascii_case, string_of, to_lowercase, trim, trim_char,
    trim_char_chars, trim_chars, trim_str, eq_ignore_ascii_case, chars_has_prefix, opt_view,
};


verus! {

/// Which container engine is in use. Podman is preferred (rootless by
/// default); Docker is the fallback.
#[derive(Debug, Clone, Copy, PartialEq, Eq, Structural)]
pub enum ContainerEngineKind {
    Podman,
    Docker,
}

/// The privilege mode of the engine.
#[derive(Debug, Clone, Copy, PartialEq, Eq, Structural)]
pub enum EngineMode {
    /// Runs entirely without root.
    Rootless,
    /// Runs with root-equivalent rights (e.g. membership in the `docker` group).
    RootEquivalent,
}

/// A detected engine with its mode and raw version string.
#[derive(Debug, Clone)]
pub struct DetectedEngine {
    pub kind: ContainerEngineKind,
    pub mode: EngineMode,
    pub version: String,
}

/// The distribution family, with the concrete derivative's id where it is
/// known.
#[derive(Debug, Clone)]
pub enum Distro {
    Arch(Option<String>),
    Fedora(Option<String>),
    Debian(Option<String>),
    Other(String),
}

/// The collected state of the system.
#[derive(Debug, Clone)]
pub struct SystemInfo {
    /// The usable engine, or `None` if neither Podman nor Docker works.
    pub engine: Option<DetectedEngine>,
    /// The detected distribution.
    pub distro: Distro,
    /// Whether SELinux is enforcing (volume mounts then need relabelling).
    pub selinux_enforcing: bool,
}

impl ContainerEngineKind {
    /// The engine's name as shown to the user (`podman` / `docker`).
    pub fn to_string(&self) -> (s: String)
        ensures
            s@ == engine_name(*self),
    {
        match self {
            ContainerEngineKind::Podman => owned("podman"),
            ContainerEngineKind::Docker => owned("docker"),
        }
    }
}

/// The engine's name as shown to the user.
pub open spec fn engine_name(k: ContainerEngineKind) -> Seq<char> {
    match k {
        ContainerEngineKind::Podman => "podman"@,
        ContainerEngineKind::Docker => "docker"@,
    }
}

/// The mode as shown to the user.
pub open spec fn mode_name(m: EngineMode) -> Seq<char> {
    match m {
        EngineMode::Rootless => "rootless"@,
        EngineMode::RootEquivalent => "root-equivalent"@,
    }
}

/// The label of a distribution family, naming the derivative when it differs
/// (ignoring ASCII case) from the family's own id: `Arch Based - cachyos`,
/// but `Arch Based` for `arch` itself.
pub open spec fn base_label(label: Seq<char>, specific: Option<Seq<char>>, base_id: Seq<char>) -> Seq<char> {
    match specific {
        Some(name) => if !eq_ignore_ascii_case(name, base_id) {
            label + " - "@ + name
        } else {
            label
        },
        None => label,
    }
}

/// The name of a distribution as shown to the user.
pub open spec fn distro_name(d: Distro) -> Seq<char> {
    match d {
        Distro::Arch(s) => base_label("Arch Based"@, opt_view(s), "arch"@),
        Distro::Fedora(s) => base_label("Fedora Based"@, opt_view(s), "fedora"@),
        Distro::Debian(s) => base_label("Debian Based"@, opt_view(s), "debian"@),
        Distro::Other(id) => if id@.len() == 0 {
            "Unknown"@
        } else {
            id@
        },
    }
}

/// Builds the label of a distribution family (see [`base_label`]).
pub fn format_base(label: &str, specific: Option<&str>, base_id: &str) -> (s: String)
    ensures
        s@ == base_label(
            label@,
            match specific {
                Some(x) => Some(x@),
                None => None,
            },
            base_id@,
        ),
{
    match specific {
        Some(name) => {
            if !str_eq_ignore_ascii_case(name, base_id) {
                let l = str_concat(label, " - ");
                str_concat(l.as_str(), name)
            } else {
                owned(label)
            }
        },
        None => owned(label),
    }
}

/// The borrowed contents of an optional string.
fn opt_str(s: &Option<String>) -> (r: Option<&str>)
    ensures
        match r {
            Some(x) => Some(x@),
            None => None,
        } == opt_view(*s),
{
    match s {
        Some(x) => Some(x.as_str()),
        None => None,
    }
}

impl Distro {
    /// The name of the distribution as shown to the user.
    pub fn to_string(&self) -> (s: String)
        ensures
            s@ == distro_name(*self),
    {
        match self {
            Distro::Arch(sp) => format_base("Arch Based", opt_str(sp), "arch"),
            Distro::Fedora(sp) => format_base("Fedora Based", opt_str(sp), "fedora"),
            Distro::Debian(sp) => format_base("Debian Based", opt_str(sp), "debian"),
            Distro::Other(id) => {
                if id.as_str().is_empty() {
                    owned("Unknown")
                } else {
                    owned(id.as_str())
                }
            },
        }
    }
}

impl SystemInfo {
    /// The suffix for volume mounts: `:Z` when SELinux is enforcing, else
    /// nothing.
    pub fn volume_flag(&self) -> (s: &'static str)
        ensures
            s@ == (if self.selinux_enforcing {
                ":Z"@
            } else {
                ""@
            }),
    {
        if self.selinux_enforcing {
            ":Z"
        } else {
            ""
        }
    }

    /// Whether a usable container engine was found.
    pub fn is_ready(&self) -> (b: bool)
        ensures
            b == self.engine is Some,
    {
        self.engine.is_some()
    }
}

// ============================================================================
//  Probes and their interpretation
// ============================================================================

/// The outcome of running a probing command that could be started.
#[derive(Debug, Clone)]
pub struct CommandOutput {
    /// Whether it exited successfully.
    pub success: bool,
    /// Its standard output, decoded as text.
    pub stdout: String,
}

/// The raw observations from which the system state is determined. A
/// command that could not be started, or a file that could not be read, is
/// `None`.
#[derive(Debug, Clone)]
pub struct SystemProbe {
    /// `podman version --format {{.Client.Version}}`.
    pub podman_version: Option<CommandOutput>,
    /// `podman info --format {{.Host.Security.Rootless}}` (only consulted
    /// when Podman was found).
    pub podman_info: Option<CommandOutput>,
    /// `docker version --format {{.Client.Version}}` (only consulted when
    /// Podman was not found).
    pub docker_version: Option<CommandOutput>,
    /// The contents of `/etc/os-release`.
    pub os_release: Option<String>,
    /// The contents of `/sys/fs/selinux/enforce`.
    pub selinux_enforce: Option<String>,
}

/// Arguments that ask an engine for its client version.
pub fn version_command() -> (a: Vec<String>)
    ensures
        a.deep_view() == seq!["version"@, "--format"@, "{{.Client.Version}}"@],
{
    let mut a = Vec::new();
    a.push(owned("version"));
    a.push(owned("--format"));
    a.push(owned("{{.Client.Version}}"));
    assert(a.deep_view() =~= seq!["version"@, "--format"@, "{{.Client.Version}}"@]);
    a
}

/// Arguments that ask Podman whether it runs rootless.
pub fn podman_info_command() -> (a: Vec<String>)
    ensures
        a.deep_view() == seq!["info"@, "--format"@, "{{.Host.Security.Rootless}}"@],
{
    let mut a = Vec::new();
    a.push(owned("info"));
    a.push(owned("--format"));
    a.push(owned("{{.Host.Security.Rootless}}"));
    assert(a.deep_view() =~= seq!["info"@, "--format"@, "{{.Host.Security.Rootless}}"@]);
    a
}

/// The version reported by a version probe: the trimmed output of a
/// successful run, unless it is empty.
pub open spec fn version_of(out: Option<CommandOutput>) -> Option<Seq<char>> {
    match out {
        Some(o) => if o.success && trim(o.stdout@).len() > 0 {
            Some(trim(o.stdout@))
        } else {
            None
        },
        None => None,
    }
}

/// The version of an engine from its version probe (see [`version_of`]);
/// `None` means the engine is missing or not working.
pub fn engine_version(out: &Option<CommandOutput>) -> (v: Option<String>)
    ensures
        opt_view(v) == version_of(*out),
{
    match out {
        Some(o) => {
            if !o.success {
                return None;
            }
            let t = trim_str(o.stdout.as_str());
            if t.as_str().is_empty() {
                None
            } else {
                Some(t)
            }
        },
        None => None,
    }
}

/// Podman's mode from its info probe: root-equivalent only when the probe
/// succeeded and did not answer `true` (after trimming and lowercasing);
/// rootless otherwise.
pub open spec fn podman_mode_of(out: Option<CommandOutput>) -> EngineMode {
    match out {
        Some(o) => if o.success {
            if lowercase(trim(o.stdout@)) == "true"@ {
                EngineMode::Rootless
            } else {
                EngineMode::RootEquivalent
            }
        } else {
            EngineMode::Rootless
        },
        None => EngineMode::Rootless,
    }
}

/// Podman's mode (see [`podman_mode_of`]).
pub fn detect_podman_mode(out: &Option<CommandOutput>) -> (m: EngineMode)
    ensures
        m == podman_mode_of(*out),
{
    match out {
        Some(o) => {
            if o.success {
                let t = trim_str(o.stdout.as_str());
                let l = to_lowercase(t.as_str());
                if str_eq(l.as_str(), "true") {
                    EngineMode::Rootless
                } else {
                    EngineMode::RootEquivalent
                }
            } else {
                EngineMode::Rootless
            }
        },
        None => EngineMode::Rootless,
    }
}

/// Docker counts as root-equivalent: access through the `docker` group
/// amounts to passwordless root.
pub fn detect_docker_mode() -> (m: EngineMode)
    ensures
        m == EngineMode::RootEquivalent,
{
    EngineMode::RootEquivalent
}

/// Whether `e` is the engine of the given kind, mode and version.
pub open spec fn engine_is(e: DetectedEngine, kind: ContainerEngineKind, mode: EngineMode, version: Seq<char>) -> bool {
    e.kind == kind && e.mode == mode && e.version@ == version
}

/// The detected engine: Podman with its mode when its version probe answers;
/// otherwise Docker (root-equivalent) when its version probe answers;
/// otherwise none.
pub open spec fn engine_detected(probe: SystemProbe, r: Option<DetectedEngine>) -> bool {
    match version_of(probe.podman_version) {
        Some(v) => r matches Some(e) && engine_is(e, ContainerEngineKind::Podman, podman_mode_of(probe.podman_info), v),
        None => match version_of(probe.docker_version) {
            Some(v) => r matches Some(e) && engine_is(e, ContainerEngineKind::Docker, EngineMode::RootEquivalent, v),
            None => r is None,
        },
    }
}

/// Picks the preferred usable engine (see [`engine_detected`]).
pub fn detect_engine(probe: &SystemProbe) -> (r: Option<DetectedEngine>)
    ensures
        engine_detected(*probe, r),
{
    if let Some(version) = engine_version(&probe.podman_version) {
        return Some(
            DetectedEngine {
                kind: ContainerEngineKind::Podman,
                mode: detect_podman_mode(&probe.podman_info),
                version,
            },
        );
    }
    if let Some(version) = engine_version(&probe.docker_version) {
        return Some(
            DetectedEngine { kind: ContainerEngineKind::Docker, mode: detect_docker_mode(), version },
        );
    }
    None
}

/// A distribution family.
#[derive(Debug, Clone, Copy, PartialEq, Eq, Structural)]
pub enum DistroFamily {
    Arch,
    Fedora,
    Debian,
}

/// The family an os-release id stands for.
pub open spec fn family_of(id: Seq<char>) -> Option<DistroFamily> {
    if id == "arch"@ {
        Some(DistroFamily::Arch)
    } else if id == "fedora"@ || id == "rhel"@ || id == "centos"@ {
        Some(DistroFamily::Fedora)
    } else if id == "debian"@ || id == "ubuntu"@ {
        Some(DistroFamily::Debian)
    } else {
        None
    }
}

/// Whether `d` is the distribution of the given family (`None`: unknown)
/// with the actual id `id`: a family carries the id unless it is empty, an
/// unknown distribution carries the id as it is.
pub open spec fn distro_is(d: Distro, family: Option<DistroFamily>, id: Seq<char>) -> bool {
    let specific_ok = |s: Option<String>|
        if id.len() == 0 {
            s is None
        } else {
            s matches Some(x) && x@ == id
        };
    match d {
        Distro::Arch(s) => family == Some(DistroFamily::Arch) && specific_ok(s),
        Distro::Fedora(s) => family == Some(DistroFamily::Fedora) && specific_ok(s),
        Distro::Debian(s) => family == Some(DistroFamily::Debian) && specific_ok(s),
        Distro::Other(x) => family is None && x@ == id,
    }
}

/// The distribution for `lookup_name` (an id or an `ID_LIKE` entry), keeping
/// the actual id.
pub fn map_to_distro(lookup_name: &str, actual_id: &str) -> (d: Distro)
    ensures
        distro_is(d, family_of(lookup_name@), actual_id@),
{
    let specific = if actual_id.is_empty() {
        None
    } else {
        Some(owned(actual_id))
    };
    if str_eq(lookup_name, "arch") {
        Distro::Arch(specific)
    } else if str_eq(lookup_name, "fedora") || str_eq(lookup_name, "rhel") || str_eq(
        lookup_name,
        "centos",
    ) {
        Distro::Fedora(specific)
    } else if str_eq(lookup_name, "debian") || str_eq(lookup_name, "ubuntu") {
        Distro::Debian(specific)
    } else {
        Distro::Other(owned(actual_id))
    }
}

/// The rest of the first line that starts with `key`.
pub open spec fn first_with_prefix(lines: Seq<Seq<char>>, key: Seq<char>) -> Option<Seq<char>>
    decreases lines.len(),
{
    if lines.len() == 0 {
        None
    } else if has_prefix(lines[0], key) {
        Some(lines[0].skip(key.len() as int))
    } else {
        first_with_prefix(lines.drop_first(), key)
    }
}

/// The value of `key` (such as `ID=`) in os-release contents: the rest of the
/// first line starting with it, trimmed, stripped of quotes and lowercased;
/// empty when no line starts with it.
pub open spec fn os_release_value(content: Seq<char>, key: Seq<char>) -> Seq<char> {
    match first_with_prefix(split_char(content, '\n'), key) {
        Some(v) => lowercase(trim_char(trim(v), '"')),
        None => Seq::<char>::empty(),
    }
}

/// The first family among the `ID_LIKE` entries.
pub open spec fn first_family(likes: Seq<Seq<char>>) -> Option<DistroFamily>
    decreases likes.len(),
{
    if likes.len() == 0 {
        None
    } else if family_of(likes[0]) is Some {
        family_of(likes[0])
    } else {
        first_family(likes.drop_first())
    }
}

/// The family named by os-release contents: that of `ID`, else the first one
/// among the words of `ID_LIKE`.
pub open spec fn os_release_family(content: Seq<char>) -> Option<DistroFamily> {
    let id = os_release_value(content, "ID="@);
    if family_of(id) is Some {
        family_of(id)
    } else {
        first_family(split_ws(os_release_value(content, "ID_LIKE="@)))
    }
}

/// The value of `key` in os-release contents (see [`os_release_value`]).
fn os_release_lookup(content: &str, key: &str) -> (v: String)
    ensures
        v@ == os_release_value(content@, key@),
{
    let chars = chars_of(content);
    let lines = split_chars(chars.as_slice(), '\n');
    let keyv = chars_of(key);
    let mut i: usize = 0;
    assert(rows(lines@).skip(0) =~= rows(lines@));
    while i < lines.len()
        invariant
            i <= lines@.len(),
            keyv@ == key@,
            rows(lines@) == split_char(content@, '\n'),
            first_with_prefix(rows(lines@), key@) == first_with_prefix(rows(lines@).skip(i as int), key@),
        decreases lines@.len() - i,
    {
        let ghost rest = rows(lines@).skip(i as int);
        assert(rest[0] == lines@[i as int]@);
        assert(rest.drop_first() =~= rows(lines@).skip(i + 1));
        if chars_has_prefix(lines[i].as_slice(), keyv.as_slice()) {
            let line = &lines[i];
            let mut rest_v: Vec<char> = Vec::new();
            let mut j: usize = keyv.len();
            while j < line.len()
                invariant
                    keyv@.len() <= j <= line@.len(),
                    rest_v@ == line@.subrange(keyv@.len() as int, j as int),
                decreases line@.len() - j,
            {
                rest_v.push(line[j]);
                j = j + 1;
                assert(rest_v@ =~= line@.subrange(keyv@.len() as int, j as int));
            }
            assert(rest_v@ =~= line@.skip(key@.len() as int));
            let t = trim_chars(rest_v.as_slice());
            let u = trim_char_chars(t.as_slice(), '"');
            let us = string_of(u.as_slice());
            return to_lowercase(us.as_str());
        }
        i = i + 1;
    }
    assert(rows(lines@).skip(lines@.len() as int) =~= Seq::<Seq<char>>::empty());
    String::new()
}

/// The distribution described by os-release contents (`None`: the file could
/// not be read): the family of `ID`, else of the first known `ID_LIKE`
/// entry, with the actual id; an unknown distribution otherwise.
pub fn detect_distro(os_release: &Option<String>) -> (d: Distro)
    ensures
        match os_release {
            Some(c) => distro_is(d, os_release_family(c@), os_release_value(c@, "ID="@)),
            None => distro_is(d, None, Seq::<char>::empty()),
        },
{
    let content = match os_release {
        Some(c) => c,
        None => {
            let d = Distro::Other(String::new());
            return d;
        },
    };
    let id = os_release_lookup(content.as_str(), "ID=");
    let direct = map_to_distro(id.as_str(), id.as_str());
    let known = match direct {
        Distro::Other(_) => false,
        _ => true,
    };
    if known {
        return direct;
    }
    let like = os_release_lookup(content.as_str(), "ID_LIKE=");
    let like_chars = chars_of(like.as_str());
    let likes = split_ws_chars(like_chars.as_slice());
    let ghost ws = split_ws(like@);
    let mut i: usize = 0;
    assert(ws.skip(0) =~= ws);
    while i < likes.len()
        invariant
            i <= likes@.len(),
            os_release matches Some(c) && c@ == content@,
            rows(likes@) == ws,
            ws == split_ws(os_release_value(content@, "ID_LIKE="@)),
            id@ == os_release_value(content@, "ID="@),
            family_of(id@) is None,
            first_family(ws) == first_family(ws.skip(i as int)),
        decreases likes@.len() - i,
    {
        let ghost rest = ws.skip(i as int);
        assert(rest[0] == likes@[i as int]@);
        assert(rest.drop_first() =~= ws.skip(i + 1));
        let name = string_of(likes[i].as_slice());
        let d = map_to_distro(name.as_str(), id.as_str());
        let known = match d {
            Distro::Other(_) => false,
            _ => true,
        };
        if known {
            assert(name@ == rest[0]);
            assert(family_of(rest[0]) is Some);
            assert(rest.len() > 0);
            assert(first_family(rest) == family_of(rest[0]));
            assert(os_release_family(content@) == first_family(ws));
            return d;
        }
        i = i + 1;
    }
    assert(ws.skip(ws.len() as int) =~= Seq::<Seq<char>>::empty());
    Distro::Other(id)
}

/// Whether SELinux is enforcing, from the contents of
/// `/sys/fs/selinux/enforce`: exactly when it reads `1` (trimmed).
pub fn detect_selinux_enforcing(content: &Option<String>) -> (b: bool)
    ensures
        b == (content matches Some(c) && trim(c@) == "1"@),
{
    match content {
        Some(c) => {
            let t = trim_str(c.as_str());
            str_eq(t.as_str(), "1")
        },
        None => false,
    }
}

/// The complete system state from the probes: engine, distribution and
/// SELinux state. It never fails: what is missing shows as no engine, an
/// unknown distribution or SELinux off.
pub fn inspect_system(probe: &SystemProbe) -> (info: SystemInfo)
    ensures
        engine_detected(*probe, info.engine),
        match probe.os_release {
            Some(c) => distro_is(info.distro, os_release_family(c@), os_release_value(c@, "ID="@)),
            None => distro_is(info.distro, None, Seq::<char>::empty()),
        },
        info.selinux_enforcing == (probe.selinux_enforce matches Some(c) && trim(c@) == "1"@),
{
    SystemInfo {
        engine: detect_engine(probe),
        distro: detect_distro(&probe.os_release),
        selinux_enforcing: detect_selinux_enforcing(&probe.selinux_enforce),
    }
}

// ============================================================================
//  Frontend representation
// ============================================================================

/// The system state flattened to strings for the frontend.
#[derive(Debug, Clone)]
pub struct SystemInfoDto {
    /// `podman` | `docker` | none
    pub engine_kind: Option<String>,
    /// `rootless` | `root-equivalent` | none
    pub engine_mode: Option<String>,
    pub engine_version: Option<String>,
    pub distro: String,
    pub selinux_enforcing: bool,
    pub is_ready: bool,
}

impl SystemInfoDto {
    /// Flattens the system state: the engine's name, mode and version when
    /// there is one, the distribution's name, SELinux and readiness.
    pub fn from_info(info: SystemInfo) -> (d: Self)
        ensures
            opt_view(d.engine_kind) == match info.engine {
                Some(e) => Some(engine_name(e.kind)),
                None => None::<Seq<char>>,
            },
            opt_view(d.engine_mode) == match info.engine {
                Some(e) => Some(mode_name(e.mode)),
                None => None::<Seq<char>>,
            },
            opt_view(d.engine_version) == match info.engine {
                Some(e) => Some(e.version@),
                None => None::<Seq<char>>,
            },
            d.distro@ == distro_name(info.distro),
            d.selinux_enforcing == info.selinux_enforcing,
            d.is_ready == info.engine is Some,
    {
        let is_ready = info.is_ready();
        let (kind, mode, version) = match &info.engine {
            Some(e) => (
                Some(e.kind.to_string()),
                Some(
                    match e.mode {
                        EngineMode::Rootless => owned("rootless"),
                        EngineMode::RootEquivalent => owned("root-equivalent"),
                    },
                ),
                Some(owned(e.version.as_str())),
            ),
            None => (None, None, None),
        };
        SystemInfoDto {
            engine_kind: kind,
            engine_mode: mode,
            engine_version: version,
            distro: info.distro.to_string(),
            selinux_enforcing: info.selinux_enforcing,
            is_ready,
        }
    }
}


/// Podman is preferred: when it answers, it is the engine, whatever Docker
/// does; Docker is chosen only when Podman does not answer.
pub proof fn podman_preferred(probe: SystemProbe, r: Option<DetectedEngine>)
    requires
        engine_detected(probe, r),
    ensures
        version_of(probe.podman_version) is Some ==> (r matches Some(e) && e.kind == ContainerEngineKind::Podman),
        (r matches Some(e) && e.kind == ContainerEngineKind::Docker) ==> version_of(probe.podman_version) is None,
        r is None <==> version_of(probe.podman_version) is None && version_of(probe.docker_version) is None,
{
}

} // verus!
