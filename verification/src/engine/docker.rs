//! The Docker engine: the fallback when Podman is not available. Membership in
//! the `docker` group is effectively root-equivalent.
use vstd::prelude::*;

use super::ContainerEngine;
use crate::system::inspector::ContainerEngineKind;

verus! {

/// An engine driven by the `docker` command line.
pub struct DockerEngine {
    /// Whether SELinux is enforcing (controls the relabel suffixes).
    selinux_enforcing: bool,
}

impl DockerEngine {
    /// The binary's name in `PATH`.
    pub const BINARY: &'static str = "docker";

    /// A Docker engine with the given SELinux setting.
    pub fn new(selinux_enforcing: bool) -> (e: Self)
        ensures
            e.relabels() == selinux_enforcing,
            e.engine_kind() == ContainerEngineKind::Docker,
    {
        DockerEngine { selinux_enforcing }
    }
}

impl ContainerEngine for DockerEngine {
    open spec fn engine_kind(&self) -> ContainerEngineKind {
        ContainerEngineKind::Docker
    }

    closed spec fn relabels(&self) -> bool {
        self.selinux_enforcing
    }

    fn kind(&self) -> (k: ContainerEngineKind) {
        ContainerEngineKind::Docker
    }

    fn binary(&self) -> (b: &'static str) {
        "docker"
    }

    fn selinux_enforcing(&self) -> (b: bool) {
        self.selinux_enforcing
    }
}

} // verus!
