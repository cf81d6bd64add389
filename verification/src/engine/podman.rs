//! The Podman engine: preferred, since it runs rootless by default.
use vstd::prelude::*;

use super::ContainerEngine;
use crate::system::inspector::ContainerEngineKind;

verus! {

/// An engine driven by the `podman` command line.
pub struct PodmanEngine {
    /// Whether SELinux is enforcing (controls the relabel suffixes).
    selinux_enforcing: bool,
}

impl PodmanEngine {
    /// The binary's name in `PATH`.
    pub const BINARY: &'static str = "podman";

    /// A Podman engine with the given SELinux setting.
    pub fn new(selinux_enforcing: bool) -> (e: Self)
        ensures
            e.relabels() == selinux_enforcing,
            e.engine_kind() == ContainerEngineKind::Podman,
    {
        PodmanEngine { selinux_enforcing }
    }
}

impl ContainerEngine for PodmanEngine {
    open spec fn engine_kind(&self) -> ContainerEngineKind {
        ContainerEngineKind::Podman
    }

    closed spec fn relabels(&self) -> bool {
        self.selinux_enforcing
    }

    fn kind(&self) -> (k: ContainerEngineKind) {
        ContainerEngineKind::Podman
    }

    fn binary(&self) -> (b: &'static str) {
        "podman"
    }

    fn selinux_enforcing(&self) -> (b: bool) {
        self.selinux_enforcing
    }
}

} // verus!
