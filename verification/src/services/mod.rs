//! Management of the catalogued services. The [`ServiceManager`] decides what
//! starting, stopping, removing and querying a service takes; the engine
//! calls themselves are made by the caller.
//!
//! Starting a service: make sure the shared network exists, look at the
//! container's state; a running one is left alone, a stopped one is
//! started, a missing one is created (after pulling the image if needed and
//! creating its data directory).
pub mod catalog;

use vstd::prelude::*;

use crate::engine::plan::{
    emit, plan_view, resume, Instr, InstrView, NextView, Outcome, Pending, RunnerState, Step, StepView,
};
use crate::engine::{ContainerEngine, ContainerSpec, ContainerState};
use crate::paths::{default_data_root, app_path};
use crate::text::owned;
use catalog::{
    service_container_name, service_host_port, service_id, service_spec, service_volume_dir,
    ServiceKind,
};

verus! {

/// The frontend word for a state.
pub open spec fn state_word(s: ContainerState) -> Seq<char> {
    match s {
        ContainerState::Running => "running"@,
        ContainerState::Stopped => "stopped"@,
        ContainerState::NotFound => "not_found"@,
    }
}

/// The frontend word for a state (`running`, `stopped`, `not_found`).
pub fn state_to_str(state: ContainerState) -> (s: &'static str)
    ensures
        s@ == state_word(state),
{
    match state {
        ContainerState::Running => "running",
        ContainerState::Stopped => "stopped",
        ContainerState::NotFound => "not_found",
    }
}

/// The runtime status of a service, for the frontend.
#[derive(Debug, Clone)]
pub struct ServiceStatusDto {
    pub id: String,
    /// `running` | `stopped` | `not_found`
    pub state: String,
    pub host_port: u16,
}

/// Manages the catalogued services through a container engine, keeping
/// their data below `data_root`.
pub struct ServiceManager<'a, E: ContainerEngine> {
    engine: &'a E,
    data_root: String,
}

impl<'a, E: ContainerEngine> ServiceManager<'a, E> {
    /// The engine in use.
    pub closed spec fn spec_engine(&self) -> &'a E {
        self.engine
    }

    /// The directory below which the services keep their data.
    pub closed spec fn spec_data_root(&self) -> Seq<char> {
        self.data_root@
    }

    /// A manager that keeps the data in the default volumes directory below
    /// the user's data directory.
    pub fn new(engine: &'a E) -> (m: Self)
        ensures
            m.spec_engine() == engine,
            exists|d: Option<Seq<char>>| m.spec_data_root() == app_path(d, seq!["volumes"@], "./taurigon-data"@),
    {
        ServiceManager { engine, data_root: default_data_root() }
    }

    /// A manager that keeps the data below `data_root`.
    pub fn with_data_root(engine: &'a E, data_root: &str) -> (m: Self)
        ensures
            m.spec_engine() == engine,
            m.spec_data_root() == data_root@,
    {
        ServiceManager { engine, data_root: owned(data_root) }
    }

    /// The engine in use.
    pub fn engine(&self) -> (e: &'a E)
        ensures
            e == self.spec_engine(),
    {
        self.engine
    }

    /// The directory below which the services keep their data.
    pub fn data_root(&self) -> (d: &str)
        ensures
            d@ == self.spec_data_root(),
    {
        self.data_root.as_str()
    }

    /// The host directory of a service's data (created before the first
    /// start, deleted by a removal with data).
    pub fn volume_dir(&self, kind: ServiceKind) -> (p: String)
        ensures
            p@ == service_volume_dir(kind, self.spec_data_root()),
    {
        kind.volume_dir(self.data_root.as_str())
    }

    /// The specification a service is created from.
    pub fn spec_for(&self, kind: ServiceKind) -> (s: ContainerSpec)
        ensures
            s@ == service_spec(kind, self.spec_data_root()),
    {
        kind.build_spec(self.data_root.as_str())
    }

    /// The plan that starts a service: make sure the network exists, then
    /// bring its container up (creating the data directory before a first
    /// run). Starting a running service changes nothing.
    pub fn start_steps(&self, kind: ServiceKind) -> (p: Vec<Instr>)
        ensures
            plan_view(p@) == start_plan(kind, self.spec_data_root()),
    {
        let mut p: Vec<Instr> = Vec::new();
        p.push(Instr::Call(Step::EnsureNetwork));
        let spec = kind.build_spec(self.data_root.as_str());
        let dir = kind.volume_dir(self.data_root.as_str());
        p.push(Instr::EnsureUp(spec, Some(dir)));
        assert(plan_view(p@) =~= start_plan(kind, self.spec_data_root()));
        p
    }

    /// The plan that stops a service: stop its container if it runs.
    pub fn stop_steps(&self, kind: ServiceKind) -> (p: Vec<Instr>)
        ensures
            plan_view(p@) == seq![InstrView::StopIfRunning(service_container_name(kind))],
    {
        let mut p: Vec<Instr> = Vec::new();
        p.push(Instr::StopIfRunning(kind.container_name()));
        assert(plan_view(p@) =~= seq![InstrView::StopIfRunning(service_container_name(kind))]);
        p
    }

    /// The plan that restarts a service's container.
    pub fn restart_steps(&self, kind: ServiceKind) -> (p: Vec<Instr>)
        ensures
            plan_view(p@) == seq![InstrView::Call(StepView::Restart(service_container_name(kind)))],
    {
        let mut p: Vec<Instr> = Vec::new();
        p.push(Instr::Call(Step::Restart(kind.container_name())));
        assert(plan_view(p@) =~= seq![InstrView::Call(StepView::Restart(service_container_name(kind)))]);
        p
    }

    /// The plan that removes a service's container (forcibly, unless it does
    /// not exist); the data directory is kept, so that a new start finds the
    /// old data.
    pub fn remove_steps(&self, kind: ServiceKind) -> (p: Vec<Instr>)
        ensures
            plan_view(p@) == seq![InstrView::RemoveIfExists(service_container_name(kind))],
    {
        let mut p: Vec<Instr> = Vec::new();
        p.push(Instr::RemoveIfExists(kind.container_name()));
        assert(plan_view(p@) =~= seq![InstrView::RemoveIfExists(service_container_name(kind))]);
        p
    }

    /// The plan that removes a service's container and then deletes its
    /// data directory (irrevocably).
    pub fn remove_with_data_steps(&self, kind: ServiceKind) -> (p: Vec<Instr>)
        ensures
            plan_view(p@) == seq![
                InstrView::RemoveIfExists(service_container_name(kind)),
                InstrView::Try(StepView::RemoveDir(service_volume_dir(kind, self.spec_data_root()))),
            ],
    {
        let mut p: Vec<Instr> = Vec::new();
        p.push(Instr::RemoveIfExists(kind.container_name()));
        p.push(Instr::Try(Step::RemoveDir(kind.volume_dir(self.data_root.as_str()))));
        assert(plan_view(p@) =~= seq![
            InstrView::RemoveIfExists(service_container_name(kind)),
            InstrView::Try(StepView::RemoveDir(service_volume_dir(kind, self.spec_data_root()))),
        ]);
        p
    }

    /// The status of a service from its container's state.
    pub fn status_of(&self, kind: ServiceKind, state: ContainerState) -> (d: ServiceStatusDto)
        ensures
            d.id@ == service_id(kind),
            d.state@ == state_word(state),
            d.host_port == service_host_port(kind),
    {
        ServiceStatusDto {
            id: owned(kind.id()),
            state: owned(state_to_str(state)),
            host_port: kind.host_port(),
        }
    }
}


/// Removing a service keeps its data where a new start finds it: the
/// directory that a removal with data deletes (and a first start creates) is
/// the one the created container mounts.
pub proof fn data_survives_removal(kind: ServiceKind, data_root: Seq<char>)
    ensures
        service_spec(kind, data_root).volumes.len() == 1,
        service_spec(kind, data_root).volumes[0].0 == service_volume_dir(kind, data_root),
{
}


/// The plan that starts a service: make sure the network exists (a failure
/// ends it), then bring the container up with the catalogue specification,
/// creating the data directory before a first run.
pub open spec fn start_plan(kind: ServiceKind, data_root: Seq<char>) -> Seq<InstrView> {
    seq![
        InstrView::Call(StepView::EnsureNetwork),
        InstrView::EnsureUp(service_spec(kind, data_root), Some(service_volume_dir(kind, data_root))),
    ]
}

/// Starting a service that already runs does nothing beyond the network
/// check and the status query: the workflow then ends successfully.
pub proof fn start_of_running_service_changes_nothing(kind: ServiceKind, data_root: Seq<char>)
    ensures
        ({
            let plan = start_plan(kind, data_root);
            let (s0, n0) = emit(plan, 0, false);
            let (s1, n1) = resume(plan, s0, Outcome::Unit);
            let (s2, n2) = resume(plan, s1, Outcome::State(ContainerState::Running));
            &&& n0 == NextView::Do(StepView::EnsureNetwork)
            &&& n1 == NextView::Do(StepView::Status(service_container_name(kind)))
            &&& n2 == NextView::Finish(Ok(()))
        }),
{
    let plan = start_plan(kind, data_root);
    assert(emit(plan, 2, false).1 == NextView::Finish(Ok(())));
}

/// Starting a service whose container does not exist, with its image
/// missing: the image is pulled, the data directory created, and the
/// container run from the catalogue specification; then it is done.
pub proof fn first_start_pulls_creates_and_runs(kind: ServiceKind, data_root: Seq<char>)
    ensures
        ({
            let plan = start_plan(kind, data_root);
            let (s0, n0) = emit(plan, 0, false);
            let (s1, n1) = resume(plan, s0, Outcome::Unit);
            let (s2, n2) = resume(plan, s1, Outcome::State(ContainerState::NotFound));
            let (s3, n3) = resume(plan, s2, Outcome::Present(false));
            let (s4, n4) = resume(plan, s3, Outcome::Unit);
            let (s5, n5) = resume(plan, s4, Outcome::Unit);
            let (s6, n6) = resume(plan, s5, Outcome::Unit);
            &&& n2 == NextView::Do(StepView::ImageExists(catalog::service_image(kind)))
            &&& n3 == NextView::Do(StepView::Pull(catalog::service_image(kind)))
            &&& n4 == NextView::Do(StepView::CreateDir(service_volume_dir(kind, data_root)))
            &&& n5 == NextView::Do(StepView::Run(service_spec(kind, data_root)))
            &&& n6 == NextView::Finish(Ok(()))
        }),
{
    let plan = start_plan(kind, data_root);
    assert(emit(plan, 2, false).1 == NextView::Finish(Ok(())));
}

/// Stopping a service that does not run, or removing one that does not
/// exist, does nothing after the status query.
pub proof fn stop_and_remove_are_idempotent(kind: ServiceKind, state: ContainerState)
    ensures
        ({
            let plan = seq![InstrView::StopIfRunning(service_container_name(kind))];
            let (s0, n0) = emit(plan, 0, false);
            state != ContainerState::Running ==> resume(plan, s0, Outcome::State(state)).1 == NextView::Finish(Ok(()))
        }),
        ({
            let plan = seq![InstrView::RemoveIfExists(service_container_name(kind))];
            let (s0, n0) = emit(plan, 0, false);
            resume(plan, s0, Outcome::State(ContainerState::NotFound)).1 == NextView::Finish(Ok(()))
        }),
{
    let p1 = seq![InstrView::StopIfRunning(service_container_name(kind))];
    let p2 = seq![InstrView::RemoveIfExists(service_container_name(kind))];
    assert(emit(p1, 1, false).1 == NextView::Finish(Ok(())));
    assert(emit(p2, 1, false).1 == NextView::Finish(Ok(())));
}

} // verus!
