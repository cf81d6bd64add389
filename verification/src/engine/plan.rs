//! Workflows over the engine as plans.
//!
//! A workflow (start a service, start the web environment, ...) alternates
//! engine calls with decisions on their outcomes. It is written here as a
//! plan, a list of [`Instr`]uctions, and run by a [`Runner`]: the runner
//! names the next [`Step`] to perform, the caller performs it and hands back
//! the [`Outcome`], and the runner decides what comes next, until it
//! finishes with the workflow's result.
use vstd::prelude::*;

use crate::text::strings_view;
use super::{
    copy_spec, copy_strings, ContainerSpec, ContainerSpecView, ContainerState, EngineError, EngineResult, PortMapping,
    RestartPolicy, NETWORK_NAME,
};
use crate::text::owned;

verus! {

/// One operation on the engine or the host.
pub enum Step {
    /// Make sure the shared network exists.
    EnsureNetwork,
    /// Ask for a container's state.
    Status(String),
    /// Start an existing container.
    Start(String),
    /// Stop a container.
    Stop(String),
    /// Restart a container.
    Restart(String),
    /// Remove a container forcibly (also when it runs).
    Remove(String),
    /// Ask whether an image is present.
    ImageExists(String),
    /// Pull an image.
    Pull(String),
    /// Create and start a container.
    Run(ContainerSpec),
    /// Run a command inside a container.
    Exec(String, Vec<String>),
    /// Create a directory with its parents (a failure is only logged).
    CreateDir(String),
    /// Delete a directory tree if it exists (a failure is only logged).
    RemoveDir(String),
    /// Write a file, replacing it (a failure is only logged).
    WriteFile(String, String),
    /// Delete a file if it exists (a failure is only logged).
    RemoveFile(String),
}

/// The mathematical content of a [`Step`].
pub enum StepView {
    EnsureNetwork,
    Status(Seq<char>),
    Start(Seq<char>),
    Stop(Seq<char>),
    Restart(Seq<char>),
    Remove(Seq<char>),
    ImageExists(Seq<char>),
    Pull(Seq<char>),
    Run(ContainerSpecView),
    Exec(Seq<char>, Seq<Seq<char>>),
    CreateDir(Seq<char>),
    RemoveDir(Seq<char>),
    WriteFile(Seq<char>, Seq<char>),
    RemoveFile(Seq<char>),
}

impl View for Step {
    type V = StepView;

    open spec fn view(&self) -> StepView {
        match self {
            Step::EnsureNetwork => StepView::EnsureNetwork,
            Step::Status(n) => StepView::Status(n@),
            Step::Start(n) => StepView::Start(n@),
            Step::Stop(n) => StepView::Stop(n@),
            Step::Restart(n) => StepView::Restart(n@),
            Step::Remove(n) => StepView::Remove(n@),
            Step::ImageExists(i) => StepView::ImageExists(i@),
            Step::Pull(i) => StepView::Pull(i@),
            Step::Run(s) => StepView::Run(s@),
            Step::Exec(n, c) => StepView::Exec(n@, strings_view(c@)),
            Step::CreateDir(d) => StepView::CreateDir(d@),
            Step::RemoveDir(d) => StepView::RemoveDir(d@),
            Step::WriteFile(f, c) => StepView::WriteFile(f@, c@),
            Step::RemoveFile(f) => StepView::RemoveFile(f@),
        }
    }
}

/// An instruction of a plan.
pub enum Instr {
    /// Perform the step; a failure ends the workflow with that error.
    Call(Step),
    /// Perform the step; a failure is ignored (best effort).
    Try(Step),
    /// Bring the container of the specification up: nothing if it runs,
    /// start it if it is stopped; if it does not exist, pull the image when
    /// it is missing, create the directory if one is given, and run it.
    /// Every engine failure ends the workflow.
    EnsureUp(ContainerSpec, Option<String>),
    /// Stop the container if it is running.
    StopIfRunning(String),
    /// Remove the container (forcibly) unless it does not exist.
    RemoveIfExists(String),
    /// Note whether the container is running.
    Probe(String),
    /// End the workflow successfully unless the last probed container was
    /// running.
    FinishUnlessRunning,
    /// If the last probed container was running, perform the step; a
    /// failure is ignored.
    TryIfRunning(Step),
}

/// The mathematical content of an [`Instr`].
pub enum InstrView {
    Call(StepView),
    Try(StepView),
    EnsureUp(ContainerSpecView, Option<Seq<char>>),
    StopIfRunning(Seq<char>),
    RemoveIfExists(Seq<char>),
    Probe(Seq<char>),
    FinishUnlessRunning,
    TryIfRunning(StepView),
}

impl View for Instr {
    type V = InstrView;

    open spec fn view(&self) -> InstrView {
        match self {
            Instr::Call(s) => InstrView::Call(s@),
            Instr::Try(s) => InstrView::Try(s@),
            Instr::EnsureUp(s, d) => InstrView::EnsureUp(
                s@,
                match d {
                    Some(x) => Some(x@),
                    None => None,
                },
            ),
            Instr::StopIfRunning(n) => InstrView::StopIfRunning(n@),
            Instr::RemoveIfExists(n) => InstrView::RemoveIfExists(n@),
            Instr::Probe(n) => InstrView::Probe(n@),
            Instr::FinishUnlessRunning => InstrView::FinishUnlessRunning,
            Instr::TryIfRunning(s) => InstrView::TryIfRunning(s@),
        }
    }
}

/// The views of a plan.
pub open spec fn plan_view(p: Seq<Instr>) -> Seq<InstrView> {
    Seq::new(p.len(), |i: int| p[i]@)
}

/// What came of a step.
#[derive(Debug)]
pub enum Outcome {
    /// It succeeded without a value (and every host step reports this).
    Unit,
    /// The state of the container asked for.
    State(ContainerState),
    /// Whether the image asked for is present.
    Present(bool),
    /// The output of `run` or `exec`.
    Output(String),
    /// The engine failed.
    Failed(EngineError),
}

/// What the workflow needs next.
pub enum Next {
    /// Perform this step and hand back its outcome.
    Do(Step),
    /// The workflow is over, with this result.
    Finish(EngineResult<()>),
}

/// The mathematical content of a [`Next`].
pub enum NextView {
    Do(StepView),
    Finish(Result<(), EngineError>),
}

impl View for Next {
    type V = NextView;

    open spec fn view(&self) -> NextView {
        match self {
            Next::Do(s) => NextView::Do(s@),
            Next::Finish(r) => NextView::Finish(*r),
        }
    }
}

/// Which part of the current instruction awaits an outcome.
#[derive(Debug, Clone, Copy, PartialEq, Eq, Structural)]
pub enum Pending {
    /// Nothing (the runner has not started or has finished).
    Idle,
    /// The step of `Call`, `Try` or `TryIfRunning`.
    Simple,
    /// `EnsureUp`: the state, the start, the image check, the pull, the
    /// directory, the run.
    UpStatus,
    UpStart,
    UpImage,
    UpPull,
    UpDir,
    UpRun,
    /// `StopIfRunning`: the state, the stop.
    StopStatus,
    StopStop,
    /// `RemoveIfExists`: the state, the removal.
    RemoveStatus,
    RemoveRemove,
    /// `Probe`: the state.
    ProbeStatus,
}

/// Whether an instruction emits nothing and is passed over.
pub open spec fn passed_over(i: InstrView, running: bool) -> bool {
    match i {
        InstrView::FinishUnlessRunning => running,
        InstrView::TryIfRunning(_) => !running,
        _ => false,
    }
}

/// Where a runner stands.
pub struct RunnerState {
    pub pc: int,
    pub pending: Pending,
    pub running: bool,
    pub finished: bool,
}

/// The first thing to do from instruction `pc` on, given whether the last
/// probed container was running: instructions that emit nothing are passed
/// over, the end of the plan finishes with success.
pub open spec fn emit(plan: Seq<InstrView>, pc: int, running: bool) -> (RunnerState, NextView)
    decreases plan.len() - pc,
{
    if pc < 0 || pc >= plan.len() {
        (RunnerState { pc, pending: Pending::Idle, running, finished: true }, NextView::Finish(Ok(())))
    } else {
        match plan[pc] {
            InstrView::Call(s) => (RunnerState { pc, pending: Pending::Simple, running, finished: false }, NextView::Do(s)),
            InstrView::Try(s) => (RunnerState { pc, pending: Pending::Simple, running, finished: false }, NextView::Do(s)),
            InstrView::EnsureUp(spec, _) => (
                RunnerState { pc, pending: Pending::UpStatus, running, finished: false },
                NextView::Do(StepView::Status(spec.name)),
            ),
            InstrView::StopIfRunning(n) => (
                RunnerState { pc, pending: Pending::StopStatus, running, finished: false },
                NextView::Do(StepView::Status(n)),
            ),
            InstrView::RemoveIfExists(n) => (
                RunnerState { pc, pending: Pending::RemoveStatus, running, finished: false },
                NextView::Do(StepView::Status(n)),
            ),
            InstrView::Probe(n) => (
                RunnerState { pc, pending: Pending::ProbeStatus, running, finished: false },
                NextView::Do(StepView::Status(n)),
            ),
            InstrView::FinishUnlessRunning => if running {
                emit(plan, pc + 1, running)
            } else {
                (RunnerState { pc, pending: Pending::Idle, running, finished: true }, NextView::Finish(Ok(())))
            },
            InstrView::TryIfRunning(s) => if running {
                (RunnerState { pc, pending: Pending::Simple, running, finished: false }, NextView::Do(s))
            } else {
                emit(plan, pc + 1, running)
            },
        }
    }
}

/// The end of the workflow with an error.
pub open spec fn fail(st: RunnerState, e: EngineError) -> (RunnerState, NextView) {
    (RunnerState { pc: st.pc, pending: Pending::Idle, running: st.running, finished: true }, NextView::Finish(Err(e)))
}

/// The same instruction, awaiting `pending` after `step`.
pub open spec fn stay(st: RunnerState, pending: Pending, step: StepView) -> (RunnerState, NextView) {
    (RunnerState { pc: st.pc, pending, running: st.running, finished: false }, NextView::Do(step))
}

/// After the image of `EnsureUp` is known present: the directory if one is
/// given, else the run.
pub open spec fn after_image(st: RunnerState, spec: ContainerSpecView, dir: Option<Seq<char>>) -> (RunnerState, NextView) {
    match dir {
        Some(d) => stay(st, Pending::UpDir, StepView::CreateDir(d)),
        None => stay(st, Pending::UpRun, StepView::Run(spec)),
    }
}

/// Whether an outcome can answer what is pending: a state for a state
/// query, a presence for an image check (or a failure in both cases).
pub open spec fn fits(pending: Pending, o: Outcome) -> bool {
    match pending {
        Pending::UpStatus | Pending::StopStatus | Pending::RemoveStatus | Pending::ProbeStatus => o is State || o is Failed,
        Pending::UpImage => o is Present || o is Failed,
        _ => true,
    }
}

/// What the runner does with the outcome of the pending step.
pub open spec fn resume(plan: Seq<InstrView>, st: RunnerState, o: Outcome) -> (RunnerState, NextView) {
    let next = emit(plan, st.pc + 1, st.running);
    match plan[st.pc] {
        InstrView::Call(_) => match o {
            Outcome::Failed(e) => fail(st, e),
            _ => next,
        },
        InstrView::Try(_) | InstrView::TryIfRunning(_) => next,
        InstrView::EnsureUp(spec, dir) => match st.pending {
            Pending::UpStatus => match o {
                Outcome::State(ContainerState::Running) => next,
                Outcome::State(ContainerState::Stopped) => stay(st, Pending::UpStart, StepView::Start(spec.name)),
                Outcome::State(ContainerState::NotFound) => stay(st, Pending::UpImage, StepView::ImageExists(spec.image)),
                Outcome::Failed(e) => fail(st, e),
                _ => next,
            },
            Pending::UpImage => match o {
                Outcome::Present(true) => after_image(st, spec, dir),
                Outcome::Present(false) => stay(st, Pending::UpPull, StepView::Pull(spec.image)),
                Outcome::Failed(e) => fail(st, e),
                _ => next,
            },
            Pending::UpPull => match o {
                Outcome::Failed(e) => fail(st, e),
                _ => after_image(st, spec, dir),
            },
            Pending::UpDir => stay(st, Pending::UpRun, StepView::Run(spec)),
            _ => match o {
                Outcome::Failed(e) => fail(st, e),
                _ => next,
            },
        },
        InstrView::StopIfRunning(n) => match st.pending {
            Pending::StopStatus => match o {
                Outcome::State(ContainerState::Running) => stay(st, Pending::StopStop, StepView::Stop(n)),
                Outcome::Failed(e) => fail(st, e),
                _ => next,
            },
            _ => match o {
                Outcome::Failed(e) => fail(st, e),
                _ => next,
            },
        },
        InstrView::RemoveIfExists(n) => match st.pending {
            Pending::RemoveStatus => match o {
                Outcome::State(ContainerState::NotFound) => next,
                Outcome::Failed(e) => fail(st, e),
                _ => stay(st, Pending::RemoveRemove, StepView::Remove(n)),
            },
            _ => match o {
                Outcome::Failed(e) => fail(st, e),
                _ => next,
            },
        },
        InstrView::Probe(_) => match o {
            Outcome::Failed(e) => fail(st, e),
            Outcome::State(s) => emit(plan, st.pc + 1, s == ContainerState::Running),
            _ => next,
        },
        InstrView::FinishUnlessRunning => next,
    }
}

/// Runs a plan: names the steps and decides on their outcomes.
pub struct Runner {
    plan: Vec<Instr>,
    pc: usize,
    pending: Pending,
    running: bool,
    finished: bool,
}

impl Runner {
    /// The plan being run.
    pub closed spec fn spec_plan(&self) -> Seq<InstrView> {
        plan_view(self.plan@)
    }

    /// Where the runner stands.
    pub closed spec fn spec_state(&self) -> RunnerState {
        RunnerState { pc: self.pc as int, pending: self.pending, running: self.running, finished: self.finished }
    }

    /// Whether the runner waits for the outcome of a step.
    pub open spec fn awaiting(&self) -> bool {
        !self.spec_state().finished && 0 <= self.spec_state().pc < self.spec_plan().len()
    }

    /// Emits from `pc` on (see [`emit`]).
    fn emit_from(&mut self, pc: usize) -> (n: Next)
        requires
            pc <= old(self).plan@.len(),
        ensures
            final(self).spec_plan() == old(self).spec_plan(),
            (final(self).spec_state(), n@) == emit(old(self).spec_plan(), pc as int, old(self).running),
            !final(self).spec_state().finished ==> final(self).spec_state().pc < final(self).spec_plan().len(),
    {
        let ghost plan = self.spec_plan();
        let ghost running = self.running;
        let mut i = pc;
        while i < self.plan.len()
            invariant
                pc <= i <= self.plan@.len(),
                plan == self.spec_plan(),
                running == self.running,
                emit(plan, pc as int, running) == emit(plan, i as int, running),
            ensures
                pc <= i <= self.plan@.len(),
                plan == self.spec_plan(),
                running == self.running,
                emit(plan, pc as int, running) == emit(plan, i as int, running),
                i < self.plan@.len() ==> !passed_over(plan[i as int], running),
            decreases self.plan@.len() - i,
        {
            assert(plan[i as int] == self.plan@[i as int]@);
            let skip = match &self.plan[i] {
                Instr::FinishUnlessRunning => self.running,
                Instr::TryIfRunning(_) => !self.running,
                _ => false,
            };
            if !skip {
                break;
            }
            i = i + 1;
        }
        self.pc = i;
        if i >= self.plan.len() {
            self.pending = Pending::Idle;
            self.finished = true;
            return Next::Finish(Ok(()));
        }
        assert(plan[i as int] == self.plan@[i as int]@);
        match &self.plan[i] {
            Instr::Call(s) => {
                self.pending = Pending::Simple;
                self.finished = false;
                Next::Do(copy_step(s))
            },
            Instr::Try(s) => {
                self.pending = Pending::Simple;
                self.finished = false;
                Next::Do(copy_step(s))
            },
            Instr::TryIfRunning(s) => {
                self.pending = Pending::Simple;
                self.finished = false;
                Next::Do(copy_step(s))
            },
            Instr::EnsureUp(spec, _) => {
                self.pending = Pending::UpStatus;
                self.finished = false;
                Next::Do(Step::Status(owned(spec.name.as_str())))
            },
            Instr::StopIfRunning(n) => {
                self.pending = Pending::StopStatus;
                self.finished = false;
                Next::Do(Step::Status(owned(n.as_str())))
            },
            Instr::RemoveIfExists(n) => {
                self.pending = Pending::RemoveStatus;
                self.finished = false;
                Next::Do(Step::Status(owned(n.as_str())))
            },
            Instr::Probe(n) => {
                self.pending = Pending::ProbeStatus;
                self.finished = false;
                Next::Do(Step::Status(owned(n.as_str())))
            },
            Instr::FinishUnlessRunning => {
                self.pending = Pending::Idle;
                self.finished = true;
                Next::Finish(Ok(()))
            },
        }
    }

    /// Starts running `plan`: the runner and the first thing to do.
    pub fn start(plan: Vec<Instr>) -> (r: (Runner, Next))
        ensures
            r.0.spec_plan() == plan_view(plan@),
            (r.0.spec_state(), r.1@) == emit(plan_view(plan@), 0, false),
            !r.0.spec_state().finished ==> r.0.awaiting(),
    {
        let mut runner = Runner { plan, pc: 0, pending: Pending::Idle, running: false, finished: false };
        let n = runner.emit_from(0);
        (runner, n)
    }

    /// Whether `o` can answer the pending step (see [`fits`]).
    pub fn accepts(&self, o: &Outcome) -> (b: bool)
        ensures
            b == fits(self.spec_state().pending, *o),
    {
        match self.pending {
            Pending::UpStatus | Pending::StopStatus | Pending::RemoveStatus | Pending::ProbeStatus => match o {
                Outcome::State(_) | Outcome::Failed(_) => true,
                _ => false,
            },
            Pending::UpImage => match o {
                Outcome::Present(_) | Outcome::Failed(_) => true,
                _ => false,
            },
            _ => true,
        }
    }

    /// Hands back the outcome of the pending step and returns what comes
    /// next (see [`resume`]).
    pub fn resume(&mut self, o: Outcome) -> (n: Next)
        requires
            old(self).awaiting(),
            fits(old(self).spec_state().pending, o),
        ensures
            final(self).spec_plan() == old(self).spec_plan(),
            (final(self).spec_state(), n@) == resume(old(self).spec_plan(), old(self).spec_state(), o),
            !final(self).spec_state().finished ==> final(self).awaiting(),
    {
        let ghost plan = self.spec_plan();
        let ghost st = self.spec_state();
        let len = self.plan.len();
        let pc = self.pc;
        assert(plan[pc as int] == self.plan@[pc as int]@);
        let action: u8 = match &self.plan[pc] {
            Instr::Call(_) => 0,
            Instr::Try(_) => 1,
            Instr::TryIfRunning(_) => 1,
            Instr::EnsureUp(_, _) => 2,
            Instr::StopIfRunning(_) => 3,
            Instr::RemoveIfExists(_) => 4,
            Instr::Probe(_) => 5,
            Instr::FinishUnlessRunning => 1,
        };
        if action == 0 {
            match o {
                Outcome::Failed(e) => self.fail(e),
                _ => self.emit_from(pc + 1),
            }
        } else if action == 1 {
            self.emit_from(pc + 1)
        } else if action == 2 {
            self.resume_up(o)
        } else if action == 3 {
            match (self.pending, o) {
                (Pending::StopStatus, Outcome::State(ContainerState::Running)) => {
                    let name = match &self.plan[pc] {
                        Instr::StopIfRunning(n) => owned(n.as_str()),
                        _ => owned(""),
                    };
                    self.pending = Pending::StopStop;
                    Next::Do(Step::Stop(name))
                },
                (_, Outcome::Failed(e)) => self.fail(e),
                _ => self.emit_from(pc + 1),
            }
        } else if action == 4 {
            match (self.pending, o) {
                (Pending::RemoveStatus, Outcome::State(ContainerState::NotFound)) => self.emit_from(pc + 1),
                (_, Outcome::Failed(e)) => self.fail(e),
                (Pending::RemoveStatus, _) => {
                    let name = match &self.plan[pc] {
                        Instr::RemoveIfExists(n) => owned(n.as_str()),
                        _ => owned(""),
                    };
                    self.pending = Pending::RemoveRemove;
                    Next::Do(Step::Remove(name))
                },
                _ => self.emit_from(pc + 1),
            }
        } else {
            match o {
                Outcome::Failed(e) => self.fail(e),
                Outcome::State(s) => {
                    self.running = match s {
                        ContainerState::Running => true,
                        _ => false,
                    };
                    self.emit_from(pc + 1)
                },
                _ => self.emit_from(pc + 1),
            }
        }
    }

    /// Ends the workflow with an error.
    fn fail(&mut self, e: EngineError) -> (n: Next)
        ensures
            final(self).spec_plan() == old(self).spec_plan(),
            (final(self).spec_state(), n@) == fail(old(self).spec_state(), e),
    {
        self.pending = Pending::Idle;
        self.finished = true;
        Next::Finish(Err(e))
    }

    /// The outcome of a step of `EnsureUp`.
    fn resume_up(&mut self, o: Outcome) -> (n: Next)
        requires
            old(self).awaiting(),
            old(self).spec_plan()[old(self).spec_state().pc] is EnsureUp,
        ensures
            final(self).spec_plan() == old(self).spec_plan(),
            (final(self).spec_state(), n@) == resume(old(self).spec_plan(), old(self).spec_state(), o),
            !final(self).spec_state().finished ==> final(self).awaiting(),
    {
        let ghost plan = self.spec_plan();
        let len = self.plan.len();
        let pc = self.pc;
        assert(plan[pc as int] == self.plan@[pc as int]@);
        let (spec, dir) = match &self.plan[pc] {
            Instr::EnsureUp(s, d) => (copy_spec(s), match d {
                Some(x) => Some(owned(x.as_str())),
                None => None,
            }),
            _ => (copy_spec_placeholder(), None),
        };
        match self.pending {
            Pending::UpStatus => match o {
                Outcome::State(ContainerState::Running) => self.emit_from(pc + 1),
                Outcome::State(ContainerState::Stopped) => {
                    self.pending = Pending::UpStart;
                    Next::Do(Step::Start(spec.name))
                },
                Outcome::State(ContainerState::NotFound) => {
                    self.pending = Pending::UpImage;
                    Next::Do(Step::ImageExists(spec.image))
                },
                Outcome::Failed(e) => self.fail(e),
                _ => self.emit_from(pc + 1),
            },
            Pending::UpImage => match o {
                Outcome::Present(true) => self.after_image(spec, dir),
                Outcome::Present(false) => {
                    self.pending = Pending::UpPull;
                    Next::Do(Step::Pull(spec.image))
                },
                Outcome::Failed(e) => self.fail(e),
                _ => self.emit_from(pc + 1),
            },
            Pending::UpPull => match o {
                Outcome::Failed(e) => self.fail(e),
                _ => self.after_image(spec, dir),
            },
            Pending::UpDir => {
                self.pending = Pending::UpRun;
                Next::Do(Step::Run(spec))
            },
            _ => match o {
                Outcome::Failed(e) => self.fail(e),
                _ => self.emit_from(pc + 1),
            },
        }
    }

    /// After the image is known present (see [`after_image`]).
    fn after_image(&mut self, spec: ContainerSpec, dir: Option<String>) -> (n: Next)
        ensures
            final(self).spec_plan() == old(self).spec_plan(),
            (final(self).spec_state(), n@) == after_image(
                old(self).spec_state(),
                spec@,
                match dir {
                    Some(x) => Some(x@),
                    None => None,
                },
            ),
    {
        self.finished = false;
        match dir {
            Some(d) => {
                self.pending = Pending::UpDir;
                Next::Do(Step::CreateDir(d))
            },
            None => {
                self.pending = Pending::UpRun;
                Next::Do(Step::Run(spec))
            },
        }
    }
}

/// A placeholder specification for branches that cannot be taken: the
/// defaults of [`ContainerSpec::new`] with an empty name and image.
fn copy_spec_placeholder() -> (s: ContainerSpec)
    ensures
        s@ == (ContainerSpecView {
            name: Seq::<char>::empty(),
            image: Seq::<char>::empty(),
            ports: Seq::<PortMapping>::empty(),
            volumes: Seq::<(Seq<char>, Seq<char>, bool, bool)>::empty(),
            env: Seq::<(Seq<char>, Seq<char>)>::empty(),
            restart: RestartPolicy::UnlessStopped,
            command: Seq::<Seq<char>>::empty(),
            network: NETWORK_NAME@,
        }),
{
    proof {
        reveal_strlit("");
    }
    let s = ContainerSpec::new("", "");
    assert(s@.name =~= Seq::<char>::empty());
    assert(s@.image =~= Seq::<char>::empty());
    assert(s@.ports =~= Seq::<PortMapping>::empty());
    assert(s@.volumes =~= Seq::<(Seq<char>, Seq<char>, bool, bool)>::empty());
    assert(s@.env =~= Seq::<(Seq<char>, Seq<char>)>::empty());
    assert(s@.command =~= Seq::<Seq<char>>::empty());
    s
}

/// A copy of a step.
pub fn copy_step(s: &Step) -> (r: Step)
    ensures
        r@ == s@,
{
    match s {
        Step::EnsureNetwork => Step::EnsureNetwork,
        Step::Status(n) => Step::Status(owned(n.as_str())),
        Step::Start(n) => Step::Start(owned(n.as_str())),
        Step::Stop(n) => Step::Stop(owned(n.as_str())),
        Step::Restart(n) => Step::Restart(owned(n.as_str())),
        Step::Remove(n) => Step::Remove(owned(n.as_str())),
        Step::ImageExists(i) => Step::ImageExists(owned(i.as_str())),
        Step::Pull(i) => Step::Pull(owned(i.as_str())),
        Step::Run(spec) => Step::Run(copy_spec(spec)),
        Step::Exec(n, c) => Step::Exec(owned(n.as_str()), copy_strings(c)),
        Step::CreateDir(d) => Step::CreateDir(owned(d.as_str())),
        Step::RemoveDir(d) => Step::RemoveDir(owned(d.as_str())),
        Step::WriteFile(f, c) => Step::WriteFile(owned(f.as_str()), owned(c.as_str())),
        Step::RemoveFile(f) => Step::RemoveFile(owned(f.as_str())),
    }
}


/// A failing step of a `Call`, and every failing engine query of the
/// container instructions, ends the workflow with exactly that error.
pub proof fn failures_end_the_workflow(plan: Seq<InstrView>, st: RunnerState, e: EngineError)
    requires
        0 <= st.pc < plan.len(),
        !(plan[st.pc] is Try || plan[st.pc] is TryIfRunning || plan[st.pc] is FinishUnlessRunning),
        !(plan[st.pc] is EnsureUp && st.pending == Pending::UpDir),
    ensures
        resume(plan, st, Outcome::Failed(e)) == fail(st, e),
{
}

/// Whether an instruction names a `Run` step directly.
pub open spec fn direct_run(i: InstrView) -> bool {
    match i {
        InstrView::Call(StepView::Run(_)) => true,
        InstrView::Try(StepView::Run(_)) => true,
        InstrView::TryIfRunning(StepView::Run(_)) => true,
        _ => false,
    }
}

/// In a plan that names no `Run` step directly, a container is only ever
/// created when its state was found to be `NotFound`: a `Run` step follows
/// only the image check, the pull or the directory creation of an
/// `EnsureUp`.
pub proof fn runs_only_after_not_found(plan: Seq<InstrView>, st: RunnerState, o: Outcome)
    requires
        0 <= st.pc < plan.len(),
        forall|k: int| 0 <= k < plan.len() ==> !direct_run(#[trigger] plan[k]),
        resume(plan, st, o).1 matches NextView::Do(StepView::Run(_)),
    ensures
        plan[st.pc] is EnsureUp,
        st.pending == Pending::UpImage || st.pending == Pending::UpPull || st.pending == Pending::UpDir,
{
    lemma_emit_never_runs(plan, st.pc + 1, st.running);
    match o {
        Outcome::State(s) => lemma_emit_never_runs(plan, st.pc + 1, s == ContainerState::Running),
        _ => {},
    }
}

/// In a plan that names no `Run` step directly, emitting never names one.
pub proof fn lemma_emit_never_runs(plan: Seq<InstrView>, pc: int, running: bool)
    requires
        forall|k: int| 0 <= k < plan.len() ==> !direct_run(#[trigger] plan[k]),
    ensures
        !(emit(plan, pc, running).1 matches NextView::Do(StepView::Run(_))),
    decreases plan.len() - pc,
{
    if 0 <= pc < plan.len() {
        assert(!direct_run(plan[pc]));
        match plan[pc] {
            InstrView::FinishUnlessRunning => if running {
                lemma_emit_never_runs(plan, pc + 1, running);
            },
            InstrView::TryIfRunning(_) => if !running {
                lemma_emit_never_runs(plan, pc + 1, running);
            },
            _ => {},
        }
    }
}


/// Bringing a container up creates it whenever it was found missing, with
/// the image present or not: after the image check (image present) or the
/// pull, the next step is the directory when one is given and otherwise the
/// run of the specification itself; after the directory comes the run; the
/// runner stays on the same instruction until then.
pub proof fn missing_containers_are_created(
    plan: Seq<InstrView>,
    st: RunnerState,
    spec: ContainerSpecView,
    dir: Option<Seq<char>>,
    o: Outcome,
)
    requires
        0 <= st.pc < plan.len(),
        plan[st.pc] == InstrView::EnsureUp(spec, dir),
    ensures
        st.pending == Pending::UpStatus ==> resume(plan, st, Outcome::State(ContainerState::NotFound)).1
            == NextView::Do(StepView::ImageExists(spec.image)),
        st.pending == Pending::UpImage ==> resume(plan, st, Outcome::Present(false)).1 == NextView::Do(
            StepView::Pull(spec.image),
        ),
        (st.pending == Pending::UpImage && o == Outcome::Present(true)) || (st.pending == Pending::UpPull
            && !(o is Failed)) ==> ({
            let (st2, n) = resume(plan, st, o);
            &&& st2.pc == st.pc
            &&& !st2.finished
            &&& n == match dir {
                Some(d) => NextView::Do(StepView::CreateDir(d)),
                None => NextView::Do(StepView::Run(spec)),
            }
        }),
        st.pending == Pending::UpDir ==> ({
            let (st2, n) = resume(plan, st, o);
            &&& st2.pc == st.pc
            &&& !st2.finished
            &&& n == NextView::Do(StepView::Run(spec))
        }),
{
}

} // verus!
