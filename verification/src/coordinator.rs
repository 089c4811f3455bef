//! The rebuild coordinator: the decisions of the rebuild-on-change loop.
//!
//! The coordinator performs no work itself. It is told what happened (a
//! debounced tick, a report from the build task, a request to stop) and
//! answers with its next state and with what is to be done about it: which
//! build task to abandon, which processes to terminate, which build task to
//! start. The caller does that work and reports back.
//!
//! `B` is the handle by which a running build subprocess can be terminated,
//! `S` the handle of the managed server process.

use vstd::prelude::*;
use crate::registry::Registry;

verus! {

/// How far a build task has got.
pub enum Stage<B> {
    /// Started, no build subprocess reported yet.
    Pending,
    /// Its build subprocess is running.
    Compiling(B),
    /// The build succeeded; the server process is being spawned.
    Launching,
}

impl<B> Stage<B> {
    /// The build subprocess that runs at this stage, if one does.
    pub open spec fn subprocess(self) -> Option<B> {
        match self {
            Stage::Compiling(b) => Some(b),
            _ => None,
        }
    }

    /// Gives up the stage for the build subprocess that runs in it.
    pub fn into_subprocess(self) -> (subprocess: Option<B>)
        ensures
            subprocess == self.subprocess(),
    {
        match self {
            Stage::Compiling(b) => Some(b),
            _ => None,
        }
    }

    /// Whether the build subprocess is still to be spawned.
    pub fn is_pending(&self) -> (pending: bool)
        ensures
            pending == (self is Pending),
    {
        match self {
            Stage::Pending => true,
            _ => false,
        }
    }

    /// Whether the build subprocess is running.
    pub fn is_compiling(&self) -> (compiling: bool)
        ensures
            compiling == (self is Compiling),
    {
        match self {
            Stage::Compiling(_) => true,
            _ => false,
        }
    }

    /// Whether the server process is being spawned.
    pub fn is_launching(&self) -> (launching: bool)
        ensures
            launching == (self is Launching),
    {
        match self {
            Stage::Launching => true,
            _ => false,
        }
    }
}

/// A build task in flight: "compile, then if successful spawn the server".
pub struct BuildTask<B> {
    /// Its number: build tasks are numbered from one in the order in
    /// which they are started.
    pub id: u64,
    /// How far it has got.
    pub stage: Stage<B>,
}

/// Where the coordinator stands.
#[derive(Clone, Copy, Debug, PartialEq, Eq, Structural)]
pub enum Phase {
    /// No build task in flight, no managed process.
    Idle,
    /// A build task is in flight; the previous managed process is gone.
    Building,
    /// The managed process is stored in the registry.
    Running,
    /// Stopped for good.
    Stopped,
}

/// The step of a build task that failed.
#[derive(Clone, Copy, Debug, PartialEq, Eq, Structural)]
pub enum FailedStep {
    /// The build collaborator reported a failure.
    Build,
    /// The run collaborator could not spawn the server.
    Run,
}

/// What the coordinator is told.
pub enum Event<B, S> {
    /// A debounced tick: rebuild now.
    Tick,
    /// Build task `id` has spawned its build subprocess.
    BuildSpawned { id: u64, subprocess: B },
    /// The build subprocess of build task `id` has ended.
    BuildFinished { id: u64, success: bool },
    /// The run collaborator has returned to build task `id`, with the
    /// server process it spawned or with nothing where it failed.
    RunFinished { id: u64, spawned: Option<S> },
    /// The supervisor is being stopped.
    Stop,
}

/// What the caller is to do after an event.
pub struct Effects<B, S> {
    /// The build task to abandon.
    pub cancelled: Option<u64>,
    /// The build subprocess to terminate.
    pub kill_build: Option<B>,
    /// The server process to terminate.
    pub kill_server: Option<S>,
    /// The build task to start.
    pub launch: Option<u64>,
    /// The build task that is to go on and call the run collaborator.
    pub run: Option<u64>,
    /// The failure to report to the operator.
    pub failed: Option<FailedStep>,
}

impl<B, S> Effects<B, S> {
    /// Nothing to do.
    pub open spec fn nothing() -> Self {
        Effects {
            cancelled: None,
            kill_build: None,
            kill_server: None,
            launch: None,
            run: None,
            failed: None,
        }
    }

    /// Nothing to do.
    pub fn none() -> (effects: Self)
        ensures
            effects == Self::nothing(),
    {
        Effects {
            cancelled: None,
            kill_build: None,
            kill_server: None,
            launch: None,
            run: None,
            failed: None,
        }
    }
}

/// What a `Coordinator` is, as plain values.
pub struct CoordinatorView<B, S> {
    /// Whether the coordinator has been stopped.
    pub stopped: bool,
    /// How many build tasks have been started so far.
    pub launched: u64,
    /// The build task in flight.
    pub task: Option<BuildTask<B>>,
    /// The managed process that the registry holds.
    pub occupant: Option<S>,
}

impl<B, S> CoordinatorView<B, S> {
    /// The state at the start: idle, nothing started, the registry empty.
    pub open spec fn initial() -> Self {
        CoordinatorView { stopped: false, launched: 0, task: None, occupant: None }
    }

    /// What holds of every state that the coordinator reaches: the build
    /// task in flight is the one started last, the registry is empty while
    /// a build task is in flight, and a stopped coordinator holds nothing.
    pub open spec fn wf(self) -> bool {
        &&& self.task matches Some(t) ==> t.id == self.launched && self.occupant is None
        &&& self.stopped ==> self.task is None && self.occupant is None
    }

    /// Where the coordinator stands.
    pub open spec fn phase(self) -> Phase {
        if self.stopped {
            Phase::Stopped
        } else if self.task is Some {
            Phase::Building
        } else if self.occupant is Some {
            Phase::Running
        } else {
            Phase::Idle
        }
    }

    /// Build task `id` is in flight.
    pub open spec fn in_flight(self, id: u64) -> bool {
        self.task matches Some(t) && t.id == id
    }

    /// The number of the build task that the next tick starts: one more
    /// than that of the last, as long as there is such a number.
    pub open spec fn next_id(self) -> u64 {
        if self.launched < u64::MAX {
            (self.launched + 1) as u64
        } else {
            u64::MAX
        }
    }

    /// The state after a tick. The build task in flight is abandoned, the
    /// registry is emptied and a new build task is in flight.
    pub open spec fn after_tick(self) -> Self {
        if self.stopped {
            self
        } else {
            CoordinatorView {
                stopped: false,
                launched: self.next_id(),
                task: Some(BuildTask { id: self.next_id(), stage: Stage::Pending }),
                occupant: None,
            }
        }
    }

    /// What a tick asks for: the build task in flight is cancelled and its
    /// build subprocess, if it runs, terminated; the managed process is
    /// terminated; then a new build task is started.
    pub open spec fn tick_effects(self) -> Effects<B, S> {
        if self.stopped {
            Effects::nothing()
        } else {
            Effects {
                cancelled: match self.task {
                    Some(t) => Some(t.id),
                    None => None,
                },
                kill_build: match self.task {
                    Some(t) => t.stage.subprocess(),
                    None => None,
                },
                kill_server: self.occupant,
                launch: Some(self.next_id()),
                run: None,
                failed: None,
            }
        }
    }

    /// The report that build task `id` has spawned its build subprocess is
    /// taken: the task is in flight and was waiting to spawn it.
    pub open spec fn takes_build_spawned(self, id: u64) -> bool {
        self.task matches Some(t) && t.id == id && t.stage is Pending
    }

    /// The state after build task `id` reported its build subprocess.
    pub open spec fn after_build_spawned(self, id: u64, subprocess: B) -> Self {
        if self.takes_build_spawned(id) {
            CoordinatorView {
                task: Some(BuildTask { id, stage: Stage::Compiling(subprocess) }),
                ..self
            }
        } else {
            self
        }
    }

    /// What the report of a build subprocess asks for: nothing where it is
    /// taken; else the subprocess belongs to no build task in flight and is
    /// terminated.
    pub open spec fn build_spawned_effects(self, id: u64, subprocess: B) -> Effects<B, S> {
        if self.takes_build_spawned(id) {
            Effects::nothing()
        } else {
            Effects { kill_build: Some(subprocess), ..Effects::nothing() }
        }
    }

    /// The report that the build of task `id` has ended is taken: the task
    /// is in flight and has not yet gone on to spawn the server. The build
    /// may end before a build subprocess was reported.
    pub open spec fn takes_build_finished(self, id: u64) -> bool {
        self.task matches Some(t) && t.id == id && !(t.stage is Launching)
    }

    /// The state after the build of task `id` ended.
    pub open spec fn after_build_finished(self, id: u64, success: bool) -> Self {
        if !self.takes_build_finished(id) {
            self
        } else if success {
            CoordinatorView { task: Some(BuildTask { id, stage: Stage::Launching }), ..self }
        } else {
            CoordinatorView { task: None, ..self }
        }
    }

    /// What the end of a build asks for: after a success the task goes on
    /// to spawn the server; a failure is reported. A report that is not
    /// taken asks for nothing.
    pub open spec fn build_finished_effects(self, id: u64, success: bool) -> Effects<B, S> {
        if !self.takes_build_finished(id) {
            Effects::nothing()
        } else if success {
            Effects { run: Some(id), ..Effects::nothing() }
        } else {
            Effects { failed: Some(FailedStep::Build), ..Effects::nothing() }
        }
    }

    /// The report that the run collaborator has returned to task `id` is
    /// taken: the task is in flight and was spawning the server.
    pub open spec fn takes_run_finished(self, id: u64) -> bool {
        self.task matches Some(t) && t.id == id && t.stage is Launching
    }

    /// The state after the run collaborator returned to task `id`. The task
    /// is over; the process it spawned is stored in the registry.
    pub open spec fn after_run_finished(self, id: u64, spawned: Option<S>) -> Self {
        if !self.takes_run_finished(id) {
            self
        } else {
            CoordinatorView {
                task: None,
                occupant: if spawned is Some {
                    spawned
                } else {
                    self.occupant
                },
                ..self
            }
        }
    }

    /// What the return of the run collaborator asks for: where the report
    /// is taken, nothing after a spawn and a report to the operator after a
    /// failure; else the process belongs to an abandoned build task and is
    /// terminated.
    pub open spec fn run_finished_effects(self, id: u64, spawned: Option<S>) -> Effects<B, S> {
        if !self.takes_run_finished(id) {
            Effects { kill_server: spawned, ..Effects::nothing() }
        } else if spawned is Some {
            Effects::nothing()
        } else {
            Effects { failed: Some(FailedStep::Run), ..Effects::nothing() }
        }
    }

    /// The state after a stop: nothing in flight, nothing stored, for good.
    pub open spec fn after_stop(self) -> Self {
        CoordinatorView { stopped: true, task: None, occupant: None, ..self }
    }

    /// What a stop asks for: the build task in flight is cancelled and its
    /// build subprocess, if it runs, terminated; the managed process is
    /// terminated.
    pub open spec fn stop_effects(self) -> Effects<B, S> {
        Effects {
            cancelled: match self.task {
                Some(t) => Some(t.id),
                None => None,
            },
            kill_build: match self.task {
                Some(t) => t.stage.subprocess(),
                None => None,
            },
            kill_server: self.occupant,
            launch: None,
            run: None,
            failed: None,
        }
    }

    /// The state after `event`.
    pub open spec fn after(self, event: Event<B, S>) -> Self {
        match event {
            Event::Tick => self.after_tick(),
            Event::BuildSpawned { id, subprocess } => self.after_build_spawned(id, subprocess),
            Event::BuildFinished { id, success } => self.after_build_finished(id, success),
            Event::RunFinished { id, spawned } => self.after_run_finished(id, spawned),
            Event::Stop => self.after_stop(),
        }
    }

    /// What `event` asks for.
    pub open spec fn effects(self, event: Event<B, S>) -> Effects<B, S> {
        match event {
            Event::Tick => self.tick_effects(),
            Event::BuildSpawned { id, subprocess } => self.build_spawned_effects(id, subprocess),
            Event::BuildFinished { id, success } => self.build_finished_effects(id, success),
            Event::RunFinished { id, spawned } => self.run_finished_effects(id, spawned),
            Event::Stop => self.stop_effects(),
        }
    }
}

/// The orchestration state machine that drives rebuild-on-change.
pub struct Coordinator<B, S> {
    stopped: bool,
    launched: u64,
    task: Option<BuildTask<B>>,
    registry: Registry<S>,
}

impl<B, S> View for Coordinator<B, S> {
    type V = CoordinatorView<B, S>;

    closed spec fn view(&self) -> CoordinatorView<B, S> {
        CoordinatorView {
            stopped: self.stopped,
            launched: self.launched,
            task: self.task,
            occupant: self.registry@,
        }
    }
}

impl<B, S> Coordinator<B, S> {
    /// An idle coordinator with an empty registry.
    pub fn new() -> (coordinator: Self)
        ensures
            coordinator@ == CoordinatorView::<B, S>::initial(),
    {
        Coordinator { stopped: false, launched: 0, task: None, registry: Registry::new() }
    }

    /// Where the coordinator stands.
    pub fn phase(&self) -> (phase: Phase)
        ensures
            phase == self@.phase(),
    {
        if self.stopped {
            Phase::Stopped
        } else if self.task.is_some() {
            Phase::Building
        } else if self.registry.is_occupied() {
            Phase::Running
        } else {
            Phase::Idle
        }
    }

    /// The number of the build task in flight.
    pub fn current_build(&self) -> (id: Option<u64>)
        ensures
            id == match self@.task {
                Some(t) => Some(t.id),
                None => None,
            },
    {
        match &self.task {
            Some(t) => Some(t.id),
            None => None,
        }
    }

    /// The checkpoint of a build task before it spawns a subprocess:
    /// whether build task `id` is still the one in flight.
    pub fn is_current(&self, id: u64) -> (current: bool)
        ensures
            current == self@.in_flight(id),
    {
        match &self.task {
            Some(t) => t.id == id,
            None => false,
        }
    }

    fn abandon_task(&mut self) -> (given_up: (Option<u64>, Option<B>))
        ensures
            given_up.0 == match old(self)@.task {
                Some(t) => Some(t.id),
                None => None,
            },
            given_up.1 == match old(self)@.task {
                Some(t) => t.stage.subprocess(),
                None => None,
            },
            final(self)@ == (CoordinatorView { task: None, ..old(self)@ }),
    {
        match self.task.take() {
            Some(task) => {
                let id = task.id;
                (Some(id), task.stage.into_subprocess())
            },
            None => (None, None),
        }
    }

    /// Handles a debounced tick, in this order: the build task in flight is
    /// cancelled, the managed process is taken from the registry to be
    /// terminated, a new build task is started.
    pub fn on_tick(&mut self) -> (effects: Effects<B, S>)
        ensures
            final(self)@ == old(self)@.after_tick(),
            effects == old(self)@.tick_effects(),
    {
        if self.stopped {
            return Effects::none();
        }
        let (cancelled, kill_build) = self.abandon_task();
        let kill_server = self.registry.take();
        let id = if self.launched < u64::MAX {
            self.launched + 1
        } else {
            u64::MAX
        };
        self.launched = id;
        self.task = Some(BuildTask { id, stage: Stage::Pending });
        Effects { cancelled, kill_build, kill_server, launch: Some(id), run: None, failed: None }
    }

    /// Takes the report that build task `id` has spawned its build
    /// subprocess. The subprocess is kept with the task, or handed back to
    /// be terminated where the task is no longer waiting for it.
    pub fn on_build_spawned(&mut self, id: u64, subprocess: B) -> (effects: Effects<B, S>)
        ensures
            final(self)@ == old(self)@.after_build_spawned(id, subprocess),
            effects == old(self)@.build_spawned_effects(id, subprocess),
    {
        let taken = match &self.task {
            Some(t) => t.id == id && t.stage.is_pending(),
            None => false,
        };
        if taken {
            self.task = Some(BuildTask { id, stage: Stage::Compiling(subprocess) });
            Effects::none()
        } else {
            Effects {
                cancelled: None,
                kill_build: Some(subprocess),
                kill_server: None,
                launch: None,
                run: None,
                failed: None,
            }
        }
    }

    /// Takes the report that the build subprocess of task `id` has ended.
    /// After a success the task is told to call the run collaborator; after
    /// a failure the task is over, the failure is reported and the registry
    /// stays as it is.
    pub fn on_build_finished(&mut self, id: u64, success: bool) -> (effects: Effects<B, S>)
        ensures
            final(self)@ == old(self)@.after_build_finished(id, success),
            effects == old(self)@.build_finished_effects(id, success),
    {
        let taken = match &self.task {
            Some(t) => t.id == id && !t.stage.is_launching(),
            None => false,
        };
        if !taken {
            return Effects::none();
        }
        if success {
            self.task = Some(BuildTask { id, stage: Stage::Launching });
            Effects {
                cancelled: None,
                kill_build: None,
                kill_server: None,
                launch: None,
                run: Some(id),
                failed: None,
            }
        } else {
            self.task = None;
            Effects {
                cancelled: None,
                kill_build: None,
                kill_server: None,
                launch: None,
                run: None,
                failed: Some(FailedStep::Build),
            }
        }
    }

    /// Takes the return of the run collaborator to task `id`. The process
    /// it spawned is stored in the registry, or handed back to be
    /// terminated where the task was abandoned meanwhile; a spawn that
    /// failed is reported.
    pub fn on_run_finished(&mut self, id: u64, spawned: Option<S>) -> (effects: Effects<B, S>)
        ensures
            final(self)@ == old(self)@.after_run_finished(id, spawned),
            effects == old(self)@.run_finished_effects(id, spawned),
    {
        let taken = match &self.task {
            Some(t) => t.id == id && t.stage.is_launching(),
            None => false,
        };
        if !taken {
            return Effects {
                cancelled: None,
                kill_build: None,
                kill_server: spawned,
                launch: None,
                run: None,
                failed: None,
            };
        }
        self.task = None;
        match spawned {
            Some(process) => {
                self.registry.put(process);
                Effects::none()
            },
            None => Effects {
                cancelled: None,
                kill_build: None,
                kill_server: None,
                launch: None,
                run: None,
                failed: Some(FailedStep::Run),
            },
        }
    }

    /// Stops the coordinator for good: the build task in flight is
    /// cancelled and the managed process is taken from the registry to be
    /// terminated.
    pub fn stop(&mut self) -> (effects: Effects<B, S>)
        ensures
            final(self)@ == old(self)@.after_stop(),
            effects == old(self)@.stop_effects(),
    {
        let (cancelled, kill_build) = self.abandon_task();
        let kill_server = self.registry.take();
        self.stopped = true;
        Effects { cancelled, kill_build, kill_server, launch: None, run: None, failed: None }
    }

    /// Handles one event: from state and event to next state and effects.
    pub fn handle(&mut self, event: Event<B, S>) -> (effects: Effects<B, S>)
        ensures
            final(self)@ == old(self)@.after(event),
            effects == old(self)@.effects(event),
    {
        match event {
            Event::Tick => self.on_tick(),
            Event::BuildSpawned { id, subprocess } => self.on_build_spawned(id, subprocess),
            Event::BuildFinished { id, success } => self.on_build_finished(id, success),
            Event::RunFinished { id, spawned } => self.on_run_finished(id, spawned),
            Event::Stop => self.stop(),
        }
    }
}

} // verus!
