//! The watch-mode supervisor of the backend: what the watch sees goes
//! through the change notifier and through the debouncer, and each tick
//! that comes out drives the rebuild coordinator.
//!
//! Like the parts it is made of, the supervisor only decides. Its caller
//! owns the file-system watch, the clock and the processes: it hands in what
//! happened and carries out the effects that come back.

use vstd::prelude::*;
use crate::coordinator::{Coordinator, CoordinatorView, Effects, Event, Phase};
use crate::debounce::{Debouncer, DebouncerView};
use crate::fault::{response_to, Fault, Response};
use crate::watch::{
    ChangeKind, ChangeNotifier, ChangeNotifierView, WatchStartError, WatchTarget,
};

verus! {

/// How the backend is compiled.
#[derive(Clone, Copy, Debug, PartialEq, Eq, Structural)]
pub enum BuildMode {
    /// A development build.
    Dev,
    /// An optimised build.
    Release,
}

impl BuildMode {
    /// The mode that builds optimised code exactly if `release` is set.
    pub fn from_release(release: bool) -> (mode: Self)
        ensures
            mode == if release {
                BuildMode::Release
            } else {
                BuildMode::Dev
            },
    {
        if release {
            BuildMode::Release
        } else {
            BuildMode::Dev
        }
    }

    /// Whether the mode builds optimised code.
    pub fn is_release(self) -> (release: bool)
        ensures
            release == (self == BuildMode::Release),
    {
        match self {
            BuildMode::Release => true,
            BuildMode::Dev => false,
        }
    }
}

/// What a `BackendWatcher` is, as plain values.
pub struct BackendWatcherView<B, S> {
    /// The notifier that turns what the watch sees into change events.
    pub notifier: ChangeNotifierView,
    /// The debouncer between the change notifications and the ticks.
    pub debouncer: DebouncerView,
    /// The rebuild coordinator that the ticks drive.
    pub coordinator: CoordinatorView<B, S>,
    /// How the backend is compiled.
    pub build_mode: BuildMode,
    /// Whether the backend serves over TLS.
    pub https: bool,
}

impl<B, S> BackendWatcherView<B, S> {
    /// The state after the debouncer was asked and answered with `tick`: a
    /// tick goes on to the coordinator.
    pub open spec fn after_debounced(self, debouncer: DebouncerView, tick: Option<u64>) -> Self {
        BackendWatcherView {
            debouncer,
            coordinator: if tick is Some {
                self.coordinator.after_tick()
            } else {
                self.coordinator
            },
            ..self
        }
    }

    /// What is to be done after the debouncer answered with `tick`.
    pub open spec fn effects_of_debounced(self, tick: Option<u64>) -> Effects<B, S> {
        if tick is Some {
            self.coordinator.tick_effects()
        } else {
            Effects::nothing()
        }
    }

    /// The state after a change of kind `kind` to `path` was seen at `now`.
    pub open spec fn after_change(self, kind: ChangeKind, path: Seq<u8>, now: u64) -> Self {
        if self.notifier.signal(kind, path) is Some {
            self.after_debounced(
                self.debouncer.after_change(now),
                self.debouncer.released_by_change(now),
            )
        } else {
            self
        }
    }

    /// What a change of kind `kind` to `path`, seen at `now`, asks for.
    pub open spec fn change_effects(self, kind: ChangeKind, path: Seq<u8>, now: u64) -> Effects<
        B,
        S,
    > {
        if self.notifier.signal(kind, path) is Some {
            self.effects_of_debounced(self.debouncer.released_by_change(now))
        } else {
            Effects::nothing()
        }
    }

    /// The state after the timer was looked at, at `now`.
    pub open spec fn after_timeout(self, now: u64) -> Self {
        self.after_debounced(self.debouncer.after_timeout(now), self.debouncer.owed(now))
    }

    /// What looking at the timer at `now` asks for.
    pub open spec fn timeout_effects(self, now: u64) -> Effects<B, S> {
        self.effects_of_debounced(self.debouncer.owed(now))
    }

    /// The state at the start, for the notifier `notifier`: nothing has
    /// changed yet, nothing is being built and no process is managed.
    pub open spec fn initial(
        notifier: ChangeNotifierView,
        build_mode: BuildMode,
        https: bool,
        debounce_time: u64,
    ) -> Self {
        BackendWatcherView {
            notifier,
            debouncer: DebouncerView { window: debounce_time, armed_at: None, stopped: false },
            coordinator: CoordinatorView::initial(),
            build_mode,
            https,
        }
    }

    /// The state after a stop: the notifier, the debouncer and the
    /// coordinator are stopped for good.
    pub open spec fn after_stop(self) -> Self {
        BackendWatcherView {
            notifier: ChangeNotifierView { stopped: true, ..self.notifier },
            debouncer: DebouncerView { armed_at: None, stopped: true, ..self.debouncer },
            coordinator: self.coordinator.after_stop(),
            ..self
        }
    }
}

/// The supervisor that rebuilds and restarts the backend when its sources
/// change.
pub struct BackendWatcher<B, S> {
    notifier: ChangeNotifier,
    debouncer: Debouncer,
    coordinator: Coordinator<B, S>,
    build_mode: BuildMode,
    https: bool,
}

impl<B, S> View for BackendWatcher<B, S> {
    type V = BackendWatcherView<B, S>;

    closed spec fn view(&self) -> BackendWatcherView<B, S> {
        BackendWatcherView {
            notifier: self.notifier@,
            debouncer: self.debouncer@,
            coordinator: self.coordinator@,
            build_mode: self.build_mode,
            https: self.https,
        }
    }
}

impl<B, S> BackendWatcher<B, S> {
    /// Starts supervising. `root_exists` tells whether the directory to
    /// watch is there and `installed` whether the operating system
    /// installed the watch: unless both hold, nothing is started and the
    /// failure goes to the caller.
    pub fn start(
        target: WatchTarget,
        build_mode: BuildMode,
        https: bool,
        debounce_time: u64,
        root_exists: bool,
        installed: bool,
    ) -> (started: Result<Self, WatchStartError>)
        ensures
            !root_exists ==> started == Err::<Self, WatchStartError>(WatchStartError::RootMissing),
            root_exists && !installed ==> started == Err::<Self, WatchStartError>(
                WatchStartError::NotInstalled,
            ),
            root_exists && installed ==> started is Ok && started->Ok_0@
                == BackendWatcherView::<B, S>::initial(
                ChangeNotifierView { target: target@, stopped: false },
                build_mode,
                https,
                debounce_time,
            ),
    {
        match ChangeNotifier::start(target, root_exists, installed) {
            Ok(notifier) => Ok(
                BackendWatcher {
                    notifier,
                    debouncer: Debouncer::new(debounce_time),
                    coordinator: Coordinator::new(),
                    build_mode,
                    https,
                },
            ),
            Err(error) => Err(error),
        }
    }

    /// How the backend is compiled.
    pub fn build_mode(&self) -> (mode: BuildMode)
        ensures
            mode == self@.build_mode,
    {
        self.build_mode
    }

    /// Whether the backend serves over TLS.
    pub fn https(&self) -> (https: bool)
        ensures
            https == self@.https,
    {
        self.https
    }

    /// Where the rebuild coordinator stands.
    pub fn phase(&self) -> (phase: Phase)
        ensures
            phase == self@.coordinator.phase(),
    {
        self.coordinator.phase()
    }

    /// The checkpoint of a build task before it spawns a subprocess:
    /// whether build task `id` is still the one in flight.
    pub fn is_current(&self, id: u64) -> (current: bool)
        ensures
            current == self@.coordinator.in_flight(id),
    {
        self.coordinator.is_current(id)
    }

    /// How long the caller may sleep from `now` until the debounce timer
    /// runs out; `None` when no timer is running.
    pub fn remaining(&self, now: u64) -> (left: Option<u64>)
        ensures
            left == self@.debouncer.remaining(now),
    {
        self.debouncer.remaining(now)
    }

    fn debounced(&mut self, tick: Option<u64>) -> (effects: Effects<B, S>)
        ensures
            final(self)@ == old(self)@.after_debounced(old(self)@.debouncer, tick),
            effects == old(self)@.effects_of_debounced(tick),
    {
        match tick {
            Some(_) => self.coordinator.on_tick(),
            None => Effects::none(),
        }
    }

    /// Takes in a file-system change seen at `now`. A change that the
    /// notifier does not tell of is dropped; any other goes to the
    /// debouncer, and the tick that it lets out, if any, to the coordinator.
    pub fn on_change(&mut self, kind: ChangeKind, path: &[u8], now: u64) -> (effects: Effects<B, S>)
        ensures
            final(self)@ == old(self)@.after_change(kind, path@, now),
            effects == old(self)@.change_effects(kind, path@, now),
    {
        match self.notifier.notify(kind, path) {
            Some(_) => {
                let tick = self.debouncer.on_change(now);
                self.debounced(tick)
            },
            None => Effects::none(),
        }
    }

    /// Looks at the debounce timer at `now`; the tick that has become due,
    /// if any, goes to the coordinator.
    pub fn on_timeout(&mut self, now: u64) -> (effects: Effects<B, S>)
        ensures
            final(self)@ == old(self)@.after_timeout(now),
            effects == old(self)@.timeout_effects(now),
    {
        let tick = self.debouncer.on_timeout(now);
        self.debounced(tick)
    }

    /// Passes a report of the build task on to the coordinator.
    pub fn report(&mut self, event: Event<B, S>) -> (effects: Effects<B, S>)
        ensures
            final(self)@ == (BackendWatcherView {
                coordinator: old(self)@.coordinator.after(event),
                ..old(self)@
            }),
            effects == old(self)@.coordinator.effects(event),
    {
        self.coordinator.handle(event)
    }

    /// Stops supervising for good: no change is taken in any more, the
    /// build task in flight is cancelled and the managed process is handed
    /// back to be terminated.
    pub fn stop(&mut self) -> (effects: Effects<B, S>)
        ensures
            final(self)@ == old(self)@.after_stop(),
            effects == old(self)@.coordinator.stop_effects(),
    {
        self.notifier.stop();
        self.debouncer.stop();
        self.coordinator.stop()
    }

    /// Takes in a failure of the watch while it runs. `functional` tells
    /// whether the watch can still deliver. If it can, the failure is
    /// logged and supervising goes on; if not, no change is taken in any
    /// more and the end of the stream is reported upward. What is being
    /// built or run is left alone either way.
    pub fn on_watch_error(&mut self, functional: bool) -> (response: Response)
        ensures
            response == response_to(Fault::WatchRuntime { functional }),
            final(self)@ == (BackendWatcherView {
                notifier: ChangeNotifierView {
                    stopped: old(self)@.notifier.stopped || !functional,
                    ..old(self)@.notifier
                },
                ..old(self)@
            }),
    {
        self.notifier.on_error(functional)
    }
}

/// After a stop nothing is delivered any more: no change and no timer
/// starts a build, and stopping again asks for nothing.
pub proof fn lemma_stopped_watcher_is_silent<B, S>(
    watcher: BackendWatcherView<B, S>,
    kind: ChangeKind,
    path: Seq<u8>,
    now: u64,
)
    ensures
        watcher.after_stop().after_change(kind, path, now) == watcher.after_stop(),
        watcher.after_stop().change_effects(kind, path, now) == Effects::<B, S>::nothing(),
        watcher.after_stop().after_timeout(now) == watcher.after_stop(),
        watcher.after_stop().timeout_effects(now) == Effects::<B, S>::nothing(),
        watcher.after_stop().after_stop() == watcher.after_stop(),
        watcher.after_stop().coordinator.stop_effects() == Effects::<B, S>::nothing(),
{
}

/// A change leads to a build exactly when the debouncer lets a tick out:
/// changes outside the watch target, and changes that only restart the
/// timer, start nothing and cancel nothing.
pub proof fn lemma_only_ticks_start_builds<B, S>(
    watcher: BackendWatcherView<B, S>,
    kind: ChangeKind,
    path: Seq<u8>,
    now: u64,
)
    requires
        !watcher.coordinator.stopped,
    ensures
        watcher.change_effects(kind, path, now).launch is Some <==> watcher.notifier.signal(
            kind,
            path,
        ) is Some && watcher.debouncer.released_by_change(now) is Some,
        watcher.change_effects(kind, path, now).launch is None ==> watcher.change_effects(
            kind,
            path,
            now,
        ) == Effects::<B, S>::nothing() && watcher.after_change(kind, path, now).coordinator
            == watcher.coordinator,
        watcher.timeout_effects(now).launch is Some <==> watcher.debouncer.owed(now) is Some,
{
}

} // verus!
