//! What holds of the rebuild coordinator over whole runs of events.
//!
//! The coordinator hands process handles back to its caller to be
//! terminated and keeps at most one of each kind. The statements here
//! account for every handle and every build task: none is lost, however the
//! events fall.

use vstd::prelude::*;
use vstd::multiset::Multiset;
use crate::coordinator::{BuildTask, CoordinatorView, Effects, Event, FailedStep, Phase, Stage};

verus! {

/// The item that `slot` holds, as a bag of at most one item.
pub open spec fn held<T>(slot: Option<T>) -> Multiset<T> {
    match slot {
        Some(item) => Multiset::singleton(item),
        None => Multiset::empty(),
    }
}

/// The build subprocess that the build task in flight runs.
pub open spec fn compiling<B, S>(state: CoordinatorView<B, S>) -> Option<B> {
    match state.task {
        Some(t) => t.stage.subprocess(),
        None => None,
    }
}

/// The number of the build task in flight.
pub open spec fn in_flight<B, S>(state: CoordinatorView<B, S>) -> Option<u64> {
    match state.task {
        Some(t) => Some(t.id),
        None => None,
    }
}

/// The server process that `event` hands to the coordinator.
pub open spec fn server_handed_in<B, S>(event: Event<B, S>) -> Option<S> {
    match event {
        Event::RunFinished { id, spawned } => spawned,
        _ => None,
    }
}

/// The build subprocess that `event` hands to the coordinator.
pub open spec fn build_handed_in<B, S>(event: Event<B, S>) -> Option<B> {
    match event {
        Event::BuildSpawned { id, subprocess } => Some(subprocess),
        _ => None,
    }
}

/// The build subprocess whose end `event` reports and that the coordinator
/// lets go of on that account.
pub open spec fn build_ended<B, S>(state: CoordinatorView<B, S>, event: Event<B, S>) -> Option<B> {
    match event {
        Event::BuildFinished { id, success } => if state.takes_build_finished(id) {
            compiling(state)
        } else {
            None
        },
        _ => None,
    }
}

/// The build task that is over with `event` because its work came to an
/// end: its build failed, or the run collaborator returned to it.
pub open spec fn task_concluded<B, S>(state: CoordinatorView<B, S>, event: Event<B, S>) -> Option<
    u64,
> {
    match event {
        Event::BuildFinished { id, success } => if state.takes_build_finished(id) && !success {
            Some(id)
        } else {
            None
        },
        Event::RunFinished { id, spawned } => if state.takes_run_finished(id) {
            Some(id)
        } else {
            None
        },
        _ => None,
    }
}

/// The state that the coordinator reaches from `start` through `events`.
pub open spec fn state_after<B, S>(start: CoordinatorView<B, S>, events: Seq<Event<B, S>>)
    -> CoordinatorView<B, S>
    decreases events.len(),
{
    if events.len() == 0 {
        start
    } else {
        state_after(start, events.drop_last()).after(events.last())
    }
}

/// The effects of the last of `events`, which must not be empty.
pub open spec fn last_effects<B, S>(start: CoordinatorView<B, S>, events: Seq<Event<B, S>>)
    -> Effects<B, S> {
    state_after(start, events.drop_last()).effects(events.last())
}

/// The server processes that `events` hand to the coordinator.
pub open spec fn servers_handed_in<B, S>(events: Seq<Event<B, S>>) -> Multiset<S>
    decreases events.len(),
{
    if events.len() == 0 {
        Multiset::empty()
    } else {
        servers_handed_in(events.drop_last()).add(held(server_handed_in(events.last())))
    }
}

/// The server processes that the coordinator hands back to be terminated
/// in the course of `events`.
pub open spec fn servers_to_kill<B, S>(start: CoordinatorView<B, S>, events: Seq<Event<B, S>>)
    -> Multiset<S>
    decreases events.len(),
{
    if events.len() == 0 {
        Multiset::empty()
    } else {
        servers_to_kill(start, events.drop_last()).add(held(last_effects(start, events).kill_server))
    }
}

/// The build subprocesses that `events` hand to the coordinator.
pub open spec fn builds_handed_in<B, S>(events: Seq<Event<B, S>>) -> Multiset<B>
    decreases events.len(),
{
    if events.len() == 0 {
        Multiset::empty()
    } else {
        builds_handed_in(events.drop_last()).add(held(build_handed_in(events.last())))
    }
}

/// The build subprocesses that the coordinator hands back to be terminated
/// in the course of `events`.
pub open spec fn builds_to_kill<B, S>(start: CoordinatorView<B, S>, events: Seq<Event<B, S>>)
    -> Multiset<B>
    decreases events.len(),
{
    if events.len() == 0 {
        Multiset::empty()
    } else {
        builds_to_kill(start, events.drop_last()).add(held(last_effects(start, events).kill_build))
    }
}

/// The build subprocesses whose end is reported in the course of `events`.
pub open spec fn builds_ended<B, S>(start: CoordinatorView<B, S>, events: Seq<Event<B, S>>)
    -> Multiset<B>
    decreases events.len(),
{
    if events.len() == 0 {
        Multiset::empty()
    } else {
        builds_ended(start, events.drop_last()).add(
            held(build_ended(state_after(start, events.drop_last()), events.last())),
        )
    }
}

/// The build tasks that the coordinator starts in the course of `events`.
pub open spec fn tasks_launched<B, S>(start: CoordinatorView<B, S>, events: Seq<Event<B, S>>)
    -> Multiset<u64>
    decreases events.len(),
{
    if events.len() == 0 {
        Multiset::empty()
    } else {
        tasks_launched(start, events.drop_last()).add(held(last_effects(start, events).launch))
    }
}

/// The build tasks that the coordinator cancels in the course of `events`.
pub open spec fn tasks_cancelled<B, S>(start: CoordinatorView<B, S>, events: Seq<Event<B, S>>)
    -> Multiset<u64>
    decreases events.len(),
{
    if events.len() == 0 {
        Multiset::empty()
    } else {
        tasks_cancelled(start, events.drop_last()).add(held(last_effects(start, events).cancelled))
    }
}

/// The build tasks whose work comes to an end in the course of `events`.
pub open spec fn tasks_concluded<B, S>(start: CoordinatorView<B, S>, events: Seq<Event<B, S>>)
    -> Multiset<u64>
    decreases events.len(),
{
    if events.len() == 0 {
        Multiset::empty()
    } else {
        tasks_concluded(start, events.drop_last()).add(
            held(task_concluded(state_after(start, events.drop_last()), events.last())),
        )
    }
}

/// The coordinator starts out well-formed and every event keeps it so.
pub proof fn lemma_event_keeps_wf<B, S>(state: CoordinatorView<B, S>, event: Event<B, S>)
    requires
        state.wf(),
    ensures
        CoordinatorView::<B, S>::initial().wf(),
        state.after(event).wf(),
{
}

/// Every run of events from a well-formed state ends in a well-formed one.
pub proof fn lemma_run_keeps_wf<B, S>(start: CoordinatorView<B, S>, events: Seq<Event<B, S>>)
    requires
        start.wf(),
    ensures
        state_after(start, events).wf(),
    decreases events.len(),
{
    if events.len() > 0 {
        lemma_run_keeps_wf(start, events.drop_last());
        lemma_event_keeps_wf(state_after(start, events.drop_last()), events.last());
    }
}

/// At most one managed process, and none orphaned: after any run of
/// events, every server process that was in the registry at the start or
/// was handed to the coordinator since has either been handed back to be
/// terminated or is the one process that the registry holds.
pub proof fn lemma_no_server_is_orphaned<B, S>(
    start: CoordinatorView<B, S>,
    events: Seq<Event<B, S>>,
)
    requires
        start.wf(),
    ensures
        held(start.occupant).add(servers_handed_in(events)) == servers_to_kill(start, events).add(
            held(state_after(start, events).occupant),
        ),
        held(state_after(start, events).occupant).len() <= 1,
    decreases events.len(),
{
    if events.len() > 0 {
        let before = state_after(start, events.drop_last());
        lemma_no_server_is_orphaned(start, events.drop_last());
        lemma_run_keeps_wf(start, events.drop_last());
        assert(held(before.occupant).add(held(server_handed_in(events.last()))) =~= held(
            before.effects(events.last()).kill_server,
        ).add(held(before.after(events.last()).occupant)));
        assert(held(start.occupant).add(servers_handed_in(events)) =~= held(start.occupant).add(
            servers_handed_in(events.drop_last()),
        ).add(held(server_handed_in(events.last()))));
        assert(held(start.occupant).add(servers_handed_in(events)) =~= servers_to_kill(
            start,
            events,
        ).add(held(state_after(start, events).occupant)));
    } else {
        assert(held(start.occupant).add(servers_handed_in(events)) =~= servers_to_kill(
            start,
            events,
        ).add(held(state_after(start, events).occupant)));
    }
}

/// No build subprocess is left running unattended: after any run of
/// events, every build subprocess that a task ran at the start or that was
/// handed to the coordinator since has ended, has been handed back to be
/// terminated, or is the one that the build task in flight runs.
pub proof fn lemma_no_build_is_orphaned<B, S>(
    start: CoordinatorView<B, S>,
    events: Seq<Event<B, S>>,
)
    ensures
        held(compiling(start)).add(builds_handed_in(events)) == builds_to_kill(start, events).add(
            builds_ended(start, events),
        ).add(held(compiling(state_after(start, events)))),
    decreases events.len(),
{
    if events.len() > 0 {
        let before = state_after(start, events.drop_last());
        let event = events.last();
        lemma_no_build_is_orphaned(start, events.drop_last());
        assert(held(compiling(before)).add(held(build_handed_in(event))) =~= held(
            before.effects(event).kill_build,
        ).add(held(build_ended(before, event))).add(held(compiling(before.after(event)))));
        assert(held(compiling(start)).add(builds_handed_in(events)) =~= held(compiling(start)).add(
            builds_handed_in(events.drop_last()),
        ).add(held(build_handed_in(event))));
        assert(held(compiling(start)).add(builds_handed_in(events)) =~= builds_to_kill(
            start,
            events,
        ).add(builds_ended(start, events)).add(held(compiling(state_after(start, events)))));
    } else {
        assert(held(compiling(start)).add(builds_handed_in(events)) =~= builds_to_kill(
            start,
            events,
        ).add(builds_ended(start, events)).add(held(compiling(state_after(start, events)))));
    }
}

/// At most one build task at a time: after any run of events, every build
/// task that was in flight at the start or was started since has been
/// cancelled, has come to its end, or is the one build task in flight.
pub proof fn lemma_one_build_task_at_a_time<B, S>(
    start: CoordinatorView<B, S>,
    events: Seq<Event<B, S>>,
)
    ensures
        held(in_flight(start)).add(tasks_launched(start, events)) == tasks_cancelled(
            start,
            events,
        ).add(tasks_concluded(start, events)).add(held(in_flight(state_after(start, events)))),
        held(in_flight(state_after(start, events))).len() <= 1,
    decreases events.len(),
{
    if events.len() > 0 {
        let before = state_after(start, events.drop_last());
        let event = events.last();
        lemma_one_build_task_at_a_time(start, events.drop_last());
        assert(held(in_flight(before)).add(held(before.effects(event).launch)) =~= held(
            before.effects(event).cancelled,
        ).add(held(task_concluded(before, event))).add(held(in_flight(before.after(event)))));
        assert(held(in_flight(start)).add(tasks_launched(start, events)) =~= held(
            in_flight(start),
        ).add(tasks_launched(start, events.drop_last())).add(held(before.effects(event).launch)));
        assert(held(in_flight(start)).add(tasks_launched(start, events)) =~= tasks_cancelled(
            start,
            events,
        ).add(tasks_concluded(start, events)).add(held(in_flight(state_after(start, events)))));
    } else {
        assert(held(in_flight(start)).add(tasks_launched(start, events)) =~= tasks_cancelled(
            start,
            events,
        ).add(tasks_concluded(start, events)).add(held(in_flight(state_after(start, events)))));
    }
}

/// What a tick does to a coordinator that runs: the registry is empty
/// afterwards and the process it held has been handed back to be
/// terminated; the build task that was in flight is cancelled, and so is
/// its build subprocess where it was running; exactly one build task is in
/// flight afterwards, a new one, and it has spawned nothing yet.
pub proof fn lemma_tick_clears_the_way<B, S>(state: CoordinatorView<B, S>)
    requires
        state.wf(),
        !state.stopped,
    ensures
        state.after_tick().occupant is None,
        state.tick_effects().kill_server == state.occupant,
        state.tick_effects().cancelled == in_flight(state),
        state.tick_effects().kill_build == compiling(state),
        state.tick_effects().launch == Some(state.next_id()),
        state.after_tick().task == Some(BuildTask::<B> { id: state.next_id(), stage: Stage::Pending }),
        state.launched < u64::MAX ==> in_flight(state) != Some(state.next_id()),
        state.after_tick().phase() == Phase::Building,
{
}

/// The next tick always cancels the build task that the tick before it
/// started, if that one is still in flight: at once, and after whatever
/// happened in between. The build task that it starts is another one.
pub proof fn lemma_next_tick_cancels_previous_build<B, S>(
    state: CoordinatorView<B, S>,
    between: Seq<Event<B, S>>,
)
    requires
        state.wf(),
        !state.stopped,
    ensures
        state.after_tick().tick_effects().cancelled == state.tick_effects().launch,
        ({
            let later = state_after(state.after_tick(), between);
            in_flight(later) is Some ==> later.tick_effects().cancelled == in_flight(later) && (
            later.launched < u64::MAX ==> in_flight(later.after_tick()) != in_flight(later))
        }),
{
    lemma_event_keeps_wf(state, Event::Tick);
    lemma_run_keeps_wf(state.after_tick(), between);
}

/// A build that fails stores nothing and leaves the coordinator ready:
/// the failure is reported, no build task is in flight, the registry is
/// still empty, and the next tick starts a fresh build task.
pub proof fn lemma_failed_build_stores_nothing<B, S>(state: CoordinatorView<B, S>, id: u64)
    requires
        state.wf(),
        state.takes_build_finished(id),
    ensures
        state.build_finished_effects(id, false).failed == Some(FailedStep::Build),
        state.build_finished_effects(id, false).run is None,
        state.after_build_finished(id, false).occupant is None,
        state.after_build_finished(id, false).task is None,
        state.after_build_finished(id, false).phase() == Phase::Idle,
        state.after_build_finished(id, false).tick_effects().launch is Some,
        state.after_build_finished(id, false).after_tick().phase() == Phase::Building,
{
}

/// A server that cannot be spawned is treated like a build that fails.
pub proof fn lemma_failed_run_stores_nothing<B, S>(state: CoordinatorView<B, S>, id: u64)
    requires
        state.wf(),
        state.takes_run_finished(id),
    ensures
        state.run_finished_effects(id, None).failed == Some(FailedStep::Run),
        state.after_run_finished(id, None).occupant is None,
        state.after_run_finished(id, None).task is None,
        state.after_run_finished(id, None).phase() == Phase::Idle,
        state.after_run_finished(id, None).tick_effects().launch is Some,
{
}

/// A report from a build task that is not in flight changes nothing, and
/// whatever process comes with it is handed back to be terminated: a build
/// task that was cancelled or has failed never stores a process.
pub proof fn lemma_stale_reports_change_nothing<B, S>(
    state: CoordinatorView<B, S>,
    id: u64,
    subprocess: B,
    success: bool,
    spawned: Option<S>,
)
    requires
        !state.in_flight(id),
    ensures
        state.after_build_spawned(id, subprocess) == state,
        state.build_spawned_effects(id, subprocess).kill_build == Some(subprocess),
        state.after_build_finished(id, success) == state,
        state.build_finished_effects(id, success) == Effects::<B, S>::nothing(),
        state.after_run_finished(id, spawned) == state,
        state.run_finished_effects(id, spawned).kill_server == spawned,
        state.run_finished_effects(id, spawned).failed is None,
{
}

/// A build task that is over stays over: once a build task has been
/// cancelled, has failed or has come to its end, no run of events brings it
/// back in flight, so no late report of it is taken and no process of it
/// is ever stored. This holds as long as the numbers of the build tasks
/// have not run out.
pub proof fn lemma_ended_task_stays_out<B, S>(
    state: CoordinatorView<B, S>,
    id: u64,
    later: Seq<Event<B, S>>,
    process: S,
)
    requires
        state.wf(),
        id <= state.launched,
        !state.in_flight(id),
        state.launched + later.len() < u64::MAX,
    ensures
        !state_after(state, later).in_flight(id),
        id <= state_after(state, later).launched <= state.launched + later.len(),
        state_after(state, later).after_run_finished(id, Some(process)) == state_after(
            state,
            later,
        ),
        state_after(state, later).run_finished_effects(id, Some(process)).kill_server == Some(
            process,
        ),
    decreases later.len(),
{
    if later.len() > 0 {
        lemma_ended_task_stays_out(state, id, later.drop_last(), process);
        lemma_run_keeps_wf(state, later.drop_last());
    }
}

/// Cancelling kills: whoever ends the build task in flight, a tick or a
/// stop, is handed the build subprocess that the task runs, to terminate
/// it, in the same answer that cancels the task.
pub proof fn lemma_cancelling_kills_the_build<B, S>(state: CoordinatorView<B, S>, subprocess: B)
    requires
        state.wf(),
        compiling(state) == Some(subprocess),
    ensures
        !state.stopped,
        state.tick_effects().cancelled == in_flight(state),
        state.tick_effects().kill_build == Some(subprocess),
        state.stop_effects().cancelled == in_flight(state),
        state.stop_effects().kill_build == Some(subprocess),
        compiling(state.after_tick()) is None,
        compiling(state.after_stop()) is None,
{
}

/// Stopping is final: a stopped coordinator holds nothing, starts nothing
/// and keeps nothing that it is handed, and stopping it again asks for
/// nothing.
pub proof fn lemma_stopped_is_final<B, S>(state: CoordinatorView<B, S>, event: Event<B, S>)
    ensures
        state.after_stop().phase() == Phase::Stopped,
        state.after_stop().wf(),
        state.after_stop().after(event).stopped,
        state.after_stop().after(event) == state.after_stop(),
        state.after_stop().effects(event).launch is None,
        state.after_stop().effects(event).run is None,
        state.after_stop().effects(event).kill_server == server_handed_in(event),
        state.after_stop().effects(event).kill_build == build_handed_in(event),
        state.after_stop().stop_effects() == Effects::<B, S>::nothing(),
{
}

/// The phases follow one another as the design lays down: a tick leads to
/// building from every phase but the last; a successful build and spawn
/// leads from building to running; a failure leads back to idle; a stop
/// leads to the end.
pub proof fn lemma_phase_table<B, S>(state: CoordinatorView<B, S>, id: u64, process: S)
    requires
        state.wf(),
    ensures
        CoordinatorView::<B, S>::initial().phase() == Phase::Idle,
        state.phase() != Phase::Stopped ==> state.after_tick().phase() == Phase::Building,
        state.phase() == Phase::Stopped ==> state.after_tick() == state,
        state.takes_build_finished(id) ==> state.phase() == Phase::Building
            && state.after_build_finished(id, true).phase() == Phase::Building
            && state.after_build_finished(id, false).phase() == Phase::Idle,
        state.takes_run_finished(id) ==> state.phase() == Phase::Building
            && state.after_run_finished(id, Some(process)).phase() == Phase::Running
            && state.after_run_finished(id, Some(process)).occupant == Some(process)
            && state.after_run_finished(id, None).phase() == Phase::Idle,
        state.after_stop().phase() == Phase::Stopped,
{
}

} // verus!
