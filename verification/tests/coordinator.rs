use moonzoon::coordinator::{Coordinator, Event, FailedStep, Phase};

fn idle() -> Coordinator<u32, u32> {
    Coordinator::new()
}

#[test]
fn a_new_coordinator_is_idle() {
    let coordinator = idle();
    assert_eq!(coordinator.phase(), Phase::Idle);
    assert_eq!(coordinator.current_build(), None);
}

#[test]
fn tick_build_run_then_tick_again() {
    let mut coordinator = idle();

    let first = coordinator.on_tick();
    assert_eq!(first.cancelled, None);
    assert_eq!(first.kill_build, None);
    assert_eq!(first.kill_server, None);
    assert_eq!(first.launch, Some(1));
    assert_eq!(coordinator.phase(), Phase::Building);

    let spawned = coordinator.on_build_spawned(1, 500);
    assert_eq!(spawned.kill_build, None);
    let built = coordinator.on_build_finished(1, true);
    assert_eq!(built.run, Some(1));
    assert_eq!(built.failed, None);
    assert_eq!(coordinator.phase(), Phase::Building);
    let ran = coordinator.on_run_finished(1, Some(900));
    assert_eq!(ran.kill_server, None);
    assert_eq!(ran.failed, None);
    assert_eq!(coordinator.phase(), Phase::Running);
    assert_eq!(coordinator.current_build(), None);

    let second = coordinator.on_tick();
    assert_eq!(second.cancelled, None);
    assert_eq!(second.kill_build, None);
    assert_eq!(second.kill_server, Some(900));
    assert_eq!(second.launch, Some(2));
    assert_eq!(coordinator.phase(), Phase::Building);
    assert_eq!(coordinator.current_build(), Some(2));
}

#[test]
fn a_failed_build_leaves_the_registry_empty_and_the_next_tick_builds_again() {
    let mut coordinator = idle();
    coordinator.on_tick();
    coordinator.on_build_spawned(1, 500);
    let failed = coordinator.on_build_finished(1, false);
    assert_eq!(failed.failed, Some(FailedStep::Build));
    assert_eq!(failed.run, None);
    assert_eq!(failed.kill_server, None);
    assert_eq!(coordinator.phase(), Phase::Idle);

    let late = coordinator.on_run_finished(1, Some(77));
    assert_eq!(late.kill_server, Some(77));
    assert_eq!(coordinator.phase(), Phase::Idle);

    let next = coordinator.on_tick();
    assert_eq!(next.launch, Some(2));
    assert_eq!(next.kill_server, None);
    assert_eq!(next.cancelled, None);
    assert_eq!(coordinator.phase(), Phase::Building);
}

#[test]
fn a_failed_spawn_is_reported_and_stores_nothing() {
    let mut coordinator = idle();
    coordinator.on_tick();
    coordinator.on_build_spawned(1, 500);
    coordinator.on_build_finished(1, true);
    let ran = coordinator.on_run_finished(1, None);
    assert_eq!(ran.failed, Some(FailedStep::Run));
    assert_eq!(ran.kill_server, None);
    assert_eq!(coordinator.phase(), Phase::Idle);
    assert_eq!(coordinator.on_tick().kill_server, None);
}

#[test]
fn a_tick_during_a_build_kills_the_build_subprocess() {
    let mut coordinator = idle();
    coordinator.on_tick();
    coordinator.on_build_spawned(1, 500);
    let again = coordinator.on_tick();
    assert_eq!(again.cancelled, Some(1));
    assert_eq!(again.kill_build, Some(500));
    assert_eq!(again.kill_server, None);
    assert_eq!(again.launch, Some(2));
    assert!(!coordinator.is_current(1));
    assert!(coordinator.is_current(2));
}

#[test]
fn a_tick_before_the_build_subprocess_exists_cancels_without_a_kill() {
    let mut coordinator = idle();
    coordinator.on_tick();
    let again = coordinator.on_tick();
    assert_eq!(again.cancelled, Some(1));
    assert_eq!(again.kill_build, None);
    assert_eq!(again.launch, Some(2));
}

#[test]
fn reports_of_a_cancelled_build_are_turned_away() {
    let mut coordinator = idle();
    coordinator.on_tick();
    coordinator.on_tick();

    let spawned = coordinator.on_build_spawned(1, 500);
    assert_eq!(spawned.kill_build, Some(500));
    let built = coordinator.on_build_finished(1, true);
    assert_eq!(built.run, None);
    assert_eq!(built.failed, None);
    let failed = coordinator.on_build_finished(1, false);
    assert_eq!(failed.failed, None);
    let ran = coordinator.on_run_finished(1, Some(900));
    assert_eq!(ran.kill_server, Some(900));
    assert_eq!(coordinator.phase(), Phase::Building);
    assert_eq!(coordinator.current_build(), Some(2));

    coordinator.on_build_spawned(2, 501);
    coordinator.on_build_finished(2, true);
    coordinator.on_run_finished(2, Some(901));
    assert_eq!(coordinator.phase(), Phase::Running);
    assert_eq!(coordinator.on_tick().kill_server, Some(901));
}

#[test]
fn reports_out_of_turn_are_turned_away() {
    let mut coordinator = idle();
    coordinator.on_tick();
    assert_eq!(coordinator.on_run_finished(1, Some(9)).kill_server, Some(9));
    coordinator.on_build_spawned(1, 500);
    assert_eq!(coordinator.on_build_spawned(1, 600).kill_build, Some(600));
    assert_eq!(coordinator.on_run_finished(1, Some(9)).kill_server, Some(9));
    assert_eq!(coordinator.phase(), Phase::Building);
    coordinator.on_build_finished(1, true);
    assert_eq!(coordinator.on_build_finished(1, true).run, None);
    assert_eq!(coordinator.on_build_finished(1, false).failed, None);
    assert_eq!(coordinator.on_build_spawned(1, 700).kill_build, Some(700));
    assert_eq!(coordinator.on_tick().kill_build, None);
}

#[test]
fn a_build_may_end_before_a_subprocess_was_reported() {
    let mut coordinator = idle();
    coordinator.on_tick();
    let failed = coordinator.on_build_finished(1, false);
    assert_eq!(failed.failed, Some(FailedStep::Build));
    assert_eq!(coordinator.phase(), Phase::Idle);

    coordinator.on_tick();
    assert_eq!(coordinator.on_build_finished(2, true).run, Some(2));
    coordinator.on_run_finished(2, Some(900));
    assert_eq!(coordinator.phase(), Phase::Running);
}

#[test]
fn many_ticks_in_a_row_leave_one_build() {
    let mut coordinator = idle();
    coordinator.on_tick();
    for expected in 1..50u64 {
        let effects = coordinator.on_tick();
        assert_eq!(effects.cancelled, Some(expected));
        assert_eq!(effects.launch, Some(expected + 1));
        assert_eq!(effects.kill_server, None);
    }
    assert_eq!(coordinator.current_build(), Some(50));
}

#[test]
fn stop_cancels_the_build_and_kills_the_build_subprocess() {
    let mut coordinator = idle();
    coordinator.on_tick();
    coordinator.on_build_spawned(1, 500);
    let stopped = coordinator.stop();
    assert_eq!(stopped.cancelled, Some(1));
    assert_eq!(stopped.kill_build, Some(500));
    assert_eq!(stopped.kill_server, None);
    assert_eq!(stopped.launch, None);
    assert_eq!(coordinator.phase(), Phase::Stopped);
}

#[test]
fn stop_kills_the_managed_process() {
    let mut coordinator = idle();
    coordinator.on_tick();
    coordinator.on_build_spawned(1, 500);
    coordinator.on_build_finished(1, true);
    coordinator.on_run_finished(1, Some(900));
    let stopped = coordinator.stop();
    assert_eq!(stopped.cancelled, None);
    assert_eq!(stopped.kill_server, Some(900));
    assert_eq!(coordinator.phase(), Phase::Stopped);
}

#[test]
fn a_stopped_coordinator_stays_stopped() {
    let mut coordinator = idle();
    coordinator.on_tick();
    coordinator.stop();
    let tick = coordinator.on_tick();
    assert_eq!(tick.launch, None);
    assert_eq!(tick.cancelled, None);
    assert_eq!(coordinator.on_build_spawned(1, 5).kill_build, Some(5));
    assert_eq!(coordinator.on_run_finished(1, Some(6)).kill_server, Some(6));
    let again = coordinator.stop();
    assert_eq!(again.cancelled, None);
    assert_eq!(again.kill_build, None);
    assert_eq!(again.kill_server, None);
    assert_eq!(coordinator.phase(), Phase::Stopped);
}

#[test]
fn handle_takes_the_same_steps_as_the_named_calls() {
    let mut coordinator = idle();
    assert_eq!(coordinator.handle(Event::Tick).launch, Some(1));
    assert_eq!(coordinator.handle(Event::BuildSpawned { id: 1, subprocess: 500 }).kill_build, None);
    assert_eq!(coordinator.handle(Event::BuildFinished { id: 1, success: true }).run, Some(1));
    assert_eq!(coordinator.handle(Event::RunFinished { id: 1, spawned: Some(900) }).kill_server, None);
    assert_eq!(coordinator.phase(), Phase::Running);
    assert_eq!(coordinator.handle(Event::Stop).kill_server, Some(900));
    assert_eq!(coordinator.phase(), Phase::Stopped);
}
