use moonzoon::backend_watcher::{BackendWatcher, BuildMode};
use moonzoon::coordinator::{Event, FailedStep, Phase};
use moonzoon::fault::Response;
use moonzoon::watch::{ChangeKind, WatchStartError, WatchTarget};

fn target() -> WatchTarget {
    WatchTarget::new(b"backend".to_vec(), vec![b"backend/target".to_vec()])
}

fn watcher(debounce_time: u64) -> BackendWatcher<u32, u32> {
    match BackendWatcher::start(target(), BuildMode::Dev, false, debounce_time, true, true) {
        Ok(watcher) => watcher,
        Err(error) => panic!("{:?}", error),
    }
}

fn failure(root_exists: bool, installed: bool) -> Option<WatchStartError> {
    BackendWatcher::<u32, u32>::start(target(), BuildMode::Dev, false, 100, root_exists, installed)
        .err()
}

#[test]
fn a_watch_that_cannot_be_installed_starts_nothing() {
    assert_eq!(failure(false, true), Some(WatchStartError::RootMissing));
    assert_eq!(failure(false, false), Some(WatchStartError::RootMissing));
    assert_eq!(failure(true, false), Some(WatchStartError::NotInstalled));
    assert_eq!(failure(true, true), None);
}

#[test]
fn a_watch_that_fails_but_works_on_keeps_supervising() {
    let mut watcher = watcher(0);
    assert_eq!(watcher.on_watch_error(true), Response::Log);
    assert_eq!(watcher.on_change(ChangeKind::Modify, SOURCE, 0).launch, Some(1));
}

#[test]
fn a_watch_that_fails_for_good_delivers_nothing_more() {
    let mut watcher = watcher(0);
    assert_eq!(watcher.on_change(ChangeKind::Modify, SOURCE, 0).launch, Some(1));
    assert_eq!(watcher.on_watch_error(false), Response::Terminate);
    let effects = watcher.on_change(ChangeKind::Modify, SOURCE, 10);
    assert_eq!(effects.launch, None);
    assert_eq!(effects.cancelled, None);
    assert_eq!(watcher.phase(), Phase::Building);
    assert_eq!(watcher.on_watch_error(true), Response::Log);
    assert_eq!(watcher.on_change(ChangeKind::Modify, SOURCE, 20).launch, None);
    assert_eq!(watcher.stop().cancelled, Some(1));
}

const SOURCE: &[u8] = b"backend/src/main.rs";

#[test]
fn build_modes() {
    assert_eq!(BuildMode::from_release(true), BuildMode::Release);
    assert_eq!(BuildMode::from_release(false), BuildMode::Dev);
    assert!(BuildMode::Release.is_release());
    assert!(!BuildMode::Dev.is_release());
}

#[test]
fn a_started_watcher_is_idle() {
    let target = WatchTarget::new(b"backend".to_vec(), vec![]);
    let watcher: BackendWatcher<u32, u32> =
        match BackendWatcher::start(target, BuildMode::Release, true, 250, true, true) {
            Ok(watcher) => watcher,
            Err(error) => panic!("{:?}", error),
        };
    assert_eq!(watcher.phase(), Phase::Idle);
    assert_eq!(watcher.build_mode(), BuildMode::Release);
    assert!(watcher.https());
    assert_eq!(watcher.remaining(0), None);
}

#[test]
fn a_burst_of_changes_starts_one_build() {
    let mut watcher = watcher(100);
    for now in [0u64, 50, 80] {
        let effects = watcher.on_change(ChangeKind::Modify, SOURCE, now);
        assert_eq!(effects.launch, None);
        assert_eq!(watcher.phase(), Phase::Idle);
    }
    assert_eq!(watcher.remaining(80), Some(100));
    assert_eq!(watcher.remaining(150), Some(30));
    assert_eq!(watcher.on_timeout(179).launch, None);
    let effects = watcher.on_timeout(180);
    assert_eq!(effects.launch, Some(1));
    assert_eq!(effects.cancelled, None);
    assert_eq!(effects.kill_server, None);
    assert_eq!(watcher.phase(), Phase::Building);
    assert!(watcher.is_current(1));
    assert_eq!(watcher.on_timeout(500).launch, None);
    assert_eq!(watcher.remaining(500), None);
}

#[test]
fn changes_that_are_not_watched_start_nothing() {
    let mut watcher = watcher(100);
    watcher.on_change(ChangeKind::Modify, b"backend/target/debug/backend", 0);
    watcher.on_change(ChangeKind::Access, SOURCE, 0);
    watcher.on_change(ChangeKind::Modify, b"frontend/src/lib.rs", 0);
    assert_eq!(watcher.remaining(0), None);
    assert_eq!(watcher.on_timeout(1000).launch, None);
    assert_eq!(watcher.phase(), Phase::Idle);
}

#[test]
fn a_change_while_the_server_runs_restarts_it() {
    let mut watcher = watcher(100);
    watcher.on_change(ChangeKind::Modify, SOURCE, 0);
    assert_eq!(watcher.on_timeout(100).launch, Some(1));
    watcher.report(Event::BuildSpawned { id: 1, subprocess: 500 });
    assert_eq!(watcher.report(Event::BuildFinished { id: 1, success: true }).run, Some(1));
    watcher.report(Event::RunFinished { id: 1, spawned: Some(900) });
    assert_eq!(watcher.phase(), Phase::Running);

    watcher.on_change(ChangeKind::Create, b"backend/src/new.rs", 5000);
    assert_eq!(watcher.phase(), Phase::Running);
    let effects = watcher.on_timeout(5100);
    assert_eq!(effects.kill_server, Some(900));
    assert_eq!(effects.launch, Some(2));
    assert_eq!(watcher.phase(), Phase::Building);
}

#[test]
fn a_change_during_a_build_cancels_it() {
    let mut watcher = watcher(100);
    watcher.on_change(ChangeKind::Modify, SOURCE, 0);
    watcher.on_timeout(100);
    watcher.report(Event::BuildSpawned { id: 1, subprocess: 500 });
    watcher.on_change(ChangeKind::Modify, SOURCE, 150);
    let effects = watcher.on_timeout(250);
    assert_eq!(effects.cancelled, Some(1));
    assert_eq!(effects.kill_build, Some(500));
    assert_eq!(effects.launch, Some(2));
    assert!(!watcher.is_current(1));
}

#[test]
fn a_failed_build_waits_for_the_next_change() {
    let mut watcher = watcher(100);
    watcher.on_change(ChangeKind::Modify, SOURCE, 0);
    watcher.on_timeout(100);
    watcher.report(Event::BuildSpawned { id: 1, subprocess: 500 });
    let failed = watcher.report(Event::BuildFinished { id: 1, success: false });
    assert_eq!(failed.failed, Some(FailedStep::Build));
    assert_eq!(watcher.phase(), Phase::Idle);
    assert_eq!(watcher.on_timeout(10_000).launch, None);
    watcher.on_change(ChangeKind::Modify, SOURCE, 20_000);
    let effects = watcher.on_timeout(20_100);
    assert_eq!(effects.launch, Some(2));
    assert_eq!(effects.kill_server, None);
}

#[test]
fn a_zero_window_builds_on_every_change() {
    let mut watcher = watcher(0);
    assert_eq!(watcher.on_change(ChangeKind::Modify, SOURCE, 7).launch, Some(1));
    let again = watcher.on_change(ChangeKind::Modify, SOURCE, 7);
    assert_eq!(again.cancelled, Some(1));
    assert_eq!(again.launch, Some(2));
}

#[test]
fn a_late_change_lets_the_owed_tick_out() {
    let mut watcher = watcher(100);
    watcher.on_change(ChangeKind::Modify, SOURCE, 0);
    let effects = watcher.on_change(ChangeKind::Modify, SOURCE, 300);
    assert_eq!(effects.launch, Some(1));
    assert_eq!(watcher.remaining(300), Some(100));
}

#[test]
fn stop_ends_everything() {
    let mut watcher = watcher(100);
    watcher.on_change(ChangeKind::Modify, SOURCE, 0);
    watcher.on_timeout(100);
    watcher.report(Event::BuildSpawned { id: 1, subprocess: 500 });
    watcher.on_change(ChangeKind::Modify, SOURCE, 150);
    let stopped = watcher.stop();
    assert_eq!(stopped.cancelled, Some(1));
    assert_eq!(stopped.kill_build, Some(500));
    assert_eq!(stopped.launch, None);
    assert_eq!(watcher.phase(), Phase::Stopped);
    assert_eq!(watcher.remaining(150), None);

    assert_eq!(watcher.on_timeout(1000).launch, None);
    assert_eq!(watcher.on_change(ChangeKind::Modify, SOURCE, 2000).launch, None);
    assert_eq!(watcher.on_timeout(3000).launch, None);
    let again = watcher.stop();
    assert_eq!(again.cancelled, None);
    assert_eq!(again.kill_build, None);
    assert_eq!(again.kill_server, None);
    assert_eq!(watcher.phase(), Phase::Stopped);
}

#[test]
fn stop_kills_the_running_server() {
    let mut watcher = watcher(0);
    watcher.on_change(ChangeKind::Modify, SOURCE, 0);
    watcher.report(Event::BuildSpawned { id: 1, subprocess: 500 });
    watcher.report(Event::BuildFinished { id: 1, success: true });
    watcher.report(Event::RunFinished { id: 1, spawned: Some(900) });
    assert_eq!(watcher.stop().kill_server, Some(900));
}
