use moonzoon::debounce::Debouncer;

#[test]
fn it_works() {
    assert_eq!(2 + 2, 4);
}

#[test]
fn three_events_within_the_window_give_one_tick() {
    let ticks = Debouncer::run(&vec![0, 50, 80], 100);
    assert_eq!(ticks, vec![180]);
}

#[test]
fn a_single_event_ticks_one_window_later() {
    assert_eq!(Debouncer::run(&vec![7], 100), vec![107]);
}

#[test]
fn no_event_gives_no_tick() {
    assert_eq!(Debouncer::run(&vec![], 100), Vec::<u64>::new());
}

#[test]
fn two_events_more_than_a_window_apart_give_two_ticks() {
    let ticks = Debouncer::run(&vec![0, 101], 100);
    assert_eq!(ticks, vec![100, 201]);
}

#[test]
fn an_event_at_the_moment_the_timer_runs_out_gets_its_own_tick() {
    assert_eq!(Debouncer::run(&vec![0, 100], 100), vec![100, 200]);
}

#[test]
fn an_event_just_before_the_timer_runs_out_resets_it() {
    assert_eq!(Debouncer::run(&vec![0, 99], 100), vec![199]);
}

#[test]
fn bursts_apart_from_each_other_give_one_tick_each() {
    let ticks = Debouncer::run(&vec![0, 10, 20, 500, 510, 2000], 100);
    assert_eq!(ticks, vec![120, 610, 2100]);
}

#[test]
fn a_zero_window_passes_every_event_through() {
    assert_eq!(Debouncer::run(&vec![3, 3, 9], 0), vec![3, 3, 9]);
}

#[test]
fn the_last_tick_fires_only_where_the_clock_can_show_it() {
    assert_eq!(Debouncer::run(&vec![u64::MAX - 10], 100), Vec::<u64>::new());
    assert_eq!(Debouncer::run(&vec![5, u64::MAX - 10], 100), vec![105]);
    assert_eq!(Debouncer::run(&vec![u64::MAX - 100], 100), vec![u64::MAX]);
    assert_eq!(Debouncer::run(&vec![u64::MAX], 0), vec![u64::MAX]);
}

#[test]
fn a_clock_that_runs_backwards_restarts_the_timer() {
    assert_eq!(Debouncer::run(&vec![500, 100], 100), vec![200]);
    assert_eq!(Debouncer::run(&vec![500, 100], 0), vec![500, 100]);
}

#[test]
fn changes_restart_the_timer_without_a_tick() {
    let mut debouncer = Debouncer::new(100);
    assert!(!debouncer.is_pending());
    assert_eq!(debouncer.on_change(0), None);
    assert!(debouncer.is_pending());
    assert_eq!(debouncer.on_timeout(50), None);
    assert_eq!(debouncer.on_change(50), None);
    assert_eq!(debouncer.on_change(80), None);
    assert_eq!(debouncer.on_timeout(179), None);
    assert_eq!(debouncer.on_timeout(180), Some(180));
    assert!(!debouncer.is_pending());
    assert_eq!(debouncer.on_timeout(400), None);
}

#[test]
fn a_late_look_at_the_timer_stamps_the_tick_with_its_due_time() {
    let mut debouncer = Debouncer::new(100);
    debouncer.on_change(10);
    assert_eq!(debouncer.on_timeout(500), Some(110));
}

#[test]
fn a_change_after_the_timer_ran_out_lets_the_owed_tick_out() {
    let mut debouncer = Debouncer::new(100);
    debouncer.on_change(0);
    assert_eq!(debouncer.on_change(250), Some(100));
    assert!(debouncer.is_pending());
    assert_eq!(debouncer.on_timeout(350), Some(350));
}

#[test]
fn a_zero_window_ticks_on_the_change_itself() {
    let mut debouncer = Debouncer::new(0);
    assert_eq!(debouncer.window(), 0);
    assert_eq!(debouncer.on_change(5), Some(5));
    assert!(!debouncer.is_pending());
    assert_eq!(debouncer.on_timeout(6), None);
    assert_eq!(debouncer.on_change(5), Some(5));
}

#[test]
fn remaining_counts_down_to_zero() {
    let mut debouncer = Debouncer::new(100);
    assert_eq!(debouncer.remaining(0), None);
    debouncer.on_change(1000);
    assert_eq!(debouncer.remaining(1000), Some(100));
    assert_eq!(debouncer.remaining(1040), Some(60));
    assert_eq!(debouncer.remaining(1100), Some(0));
    assert_eq!(debouncer.remaining(5000), Some(0));
    assert_eq!(debouncer.remaining(900), Some(100));
}

#[test]
fn a_timer_beyond_the_end_of_the_clock_never_runs_out() {
    let mut debouncer = Debouncer::new(100);
    debouncer.on_change(u64::MAX - 10);
    assert_eq!(debouncer.on_timeout(u64::MAX), None);
    assert_eq!(debouncer.remaining(u64::MAX), Some(90));
}

#[test]
fn a_stopped_debouncer_is_silent() {
    let mut debouncer = Debouncer::new(100);
    debouncer.on_change(0);
    debouncer.stop();
    assert!(debouncer.is_stopped());
    assert!(!debouncer.is_pending());
    assert_eq!(debouncer.on_timeout(1000), None);
    assert_eq!(debouncer.on_change(2000), None);
    assert!(!debouncer.is_pending());
    assert_eq!(debouncer.on_timeout(5000), None);
    debouncer.stop();
    assert!(debouncer.is_stopped());
}
