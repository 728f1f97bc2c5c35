use scrabber::RunLoop;

#[test]
fn counted_run_of_zero_starts_stopped() {
    let rl = RunLoop::new(10, 0, false);
    assert!(rl.is_stopped());
    assert!(!rl.is_running());
}

#[test]
fn counted_run_cycles_and_stops_without_cancellation() {
    let mut rl = RunLoop::new(0, 2, false);
    assert!(rl.is_running());
    rl.after_iteration();
    assert!(rl.is_sleeping());
    rl.after_sleep();
    assert!(rl.is_running());
    rl.after_iteration();
    assert!(rl.is_stopped());
}

#[test]
fn forever_run_never_counts_out() {
    let mut rl = RunLoop::new(0, 1, true);
    for _ in 0..5 {
        assert!(rl.is_running());
        rl.after_iteration();
        assert!(rl.is_sleeping());
        rl.after_sleep();
    }
    assert!(rl.is_running());
}

#[test]
fn cancel_stops_a_running_loop() {
    let mut rl = RunLoop::new(0, 5, false);
    assert!(rl.is_running());
    rl.cancel();
    assert!(rl.is_stopped());
}

#[test]
fn cancel_stops_a_sleeping_loop() {
    let mut rl = RunLoop::new(0, 5, true);
    rl.after_iteration();
    assert!(rl.is_sleeping());
    rl.cancel();
    assert!(rl.is_stopped());
}

#[test]
fn interval_is_kept() {
    let rl = RunLoop::new(10, 1, false);
    assert_eq!(rl.interval(), 10);
}
