use dawn_telemetry::history::TickHistory;

#[test]
fn rate_is_zero_below_two_samples() {
    let mut h = TickHistory::new();
    assert_eq!(h.thought_rate_micro_hz(), 0);
    h.record(5, 1_000);
    assert_eq!(h.thought_rate_micro_hz(), 0);
    assert_eq!(h.neural_activity_micro(), 0);
}

#[test]
fn rate_of_a_two_sample_window() {
    let mut h = TickHistory::new();
    h.record(0, 0);
    h.record(100, 10_000);
    // 100 ticks over 10 seconds: 10 Hz in micro-hertz.
    assert_eq!(h.thought_rate_micro_hz(), 10_000_000);
    // Ten hertz is the activity ceiling.
    assert_eq!(h.neural_activity_micro(), 1_000_000);
}

#[test]
fn slow_ticking_gives_partial_activity() {
    let mut h = TickHistory::new();
    h.record(0, 0);
    h.record(5, 1_000);
    // 5 ticks per second: 5_000_000 micro-hertz, half activity.
    assert_eq!(h.thought_rate_micro_hz(), 5_000_000);
    assert_eq!(h.neural_activity_micro(), 500_000);
}

#[test]
fn rate_guards_against_zero_time_and_regression() {
    let mut h = TickHistory::new();
    h.record(0, 500);
    h.record(10, 500);
    // No time elapsed: no division happens.
    assert_eq!(h.thought_rate_micro_hz(), 0);

    let mut h2 = TickHistory::new();
    h2.record(100, 0);
    h2.record(50, 1_000);
    // Tick counter went backwards (producer restart): rate is zero.
    assert_eq!(h2.thought_rate_micro_hz(), 0);
}

#[test]
fn window_evicts_oldest_beyond_capacity() {
    let mut h = TickHistory::new();
    for i in 0..130u32 {
        h.record(i, (i as u64) * 100);
    }
    assert_eq!(h.len(), 120);
    // Oldest surviving pair is tick 10, newest is tick 129.
    // 119 ticks over 11_900 ms: exactly 10 Hz.
    assert_eq!(h.thought_rate_micro_hz(), 10_000_000);
}
