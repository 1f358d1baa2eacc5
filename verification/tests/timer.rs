use frame_timer::system::SystemFrameTimer;
use frame_timer::timer::FrameTimer;

const NANOS_PER_SEC: f64 = 1_000_000_000.0;

fn delta_seconds(t: &FrameTimer) -> f64 {
    (t.delta() as f64) / NANOS_PER_SEC
}

#[test]
fn delta_equals_elapsed_since_previous_start() {
    let mut t = FrameTimer::new(100);
    t.time_start(250);
    assert_eq!(t.delta(), 150);
    t.time_start(1_000);
    assert_eq!(t.delta(), 750);
    t.time_start(1_000_000_000);
    assert_eq!(t.delta(), 999_999_000);
}

#[test]
fn delta_is_zero_immediately_after_new() {
    let t = FrameTimer::new(123_456_789);
    assert_eq!(t.delta(), 0);
    assert_eq!(delta_seconds(&t), 0.0);
}

#[test]
fn fake_clock_advancing_sixteen_ms_gives_sixteen_ms_deltas() {
    let step_ns: u64 = 16_000_000;
    let mut now: u64 = 0;
    let mut t = FrameTimer::new(now);
    for _ in 0..5 {
        now += step_ns;
        t.time_start(now);
        assert_eq!(t.delta(), step_ns);
        assert!((delta_seconds(&t) - 0.016).abs() < 1e-6);
    }
}

#[test]
fn constant_clock_gives_zero_delta() {
    let mut t = FrameTimer::new(42_000);
    t.time_start(42_000);
    assert_eq!(t.delta(), 0);
    assert_eq!(delta_seconds(&t), 0.0);
    t.time_start(42_000);
    assert_eq!(t.delta(), 0);
}

#[test]
fn time_stop_never_changes_delta() {
    let mut t = FrameTimer::new(0);
    t.time_start(7_000_000);
    let x = t.delta();
    t.time_stop();
    let y = t.delta();
    assert_eq!(x, y);

    let mut u = FrameTimer::new(0);
    u.time_start(7_000_000);
    assert_eq!(u.delta(), t.delta());
}

#[test]
fn backward_clock_clamps_delta_to_zero() {
    let mut t = FrameTimer::new(50_000_000);
    t.time_start(10_000_000);
    assert_eq!(t.delta(), 0);
    assert_eq!(delta_seconds(&t), 0.0);
    t.time_start(10_000_001);
    assert_eq!(t.delta(), 1);
}

#[test]
fn stalled_frame_yields_correspondingly_large_delta() {
    let one_hour_ns: u64 = 3_600 * 1_000_000_000;
    let mut t = FrameTimer::new(0);
    t.time_start(one_hour_ns);
    assert_eq!(t.delta(), one_hour_ns);
    assert!((delta_seconds(&t) - 3_600.0).abs() < 1e-6);
}

#[test]
fn system_timer_runs_a_frame_cycle() {
    let mut t = SystemFrameTimer::new();
    assert_eq!(t.delta(), 0);
    t.time_start();
    let x = t.delta();
    t.time_stop();
    let y = t.delta();
    assert_eq!(x, y);
    t.time_start();
    t.time_stop();
}
