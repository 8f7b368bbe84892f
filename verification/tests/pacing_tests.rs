use chip8_runloop::pacing::{AudioGate, DrawTimer, REDRAW_INTERVAL_NANOS};

#[test]
fn three_exact_interval_samples_fire_three_redraws() {
    let mut t = DrawTimer::new(REDRAW_INTERVAL_NANOS);
    let mut fired: u64 = 0;
    for _ in 0..3 {
        fired += t.tick(REDRAW_INTERVAL_NANOS);
    }
    assert_eq!(fired, 3);
    assert_eq!(t.debt_nanos, 0);
}

#[test]
fn sub_interval_samples_accumulate_debt() {
    let mut t = DrawTimer::new(100);
    assert_eq!(t.tick(99), 0);
    assert_eq!(t.debt_nanos, 99);
    assert_eq!(t.tick(1), 1);
    assert_eq!(t.debt_nanos, 0);
}

#[test]
fn stalled_iteration_fires_a_burst() {
    let mut t = DrawTimer::new(100);
    assert_eq!(t.tick(307), 3);
    assert_eq!(t.debt_nanos, 7);
}

#[test]
fn audio_gate_identical_reads_yield_no_toggle() {
    let mut g = AudioGate::new();
    assert_eq!(g.observe(false), None);
    assert_eq!(g.observe(false), None);

    let mut h = AudioGate::new();
    assert_eq!(h.observe(true), Some(true));
    assert_eq!(h.observe(true), None);
}

#[test]
fn audio_gate_single_transition_yields_one_toggle() {
    let mut g = AudioGate::new();
    assert_eq!(g.observe(true), Some(true));
    assert_eq!(g.observe(false), Some(false));
    assert_eq!(g.observe(false), None);
}
