use space_invaders::scheduler::{CYCLES_PER_SLICE, Phase, Scheduler};

#[test]
fn cycle_budget_is_clock_over_two_interrupts_per_frame() {
    assert_eq!(CYCLES_PER_SLICE, 16666);
}

#[test]
fn slice_completes_only_at_the_budget() {
    let mut s = Scheduler::new();
    s.record_cycles(CYCLES_PER_SLICE - 1);
    assert!(!s.slice_complete());
    s.record_cycles(1);
    assert!(s.slice_complete());
}

#[test]
fn overshoot_is_tolerated_and_not_carried_over() {
    let mut s = Scheduler::new();
    s.record_cycles(CYCLES_PER_SLICE + 1000);
    assert!(s.slice_complete());
    s.fire_interrupt();
    assert_eq!(s.cycles, 0);
    assert!(!s.slice_complete());
}

#[test]
fn two_slices_make_one_frame() {
    // a deterministic instruction executor stub: every instruction costs
    // a fixed 11 cycles
    let stub_cost: u64 = 11;
    let mut s = Scheduler::new();
    let mut vectors = Vec::new();
    let mut decodes = 0usize;
    for _ in 0..2 {
        let mut executed = 0usize;
        while !s.slice_complete() {
            s.record_cycles(stub_cost);
            executed += 1;
        }
        // the budget was reached, never exceeded by more than one instruction
        assert!(executed as u64 * stub_cost >= CYCLES_PER_SLICE);
        assert!((executed as u64 - 1) * stub_cost < CYCLES_PER_SLICE);
        let (vector, frame_done) = s.fire_interrupt();
        vectors.push(vector);
        if frame_done {
            decodes += 1;
        }
    }
    assert_eq!(vectors, vec![1, 2]);
    assert_eq!(decodes, 1);
    assert_eq!(s.phase, Phase::Mid);
}

#[test]
fn vectors_keep_alternating() {
    let mut s = Scheduler::new();
    let mut vectors = Vec::new();
    for _ in 0..6 {
        s.record_cycles(CYCLES_PER_SLICE);
        let (vector, _) = s.fire_interrupt();
        vectors.push(vector);
    }
    assert_eq!(vectors, vec![1, 2, 1, 2, 1, 2]);
}
