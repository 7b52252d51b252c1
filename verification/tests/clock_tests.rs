use peillute::clock::Clock;

// Lamport time and the own vector slot strictly increase at every local
// event and never decrease across a mixed sequence of events.
#[test]
fn clock_monotonic_over_events() {
    let mut a = Clock::new(0, 3);
    let mut b = Clock::new(1, 3);

    let mut last_lamport = a.lamport;
    let mut last_own = a.vector[0];
    for _ in 0..5 {
        a.tick_local();
        assert!(a.lamport > last_lamport);
        assert!(a.vector[0] > last_own);
        last_lamport = a.lamport;
        last_own = a.vector[0];
    }

    b.tick_local();
    b.tick_local();
    let before = a.lamport;
    a.merge(&b.snapshot());
    assert!(a.lamport > before);
    assert!(a.vector[0] > last_own);
}

// The merge takes the pointwise maximum and moves the Lamport time one past
// the larger of the two.
#[test]
fn clock_merge_exact() {
    let mut a = Clock::new(0, 3);
    for _ in 0..2 {
        a.tick_local();
    }
    let mut b = Clock::new(2, 3);
    for _ in 0..7 {
        b.tick_local();
    }
    a.merge(&b);
    assert_eq!(a.lamport, 8);
    assert_eq!(a.vector, vec![3, 0, 7]);
    // The Lamport time dominates every vector entry.
    assert!(a.vector.iter().all(|v| *v <= a.lamport));
}

#[test]
fn clock_snapshot_is_equal_copy() {
    let mut a = Clock::new(1, 2);
    a.tick_local();
    let c = a.snapshot();
    assert_eq!(c.lamport, a.lamport);
    assert_eq!(c.vector, a.vector);
    assert_eq!(c.me, a.me);
    assert_eq!(a.get_lamport(), 1);
}
