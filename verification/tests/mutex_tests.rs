use peillute::mutex::MutexStamp;
use peillute::mutex::MutexTag;
use peillute::site::SiteState;

// Port of the high-load critical-section scenario: two earlier requests block
// entry, acknowledgments unblock it, release clears the own slot, and a
// hundred-entry table is handled the same way.
#[test]
fn test_mutex_critical_section_high_load() {
    // Site 0 in a roster of three, both peers connected.
    let mut state = SiteState::new(0, 3);
    state.set_connected(1, true);
    state.set_connected(2, true);

    // Simulate remote requests in the table before our own.
    state.set_stamp(1, MutexStamp { tag: MutexTag::Request, date: 1 });
    state.set_stamp(2, MutexStamp { tag: MutexTag::Request, date: 2 });

    // Now request our own access with a higher Lamport date (should wait).
    for _ in 0..3 {
        state.update_clock(None);
    }
    let _ = state.acquire_mutex();
    state.try_enter_sc();

    // Our site should not be in the critical section yet.
    assert_eq!(state.in_sc, false);

    // Insert acknowledgments from all peers (simulate reception).
    state.set_stamp(1, MutexStamp { tag: MutexTag::Ack, date: 1 });
    state.set_stamp(2, MutexStamp { tag: MutexTag::Ack, date: 2 });

    // Manually trigger the entry test, as an incoming acknowledgment would.
    state.try_enter_sc();
    assert_eq!(state.in_sc, true);

    // Simulate some work and then release.
    let _ = state.release_mutex();
    assert_eq!(state.in_sc, false);
    assert_eq!(state.waiting_sc, false);

    // The own entry should be cleaned up.
    assert!(!state.fifo_contains(0));

    // Simulate again to check the order with a large number of requests.
    for i in 0..100usize {
        state.set_stamp(10 + i, MutexStamp { tag: MutexTag::Request, date: i as u64 });
    }

    // Request with a date in the middle of the crowd: entry must wait.
    for _ in 0..50 {
        state.update_clock(None);
    }
    let _ = state.acquire_mutex();
    state.try_enter_sc();
    assert_eq!(state.in_sc, false);

    // Now convert all others to acknowledgments.
    for i in 0..100usize {
        state.set_stamp(10 + i, MutexStamp { tag: MutexTag::Ack, date: i as u64 });
    }

    // Try entering again.
    state.try_enter_sc();
    assert_eq!(state.in_sc, true);
}

// A request whose date ties ours is ordered by rank: the smaller rank wins.
#[test]
fn mutex_tie_break_by_rank() {
    // Site 1 requests; site 0 holds a request with the same date.
    let mut a = SiteState::new(1, 2);
    a.set_connected(0, true);
    let _ = a.acquire_mutex();
    let d = a.request_date;
    a.set_stamp(0, MutexStamp { tag: MutexTag::Request, date: d });
    a.try_enter_sc();
    assert_eq!(a.in_sc, false);

    // The mirror site with the larger rank on record may enter.
    let mut b = SiteState::new(0, 2);
    b.set_connected(1, true);
    let _ = b.acquire_mutex();
    let d2 = b.request_date;
    b.set_stamp(1, MutexStamp { tag: MutexTag::Request, date: d2 });
    b.try_enter_sc();
    assert_eq!(b.in_sc, true);
}

// An acknowledgment only upgrades a recorded request when it is at least as
// late as that request.
#[test]
fn mutex_ack_upgrade_needs_late_date() {
    let mut state = SiteState::new(0, 3);
    state.set_connected(1, true);
    state.set_stamp(1, MutexStamp { tag: MutexTag::Request, date: 5 });

    let remote = peillute::clock::Clock::new(1, 3);
    // An acknowledgment earlier than the recorded request does not upgrade it.
    state.on_mutex_ack(1, 4, &remote);
    for _ in 0..10 {
        state.update_clock(None);
    }
    let _ = state.acquire_mutex();
    state.try_enter_sc();
    // The recorded request still predates ours and blocks entry.
    assert_eq!(state.in_sc, false);

    // An acknowledgment at least as late as the recorded request upgrades it.
    state.on_mutex_ack(1, 9, &remote);
    state.try_enter_sc();
    assert_eq!(state.in_sc, true);
}

// A release stamp never blocks entry; the handlers merge the remote clock.
#[test]
fn mutex_request_and_release_handlers() {
    let mut state = SiteState::new(0, 3);
    state.set_connected(1, true);
    state.set_connected(2, true);

    let mut remote = peillute::clock::Clock::new(1, 3);
    remote.tick_local();
    let ack = state.on_mutex_request(1, 1, &remote);
    assert!(matches!(ack.code, peillute::message::NetworkMessageCode::MutexAck));
    // The handler folded the remote clock in: our Lamport time moved past it.
    assert!(state.clock.lamport >= 2);

    state.on_mutex_release(1, 3, &remote);
    state.set_stamp(2, MutexStamp { tag: MutexTag::Release, date: 1 });
    let _ = state.acquire_mutex();
    state.try_enter_sc();
    assert_eq!(state.in_sc, true);
}


// Mutex safety through the entry test: two fresh connected sites that both
// request before any message is delivered both lack the other's stamp, so
// neither may enter the critical section.
#[test]
fn mutex_no_entry_without_peer_stamps() {
    let mut a = SiteState::new(0, 2);
    a.set_connected(1, true);
    let mut b = SiteState::new(1, 2);
    b.set_connected(0, true);

    let _ = a.acquire_mutex();
    let _ = b.acquire_mutex();
    assert!(!a.try_enter_sc());
    assert!(!b.try_enter_sc());
    assert!(!a.in_sc);
    assert!(!b.in_sc);
}

// Mutex liveness through the real handlers: a lone requester's request is
// acknowledged by every peer, each acknowledgment is recorded even with
// nothing on record for its sender, and entry then succeeds.
#[test]
fn mutex_lone_requester_enters_after_acks() {
    let mut a = SiteState::new(0, 3);
    a.set_connected(1, true);
    a.set_connected(2, true);
    let mut b = SiteState::new(1, 3);
    b.set_connected(0, true);
    b.set_connected(2, true);
    let mut c = SiteState::new(2, 3);
    c.set_connected(0, true);
    c.set_connected(1, true);

    let request = a.acquire_mutex();
    assert!(!a.try_enter_sc());

    // Each peer acknowledges on receipt; the acknowledgments come back and
    // are recorded as the peers' latest known positions.
    let ack_b = b.on_mutex_request(0, a.request_date, &request.clock);
    let ack_c = c.on_mutex_request(0, a.request_date, &request.clock);
    if let peillute::message::MessageInfo::AckMutex { date } = ack_b.info {
        a.on_mutex_ack(1, date, &ack_b.clock);
    }
    assert!(!a.try_enter_sc());
    if let peillute::message::MessageInfo::AckMutex { date } = ack_c.info {
        a.on_mutex_ack(2, date, &ack_c.clock);
    }
    assert!(a.try_enter_sc());
    assert!(a.in_sc);
}
