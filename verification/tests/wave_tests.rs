use peillute::control::execute_critical;
use peillute::control::on_wave_message;
use peillute::control::WaveReceipt;
use peillute::message::CriticalCommands;
use peillute::message::Message;
use peillute::site::SiteState;
use peillute::snapshot::SnapshotManager;
use peillute::store::Store;
use peillute::wave::WaveAckOutcome;
use peillute::wave::WaveKey;

fn forwarded(msg: &Message, sender: usize) -> Message {
    let mut m = msg.clone();
    m.sender_id = sender;
    m
}

// Wave completion on a line topology 0-1-2: the deposit is applied exactly
// once everywhere, the acknowledgments return along the line, and the
// bookkeeping is removed everywhere.
#[test]
fn wave_completion_on_line_topology() {
    let mut sa = SiteState::new(0, 3);
    sa.set_connected(1, true);
    let mut sb = SiteState::new(1, 3);
    sb.set_connected(0, true);
    sb.set_connected(2, true);
    let mut sc = SiteState::new(2, 3);
    sc.set_connected(1, true);
    let mut da = Store::new();
    let mut db = Store::new();
    let mut dc = Store::new();

    // The initiator applies the deposit and opens the wave.
    let (msg, ok0) = execute_critical(
        &mut sa,
        &mut da,
        &mut SnapshotManager::new(),
        &CriticalCommands::Deposit { name: "u".to_string(), amount: 10 },
    );
    assert!(ok0.is_ok());
    let key = WaveKey { initiator: 0, lamport: msg.clock.lamport };
    assert_eq!(sa.get_expected_for_wave(key), Some(1));

    // The middle site applies and forwards.
    let (r1, ok1) = on_wave_message(&mut sb, &mut db, &msg);
    assert_eq!(r1, WaveReceipt::Forward);
    assert!(ok1.is_ok());
    assert_eq!(sb.get_parent_for_wave(key), Some(0));
    assert_eq!(sb.get_expected_for_wave(key), Some(1));

    // The leaf applies and acknowledges the sender at once.
    let (r2, ok2) = on_wave_message(&mut sc, &mut dc, &forwarded(&msg, 1));
    assert_eq!(r2, WaveReceipt::LeafAck { to: 1 });
    assert!(ok2.is_ok());
    assert_eq!(sc.get_expected_for_wave(key), None);

    // The acknowledgment returns along the line.
    assert_eq!(sb.on_wave_ack(key), WaveAckOutcome::CompleteForward { parent: 0 });
    assert_eq!(sa.on_wave_ack(key), WaveAckOutcome::CompleteInitiator);

    // Every site applied the deposit exactly once; all bookkeeping is gone.
    for store in [&da, &db, &dc] {
        assert_eq!(store.calculate_solde("u"), 10);
        assert_eq!(store.transactions.len(), 1);
    }
    for state in [&sa, &sb, &sc] {
        assert_eq!(state.get_parent_for_wave(key), None);
        assert_eq!(state.get_expected_for_wave(key), None);
    }
}

// Wave idempotence under a cycle 0-1-2-3-0: every site holds the new user
// exactly once, and every non-initiator owes exactly one acknowledgment to
// its recorded parent.
#[test]
fn wave_idempotence_under_cycle() {
    let mut states: Vec<SiteState> = (0..4).map(|i| SiteState::new(i, 4)).collect();
    states[0].set_connected(1, true);
    states[0].set_connected(3, true);
    states[1].set_connected(0, true);
    states[1].set_connected(2, true);
    states[2].set_connected(1, true);
    states[2].set_connected(3, true);
    states[3].set_connected(2, true);
    states[3].set_connected(0, true);
    let mut stores: Vec<Store> = (0..4).map(|_| Store::new()).collect();

    let (s0, rest) = states.split_at_mut(1);
    let (msg, ok0) = execute_critical(
        &mut s0[0],
        &mut stores[0],
        &mut SnapshotManager::new(),
        &CriticalCommands::CreateUser { name: "u".to_string() },
    );
    assert!(ok0.is_ok());
    let key = WaveKey { initiator: 0, lamport: msg.clock.lamport };
    assert_eq!(s0[0].get_expected_for_wave(key), Some(2));

    // Site 1 hears it from 0 and forwards to 2.
    let (r1, _) = on_wave_message(&mut rest[0], &mut stores[1], &msg);
    assert_eq!(r1, WaveReceipt::Forward);
    // Site 3 hears it from 0 and forwards to 2.
    let (r3, _) = on_wave_message(&mut rest[2], &mut stores[3], &forwarded(&msg, 0));
    assert_eq!(r3, WaveReceipt::Forward);
    // Site 2 hears it first from 1, records 1 as parent, forwards to 3.
    let (r2, _) = on_wave_message(&mut rest[1], &mut stores[2], &forwarded(&msg, 1));
    assert_eq!(r2, WaveReceipt::Forward);
    assert_eq!(rest[1].get_parent_for_wave(key), Some(1));
    // Site 2 hears the copy travelling through 3: already known.
    let dup2 = on_wave_message(&mut rest[1], &mut stores[2], &forwarded(&msg, 3)).0;
    assert_eq!(dup2, WaveReceipt::DuplicateAck { to: 3 });
    // Site 3 hears site 2's forward: already known too.
    let dup3 = on_wave_message(&mut rest[2], &mut stores[3], &forwarded(&msg, 2)).0;
    assert_eq!(dup3, WaveReceipt::DuplicateAck { to: 2 });

    // Acknowledgments fold back: 2 completes toward its parent 1, 3 toward 0.
    let mut acks_sent: Vec<(usize, usize)> = Vec::new(); // (from, to parent)
    assert_eq!(rest[1].on_wave_ack(key), WaveAckOutcome::CompleteForward { parent: 1 });
    acks_sent.push((2, 1));
    assert_eq!(rest[2].on_wave_ack(key), WaveAckOutcome::CompleteForward { parent: 0 });
    acks_sent.push((3, 0));
    assert_eq!(rest[0].on_wave_ack(key), WaveAckOutcome::CompleteForward { parent: 0 });
    acks_sent.push((1, 0));
    assert_eq!(s0[0].on_wave_ack(key), WaveAckOutcome::Pending);
    assert_eq!(s0[0].on_wave_ack(key), WaveAckOutcome::CompleteInitiator);

    // Every site holds the user exactly once.
    for store in &stores {
        assert_eq!(store.get_users(), vec!["u".to_string()]);
    }
    // Every non-initiator sent exactly one acknowledgment, to its parent.
    assert_eq!(acks_sent, vec![(2, 1), (3, 0), (1, 0)]);
    for state in rest.iter() {
        assert_eq!(state.get_parent_for_wave(key), None);
    }
}

// Two sites apply concurrent payments: after both waves, every ledger holds
// exactly the two payment rows, under distinct keys.
#[test]
fn concurrent_critical_ops_distinct_keys() {
    let mut sa = SiteState::new(0, 2);
    sa.set_connected(1, true);
    let mut sb = SiteState::new(1, 2);
    sb.set_connected(0, true);
    let mut da = Store::new();
    let mut db = Store::new();
    da.create_user("u");
    db.create_user("u");

    let pay = CriticalCommands::Pay { name: "u".to_string(), amount: 5 };
    let (m_a, ok_a) = execute_critical(&mut sa, &mut da, &mut SnapshotManager::new(), &pay);
    let (m_b, ok_b) = execute_critical(&mut sb, &mut db, &mut SnapshotManager::new(), &pay);
    assert!(ok_a.is_ok());
    assert!(ok_b.is_ok());

    let (ra, _) = on_wave_message(&mut sb, &mut db, &m_a);
    assert_eq!(ra, WaveReceipt::LeafAck { to: 0 });
    let (rb, _) = on_wave_message(&mut sa, &mut da, &m_b);
    assert_eq!(rb, WaveReceipt::LeafAck { to: 1 });

    for store in [&da, &db] {
        assert_eq!(store.transactions.len(), 2);
        let k0 = (store.transactions[0].lamport, store.transactions[0].origin);
        let k1 = (store.transactions[1].lamport, store.transactions[1].origin);
        assert_ne!(k0, k1);
        assert_eq!(store.calculate_solde("u"), -10);
    }

    // A re-delivery of either wave changes nothing anywhere.
    let before = db.transactions.len();
    let (dup, _) = on_wave_message(&mut sb, &mut db, &m_a);
    assert_eq!(dup, WaveReceipt::DuplicateAck { to: 0 });
    assert_eq!(db.transactions.len(), before);
}

// Losing a peer mid-wave counts its outstanding acknowledgment as arrived:
// the wave still completes, and the peer's mutex slot is cleared.
#[test]
fn wave_disconnect_decrements_counters() {
    let mut sa = SiteState::new(0, 3);
    sa.set_connected(1, true);
    sa.set_connected(2, true);
    let mut da = Store::new();
    let (msg, ok0) = execute_critical(
        &mut sa,
        &mut da,
        &mut SnapshotManager::new(),
        &CriticalCommands::Deposit { name: "u".to_string(), amount: 3 },
    );
    assert!(ok0.is_ok());
    let key = WaveKey { initiator: 0, lamport: msg.clock.lamport };
    assert_eq!(sa.get_expected_for_wave(key), Some(2));
    sa.set_stamp(2, peillute::mutex::MutexStamp {
        tag: peillute::mutex::MutexTag::Request,
        date: 1,
    });

    let keys = sa.disconnect_peer(2);
    assert_eq!(keys, vec![key]);
    assert!(!sa.fifo_contains(2));
    // The lost peer's acknowledgment is counted; one neighbor still owes one.
    assert_eq!(sa.on_wave_ack(key), WaveAckOutcome::Pending);
    assert_eq!(sa.get_expected_for_wave(key), Some(1));
    assert_eq!(sa.on_wave_ack(key), WaveAckOutcome::CompleteInitiator);
}
