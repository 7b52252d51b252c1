use peillute::message::CriticalCommands;
use peillute::message::NetworkMessageCode;
use peillute::message::RecordedMsg;
use peillute::message::SiteRecord;
use peillute::site::SiteState;
use peillute::snapshot::sync_apply_record;
use peillute::snapshot::SnapshotManager;
use peillute::snapshot::SnapshotMode;
use peillute::store::Store;

fn vc() -> Vec<u64> {
    Vec::new()
}

fn record_of(site: usize, state: &SiteState, store: &Store) -> SiteRecord {
    SiteRecord {
        site,
        clock: state.get_clock(),
        users: store.get_users(),
        transactions: store.transactions.clone(),
        fifo: state.global_mutex_fifo.entries.clone(),
        recorded: Vec::new(),
    }
}

// File-mode snapshot over three sites and twenty interleaved transactions:
// the document holds one record per site, the balances add up to the
// deterministic expectation, and the in-flight list holds exactly the one
// message demonstrably caught on an open channel.
#[test]
fn snapshot_file_mode_document() {
    let mut states: Vec<SiteState> = (0..3).map(|i| SiteState::new(i, 3)).collect();
    for i in 0..3usize {
        for j in 0..3usize {
            if i != j {
                states[i].set_connected(j, true);
            }
        }
    }
    let mut stores: Vec<Store> = (0..3).map(|_| Store::new()).collect();
    for store in stores.iter_mut() {
        store.create_user("u0");
        store.create_user("u1");
        store.create_user("u2");
    }
    // Twenty transactions, replicated on every site under the same keys.
    let mut expected_total: i128 = 0;
    for k in 0..20u64 {
        let origin = (k % 3) as usize;
        let name = format!("u{}", origin);
        let amount = (k as i64) + 1;
        expected_total += amount as i128;
        for store in stores.iter_mut() {
            assert!(store.deposit(name.as_str(), amount, k + 1, origin, &vc()));
        }
    }

    // Site 0 initiates; its record expects three records in all.
    let mut mgr0 = SnapshotManager::new();
    let neighbors0 = states[0].get_connected_neighbours();
    let rec0 = record_of(0, &states[0], &stores[0]);
    mgr0.start_snapshot(SnapshotMode::FileMode, 0, 21, &neighbors0, rec0, 3);

    // One deposit message is still in flight from site 1 to site 0 and is
    // caught on the open channel before the request closes it.
    mgr0.record_channel_message(
        1,
        RecordedMsg {
            from: 1,
            to: 0,
            code: NetworkMessageCode::Transaction,
            op: Some(CriticalCommands::Deposit { name: "u1".to_string(), amount: 7 }),
            lamport: 22,
            origin: 1,
        },
    );

    // The other sites join on the first request and close their remaining
    // channels on the echoes.
    let mut mgr1 = SnapshotManager::new();
    let neighbors1 = states[1].get_connected_neighbours();
    let rec1 = record_of(1, &states[1], &stores[1]);
    assert!(mgr1.on_snapshot_request(0, SnapshotMode::FileMode, 0, 21, &neighbors1, rec1));
    let mut mgr2 = SnapshotManager::new();
    let neighbors2 = states[2].get_connected_neighbours();
    let rec2 = record_of(2, &states[2], &stores[2]);
    assert!(mgr2.on_snapshot_request(0, SnapshotMode::FileMode, 0, 21, &neighbors2, rec2));

    assert!(!mgr1.all_channels_closed());
    assert!(!mgr1.on_snapshot_request(2, SnapshotMode::FileMode, 0, 21, &neighbors1,
        record_of(1, &states[1], &stores[1])));
    assert!(mgr1.all_channels_closed());
    assert!(!mgr2.on_snapshot_request(1, SnapshotMode::FileMode, 0, 21, &neighbors2,
        record_of(2, &states[2], &stores[2])));
    assert!(mgr2.all_channels_closed());

    // The initiator's own channels close on the returning requests.
    assert!(!mgr0.on_snapshot_request(1, SnapshotMode::FileMode, 0, 21, &neighbors0,
        record_of(0, &states[0], &stores[0])));
    assert!(!mgr0.on_snapshot_request(2, SnapshotMode::FileMode, 0, 21, &neighbors0,
        record_of(0, &states[0], &stores[0])));
    assert!(mgr0.all_channels_closed());

    // Every site hands its finished record to the initiator.
    let own = mgr0.take_response();
    mgr0.on_snapshot_response(own);
    mgr0.on_snapshot_response(mgr1.take_response());
    mgr0.on_snapshot_response(mgr2.take_response());
    assert!(mgr0.snapshot_complete());

    let doc = mgr0.build_document();
    assert_eq!(doc.initiator, 0);
    assert_eq!(doc.lamport, 21);
    assert_eq!(doc.sites.len(), 3);

    // The balances of each recorded site add up to the expected total.
    for rec in &doc.sites {
        let replay = Store { users: rec.users.clone(), transactions: rec.transactions.clone() };
        let total: i128 = (0..3).map(|i| replay.calculate_solde(&format!("u{}", i))).sum();
        assert_eq!(total, expected_total);
        assert_eq!(rec.transactions.len(), 20);
    }

    // The in-flight list holds exactly the one caught message.
    let in_flight: Vec<&RecordedMsg> = doc.sites.iter().flat_map(|r| r.recorded.iter()).collect();
    assert_eq!(in_flight.len(), 1);
    assert_eq!(in_flight[0].from, 1);
    assert_eq!(in_flight[0].lamport, 22);
}

// Sync-mode reconciliation: folding a record in adds exactly the missing
// rows and accounts, and doing it twice changes nothing more.
#[test]
fn snapshot_sync_merge_idempotent() {
    let mut local = Store::new();
    local.create_user("a");
    local.deposit("a", 10, 1, 0, &vc());

    let mut remote = Store::new();
    remote.create_user("a");
    remote.create_user("b");
    remote.deposit("a", 10, 1, 0, &vc());
    remote.deposit("b", 20, 2, 1, &vc());

    let state = SiteState::new(1, 2);
    let rec = SiteRecord {
        site: 1,
        clock: state.get_clock(),
        users: remote.get_users(),
        transactions: remote.transactions.clone(),
        fifo: Vec::new(),
        recorded: Vec::new(),
    };

    sync_apply_record(&mut local, &rec);
    assert!(local.user_exists("b"));
    assert!(local.transaction_exists(2, 1));
    assert_eq!(local.transactions.len(), 2);
    assert_eq!(local.calculate_solde("a"), 10);
    assert_eq!(local.calculate_solde("b"), 20);

    let once = local.transactions.len();
    sync_apply_record(&mut local, &rec);
    assert_eq!(local.transactions.len(), once);
    assert_eq!(local.get_users(), vec!["a".to_string(), "b".to_string()]);
}

// Executing a snapshot command opens the snapshot at the initiator: the
// manager becomes active in the asked mode, tagged with the fresh Lamport
// time; a second snapshot while one is in progress is not started.
#[test]
fn snapshot_started_by_critical_command() {
    let mut state = SiteState::new(0, 3);
    state.set_connected(1, true);
    state.set_connected(2, true);
    let mut store = Store::new();
    let mut mgr = SnapshotManager::new();

    let (msg, ok0) = peillute::control::execute_critical(
        &mut state,
        &mut store,
        &mut mgr,
        &peillute::message::CriticalCommands::FileSnapshot,
    );
    assert!(ok0.is_ok());
    assert_eq!(msg.code, NetworkMessageCode::SnapshotRequest);
    assert!(mgr.active);
    assert!(mgr.is_initiator);
    assert_eq!(mgr.initiator, 0);
    assert_eq!(mgr.snapshot_lamport, 1);
    assert_eq!(mgr.expected_responses, 3);
    assert!(matches!(mgr.mode, SnapshotMode::FileMode));

    let lamport_before = mgr.snapshot_lamport;
    let _ = peillute::control::execute_critical(
        &mut state,
        &mut store,
        &mut mgr,
        &peillute::message::CriticalCommands::SyncSnapshot,
    );
    // The running snapshot stands; the new request did not replace it.
    assert!(matches!(mgr.mode, SnapshotMode::FileMode));
    assert_eq!(mgr.snapshot_lamport, lamport_before);
}
