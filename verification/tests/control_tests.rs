use peillute::control::control_worker_step;
use peillute::control::enqueue_critical;
use peillute::control::plan_cli_command;
use peillute::control::process_network_command;
use peillute::control::CliAction;
use peillute::control::CliInput;
use peillute::control::WorkerStep;
use peillute::message::parse_command;
use peillute::message::Command;
use peillute::message::CriticalCommands;
use peillute::message::MessageInfo;
use peillute::message::NetworkMessageCode;
use peillute::site::SiteState;
use peillute::store::Store;
use peillute::store::StoreError;

fn vc() -> Vec<u64> {
    Vec::new()
}

#[test]
fn parse_command_known_and_unknown() {
    assert_eq!(parse_command("/create_user"), Command::CreateUser);
    assert_eq!(parse_command("/user_accounts"), Command::UserAccounts);
    assert_eq!(parse_command("/print_user_tsx"), Command::PrintUserTransactions);
    assert_eq!(parse_command("/print_tsx"), Command::PrintTransactions);
    assert_eq!(parse_command("/deposit"), Command::Deposit);
    assert_eq!(parse_command("/withdraw"), Command::Withdraw);
    assert_eq!(parse_command("/transfer"), Command::Transfer);
    assert_eq!(parse_command("/pay"), Command::Pay);
    assert_eq!(parse_command("/refund"), Command::Refund);
    assert_eq!(parse_command("/help"), Command::Help);
    assert_eq!(parse_command("/info"), Command::Info);
    assert_eq!(parse_command("/start_snapshot"), Command::Snapshot);
    assert_eq!(parse_command("/nonsense"), Command::Unknown("/nonsense".to_string()));
}

#[test]
fn worker_step_decision_rule() {
    assert_eq!(control_worker_step(true, false, 2), WorkerStep::Execute);
    assert_eq!(control_worker_step(true, false, 0), WorkerStep::Release);
    assert_eq!(control_worker_step(false, false, 1), WorkerStep::Acquire);
    assert_eq!(control_worker_step(false, true, 1), WorkerStep::Idle);
    assert_eq!(control_worker_step(false, false, 0), WorkerStep::Idle);
}

// Enqueueing from an idle site kicks the mutex protocol; enqueueing while an
// attempt is live only queues.
#[test]
fn enqueue_kicks_protocol_once() {
    let mut state = SiteState::new(0, 2);
    state.set_connected(1, true);
    let cmd = CriticalCommands::CreateUser { name: "u".to_string() };
    let first = enqueue_critical(&mut state, cmd.clone());
    assert!(first.is_some());
    assert_eq!(first.unwrap().code, NetworkMessageCode::MutexRequest);
    assert!(state.waiting_sc);
    assert_eq!(state.pending_commands.len(), 1);

    let second = enqueue_critical(&mut state, cmd);
    assert!(second.is_none());
    assert_eq!(state.pending_commands.len(), 2);
}

// Network application is idempotent by key and exact in effect.
#[test]
fn network_command_applies_idempotently() {
    let mut store = Store::new();
    let dep = MessageInfo::Deposit { name: "u".to_string(), amount: 9 };
    assert!(process_network_command(&mut store, &dep, 4, 1, &vc()).is_ok());
    assert_eq!(store.calculate_solde("u"), 9);
    // The same key again is skipped whole, whatever it carries.
    let other = MessageInfo::Withdraw { name: "u".to_string(), amount: 9 };
    assert!(process_network_command(&mut store, &other, 4, 1, &vc()).is_ok());
    assert_eq!(store.calculate_solde("u"), 9);
    assert_eq!(store.transactions.len(), 1);

    let cu = MessageInfo::CreateUser { name: "w".to_string() };
    assert!(process_network_command(&mut store, &cu, 5, 1, &vc()).is_ok());
    assert!(store.user_exists("w"));

    let bad = MessageInfo::Refund { name: "u".to_string(), lamport: 77, node: 0 };
    assert_eq!(
        process_network_command(&mut store, &bad, 6, 1, &vc()),
        Err(StoreError::UnknownTransaction)
    );
}

#[test]
fn cli_plan_maps_commands() {
    let input = CliInput {
        name: "alice".to_string(),
        beneficiary: "bob".to_string(),
        amount: 12,
        lamport: 3,
        node: 1,
    };
    assert_eq!(
        plan_cli_command(&Command::Deposit, &input),
        CliAction::Enqueue(CriticalCommands::Deposit { name: "alice".to_string(), amount: 12 })
    );
    assert_eq!(
        plan_cli_command(&Command::Transfer, &input),
        CliAction::Enqueue(CriticalCommands::Transfer {
            from: "alice".to_string(),
            to: "bob".to_string(),
            amount: 12,
        })
    );
    assert_eq!(
        plan_cli_command(&Command::Refund, &input),
        CliAction::Enqueue(CriticalCommands::Refund {
            name: "alice".to_string(),
            lamport: 3,
            node: 1,
        })
    );
    assert_eq!(
        plan_cli_command(&Command::Snapshot, &input),
        CliAction::Enqueue(CriticalCommands::FileSnapshot)
    );
    assert_eq!(plan_cli_command(&Command::Help, &input), CliAction::ShowHelp);

    // A non-positive payment is rejected and nothing is enqueued.
    let mut zero = input.clone();
    zero.amount = 0;
    assert_eq!(plan_cli_command(&Command::Pay, &zero), CliAction::RejectedInput);
    assert_eq!(
        plan_cli_command(&Command::Pay, &input),
        CliAction::Enqueue(CriticalCommands::Pay { name: "alice".to_string(), amount: 12 })
    );
}

// A withdrawal of a negative amount is rejected and nothing is enqueued; a
// non-negative one is enqueued.
#[test]
fn cli_plan_rejects_negative_withdrawal() {
    let mut input = CliInput {
        name: "alice".to_string(),
        beneficiary: String::new(),
        amount: -1,
        lamport: 0,
        node: 0,
    };
    assert_eq!(plan_cli_command(&Command::Withdraw, &input), CliAction::RejectedInput);
    input.amount = 0;
    assert_eq!(
        plan_cli_command(&Command::Withdraw, &input),
        CliAction::Enqueue(CriticalCommands::Withdraw { name: "alice".to_string(), amount: 0 })
    );
}

// A refund that names an unknown transaction still opens the wave and hands
// the message out, with the store failure reported beside it, so the remote
// sites observe the operation and fail identically.
#[test]
fn refund_error_still_diffuses_wave() {
    let mut state = SiteState::new(0, 2);
    state.set_connected(1, true);
    let mut store = Store::new();
    let (msg, err) = peillute::control::execute_critical(
        &mut state,
        &mut store,
        &mut peillute::snapshot::SnapshotManager::new(),
        &CriticalCommands::Refund { name: "u".to_string(), lamport: 99, node: 1 },
    );
    assert_eq!(err, Err(StoreError::UnknownTransaction));
    assert_eq!(store.transactions.len(), 0);
    assert_eq!(msg.code, NetworkMessageCode::Transaction);
    let key = peillute::wave::WaveKey { initiator: 0, lamport: msg.clock.lamport };
    assert_eq!(state.get_expected_for_wave(key), Some(1));

    // The remote site reacts the same way on receipt.
    let mut remote_state = SiteState::new(1, 2);
    remote_state.set_connected(0, true);
    let mut remote_store = Store::new();
    let (_, remote_err) =
        peillute::control::on_wave_message(&mut remote_state, &mut remote_store, &msg);
    assert_eq!(remote_err, Err(StoreError::UnknownTransaction));
    assert_eq!(remote_store.transactions.len(), 0);
}

// The worker takes work from the head of the queue, one at a time.
#[test]
fn take_pending_pops_head() {
    let mut state = SiteState::new(0, 2);
    state.pending_commands.push(CriticalCommands::CreateUser { name: "a".to_string() });
    state.pending_commands.push(CriticalCommands::CreateUser { name: "b".to_string() });
    assert_eq!(
        state.take_pending(),
        Some(CriticalCommands::CreateUser { name: "a".to_string() })
    );
    assert_eq!(
        state.take_pending(),
        Some(CriticalCommands::CreateUser { name: "b".to_string() })
    );
    assert_eq!(state.take_pending(), None);
}

// After an enqueue kicks the mutex protocol, the other sites' recorded
// stamps are untouched, so an older request on record still denies entry
// until it is acknowledged.
#[test]
fn enqueue_keeps_other_stamps_and_entry_is_denied() {
    let mut state = SiteState::new(0, 2);
    state.set_connected(1, true);
    state.set_stamp(
        1,
        peillute::mutex::MutexStamp { tag: peillute::mutex::MutexTag::Request, date: 0 },
    );
    let request = enqueue_critical(
        &mut state,
        CriticalCommands::Pay { name: "u".to_string(), amount: 1 },
    );
    assert!(request.is_some());
    // The older request is still on record and blocks entry.
    assert!(!state.try_enter_sc());
    assert!(!state.in_sc);
    // Once it is acknowledged, entry succeeds.
    state.set_stamp(
        1,
        peillute::mutex::MutexStamp { tag: peillute::mutex::MutexTag::Ack, date: 0 },
    );
    assert!(state.try_enter_sc());
    assert!(state.in_sc);
}
