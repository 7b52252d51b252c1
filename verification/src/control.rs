//! Command handling: the pending queue, the control worker's decision rule,
//! execution of critical commands inside the critical section, and the
//! application of operations received from the network.
//!
//! The control worker is the single consumer of the pending queue. The front
//! end runs its loop and performs the sends; every decision it takes is a
//! function of `(in_sc, waiting_sc, pending length)` alone and stands here.

use vstd::prelude::*;
use crate::clock::abs_merge;
use crate::clock::abs_tick;
use crate::message::Command;
use crate::message::CriticalCommands;
use crate::message::Message;
use crate::message::MessageInfo;
use crate::message::NetworkMessageCode;
use crate::message::SiteRecord;
use crate::mutex::MutexStamp;
use crate::mutex::MutexTag;
use crate::site::SiteState;
use crate::site::count_true;
use crate::snapshot::SnapshotManager;
use crate::snapshot::SnapshotMode;
use crate::store::Store;
use crate::store::StoreError;
use crate::store::row_is;
use crate::store::spec_find_tx;
use crate::wave::WaveKey;

verus! {

/// What the control worker does next.
#[derive(Clone, Copy, Debug, PartialEq, Eq, Structural)]
pub enum WorkerStep {
    /// Ask for the critical section.
    Acquire,
    /// Pop the head of the pending queue and execute it.
    Execute,
    /// The queue is drained: give the critical section up.
    Release,
    /// Nothing to do until the next notification.
    Idle,
}

/// The control worker's decision rule: execute while the section is held and
/// work is queued, release a held section once the queue is drained, ask for
/// the section when work is queued and no attempt is live, else wait.
pub fn control_worker_step(in_sc: bool, waiting_sc: bool, pending_len: usize) -> (s: WorkerStep)
    ensures
        s == (if in_sc && pending_len > 0 {
            WorkerStep::Execute
        } else if in_sc {
            WorkerStep::Release
        } else if !waiting_sc && pending_len > 0 {
            WorkerStep::Acquire
        } else {
            WorkerStep::Idle
        }),
{
    if in_sc && pending_len > 0 {
        WorkerStep::Execute
    } else if in_sc {
        WorkerStep::Release
    } else if !waiting_sc && pending_len > 0 {
        WorkerStep::Acquire
    } else {
        WorkerStep::Idle
    }
}

/// Enqueues a critical command. When the site neither holds nor waits for
/// the critical section, this also starts a mutex request: the clock counts
/// one event, the own slot of the stamp table takes a fresh `Request` while
/// every other slot stands, and the returned message must be broadcast to
/// the connected neighbors.
pub fn enqueue_critical(state: &mut SiteState, cmd: CriticalCommands) -> (msg: Option<Message>)
    requires
        old(state).wf(),
        old(state).clock.can_tick(),
    ensures
        final(state).wf(),
        final(state).pending_commands@ == old(state).pending_commands@.push(cmd),
        final(state).site_id == old(state).site_id,
        final(state).n_sites == old(state).n_sites,
        final(state).connected == old(state).connected,
        final(state).waves == old(state).waves,
        !old(state).in_sc && !old(state).waiting_sc ==> {
            &&& final(state).waiting_sc
            &&& !final(state).in_sc
            &&& final(state).clock.abs() == abs_tick(old(state).clock.abs())
            &&& final(state).request_date == old(state).clock.lamport + 1
            &&& final(state).global_mutex_fifo.spec_get(old(state).site_id) == Some(
                MutexStamp { tag: MutexTag::Request, date: final(state).request_date },
            )
            &&& (forall|k: usize|
                k != old(state).site_id ==> final(state).global_mutex_fifo.spec_get(k) == old(state).global_mutex_fifo.spec_get(k))
            &&& (msg matches Some(m) && m.code == NetworkMessageCode::MutexRequest
                && m.sender_id == old(state).site_id && m.initiator_id == old(state).site_id && (
            m.info matches MessageInfo::AcquireMutex { date } && date == final(state).request_date) && m.clock.lamport == final(state).clock.lamport && m.clock.vector@
                == final(state).clock.vector@)
        },
        old(state).in_sc || old(state).waiting_sc ==> msg is None && final(state).in_sc == old(state).in_sc && final(state).waiting_sc == old(state).waiting_sc && final(state).clock == old(state).clock && final(state).global_mutex_fifo == old(state).global_mutex_fifo,
{
    state.pending_commands.push(cmd);
    if !state.in_sc && !state.waiting_sc {
        let m = state.acquire_mutex();
        Some(m)
    } else {
        None
    }
}

/// Captures this site's current state for a snapshot: its clock, accounts,
/// ledger and mutex table, with no channel recording yet.
pub fn local_record(state: &SiteState, store: &Store) -> (r: SiteRecord)
    ensures
        r.site == state.site_id,
        r.clock.lamport == state.clock.lamport,
        r.clock.vector@ == state.clock.vector@,
        r.clock.me == state.clock.me,
        r.users@ == store.users@,
        r.transactions@.len() == store.transactions@.len(),
        forall|i: int|
            0 <= i < store.transactions@.len() ==> crate::store::tx_equal(
                #[trigger] r.transactions@[i],
                store.transactions@[i],
            ),
        r.fifo@ == state.global_mutex_fifo.entries@,
        r.recorded@.len() == 0,
{
    SiteRecord {
        site: state.get_site_id(),
        clock: state.get_clock(),
        users: store.get_users(),
        transactions: crate::store::clone_transactions(&store.transactions),
        fifo: state.global_mutex_fifo.entries_copy(),
        recorded: Vec::new(),
    }
}

/// What `execute_critical` did to the store, stated per command over the
/// fresh key `(d, me)`.
pub open spec fn critical_store_effect(
    pre: Store,
    post: Store,
    cmd: CriticalCommands,
    d: u64,
    me: usize,
    vec: Seq<u64>,
) -> bool {
    match cmd {
        CriticalCommands::CreateUser { name } => {
            &&& post.has_user(name@)
            &&& post.transactions@ == pre.transactions@
            &&& (pre.has_user(name@) ==> post == pre)
        },
        CriticalCommands::Deposit { name, amount } => {
            &&& post.users@ == pre.users@
            &&& (pre.has_tx(d, me) ==> post == pre)
            &&& (!pre.has_tx(d, me) ==> post.transactions@ == pre.transactions@.push(
                post.transactions@.last(),
            ) && row_is(post.transactions@.last(), d, me, "NULL"@, name@, amount, vec))
        },
        CriticalCommands::Withdraw { name, amount } => {
            &&& post.users@ == pre.users@
            &&& (pre.has_tx(d, me) ==> post == pre)
            &&& (!pre.has_tx(d, me) ==> post.transactions@ == pre.transactions@.push(
                post.transactions@.last(),
            ) && row_is(post.transactions@.last(), d, me, name@, "NULL"@, amount, vec))
        },
        CriticalCommands::Transfer { from, to, amount } => {
            &&& post.users@ == pre.users@
            &&& (pre.has_tx(d, me) ==> post == pre)
            &&& (!pre.has_tx(d, me) ==> post.transactions@ == pre.transactions@.push(
                post.transactions@.last(),
            ) && row_is(post.transactions@.last(), d, me, from@, to@, amount, vec))
        },
        CriticalCommands::Pay { name, amount } => {
            &&& post.users@ == pre.users@
            &&& (pre.has_tx(d, me) ==> post == pre)
            &&& (!pre.has_tx(d, me) ==> post.transactions@ == pre.transactions@.push(
                post.transactions@.last(),
            ) && row_is(post.transactions@.last(), d, me, name@, "NULL"@, amount, vec))
        },
        CriticalCommands::Refund { name, lamport, node } => {
            &&& post.users@ == pre.users@
            &&& (!pre.has_tx(lamport, node) ==> post == pre)
            &&& (pre.has_tx(lamport, node) ==> ({
                let target = spec_find_tx(pre.transactions@, lamport, node).unwrap();
                &&& (pre.has_tx(d, me) ==> post == pre)
                &&& (!pre.has_tx(d, me) ==> post.transactions@ == pre.transactions@.push(
                    post.transactions@.last(),
                ) && post.transactions@.last().lamport == d && post.transactions@.last().origin
                    == me && post.transactions@.last().src@ == target.dst@
                    && post.transactions@.last().dst@ == target.src@
                    && post.transactions@.last().amount == target.amount
                    && post.transactions@.last().vector@ == vec
                    && post.transactions@.last().refund_of == Some((lamport, node)))
            }))
        },
        CriticalCommands::FileSnapshot => post == pre,
        CriticalCommands::SyncSnapshot => post == pre,
    }
}

/// Executes one critical command on this site, inside the critical section:
/// counts a local event, applies the command to the local store under the
/// fresh key `(lamport, site)`, records the wave bookkeeping, and hands back
/// the message to diffuse. A store failure — a refund naming an unknown
/// transaction, the one kind — is reported beside the message, but the wave
/// still opens and the message must still go out, so the other sites observe
/// the operation and fail the same way. No echo bookkeeping is kept for a
/// snapshot command (the snapshot completes through its response collection)
/// nor when no neighbor is connected (such a wave is complete at once).
#[verifier::rlimit(60)]
pub fn execute_critical(
    state: &mut SiteState,
    store: &mut Store,
    snaps: &mut SnapshotManager,
    cmd: &CriticalCommands,
) -> (r: (Message, Result<(), StoreError>))
    requires
        old(state).wf(),
        old(store).wf(),
        old(snaps).wf(),
        old(state).clock.can_tick(),
    ensures
        final(snaps).wf(),
        !(cmd is FileSnapshot || cmd is SyncSnapshot) ==> *final(snaps) == *old(snaps),
        (cmd is FileSnapshot || cmd is SyncSnapshot) && old(snaps).active ==> *final(snaps)
            == *old(snaps),
        (cmd is FileSnapshot || cmd is SyncSnapshot) && !old(snaps).active ==> final(snaps).active
            && final(snaps).is_initiator && final(snaps).initiator == old(state).site_id && final(snaps).snapshot_lamport == old(state).clock.lamport + 1 && final(snaps).mode == (
        if cmd is SyncSnapshot {
            SnapshotMode::SyncMode
        } else {
            SnapshotMode::FileMode
        }) && final(snaps).expected_responses == old(state).n_sites,
        final(state).wf(),
        final(store).wf(),
        final(state).clock.abs() == abs_tick(old(state).clock.abs()),
        final(state).site_id == old(state).site_id,
        final(state).n_sites == old(state).n_sites,
        final(state).connected == old(state).connected,
        final(state).in_sc == old(state).in_sc,
        final(state).waiting_sc == old(state).waiting_sc,
        final(state).request_date == old(state).request_date,
        final(state).pending_commands == old(state).pending_commands,
        final(state).global_mutex_fifo == old(state).global_mutex_fifo,
        critical_store_effect(
            *old(store),
            *final(store),
            *cmd,
            (old(state).clock.lamport + 1) as u64,
            old(state).site_id,
            final(state).clock.vector@,
        ),
        r.1 is Err <==> (cmd matches CriticalCommands::Refund { lamport, node, .. } && !old(store).has_tx(*lamport, *node)),
        r.1 is Err ==> r.1 == Result::<(), StoreError>::Err(StoreError::UnknownTransaction),
        !(cmd is FileSnapshot || cmd is SyncSnapshot) && count_true(old(state).connected@) > 0
            ==> (final(state).waves.spec_get(
            WaveKey {
                initiator: old(state).site_id,
                lamport: (old(state).clock.lamport + 1) as u64,
            },
        ) matches Some(w) && w.parent == old(state).site_id && w.expected as int == count_true(
            old(state).connected@,
        )),
        (cmd is FileSnapshot || cmd is SyncSnapshot) || count_true(old(state).connected@) == 0
            ==> final(state).waves == old(state).waves,
        forall|k2: WaveKey|
            k2 != (WaveKey {
                initiator: old(state).site_id,
                lamport: (old(state).clock.lamport + 1) as u64,
            }) ==> final(state).waves.spec_get(k2) == old(state).waves.spec_get(k2),
        r.0.sender_id == old(state).site_id,
        r.0.initiator_id == old(state).site_id,
        r.0.clock.lamport == old(state).clock.lamport + 1,
        r.0.clock.vector@ == final(state).clock.vector@,
        r.0.clock.me == old(state).site_id,
        r.0.code == (match *cmd {
            CriticalCommands::FileSnapshot => NetworkMessageCode::SnapshotRequest,
            CriticalCommands::SyncSnapshot => NetworkMessageCode::SnapshotRequest,
            _ => NetworkMessageCode::Transaction,
        }),
        message_matches_command(r.0.info, *cmd),
        r.0.command == (match *cmd {
            CriticalCommands::CreateUser { .. } => Some(Command::CreateUser),
            CriticalCommands::Deposit { .. } => Some(Command::Deposit),
            CriticalCommands::Withdraw { .. } => Some(Command::Withdraw),
            CriticalCommands::Transfer { .. } => Some(Command::Transfer),
            CriticalCommands::Pay { .. } => Some(Command::Pay),
            CriticalCommands::Refund { .. } => Some(Command::Refund),
            CriticalCommands::FileSnapshot => None::<Command>,
            CriticalCommands::SyncSnapshot => None::<Command>,
        }),
{
    state.update_clock(None);
    let d: u64 = state.clock.get_lamport();
    let me: usize = state.get_site_id();
    let vec_now: Vec<u64> = state.clock.get_vector_clock();
    let info: MessageInfo;
    let command: Option<Command>;
    let code: NetworkMessageCode;
    let mut op_err: Result<(), StoreError> = Ok(());
    match cmd {
        CriticalCommands::CreateUser { name } => {
            store.create_user(name.as_str());
            info = MessageInfo::CreateUser { name: name.clone() };
            command = Some(Command::CreateUser);
            code = NetworkMessageCode::Transaction;
        },
        CriticalCommands::Deposit { name, amount } => {
            store.deposit(name.as_str(), *amount, d, me, &vec_now);
            info = MessageInfo::Deposit { name: name.clone(), amount: *amount };
            command = Some(Command::Deposit);
            code = NetworkMessageCode::Transaction;
        },
        CriticalCommands::Withdraw { name, amount } => {
            store.withdraw(name.as_str(), *amount, d, me, &vec_now);
            info = MessageInfo::Withdraw { name: name.clone(), amount: *amount };
            command = Some(Command::Withdraw);
            code = NetworkMessageCode::Transaction;
        },
        CriticalCommands::Transfer { from, to, amount } => {
            store.create_transaction(from.as_str(), to.as_str(), *amount, d, me, &vec_now);
            info = MessageInfo::Transfer { from: from.clone(), to: to.clone(), amount: *amount };
            command = Some(Command::Transfer);
            code = NetworkMessageCode::Transaction;
        },
        CriticalCommands::Pay { name, amount } => {
            store.create_transaction(name.as_str(), "NULL", *amount, d, me, &vec_now);
            info = MessageInfo::Pay { name: name.clone(), amount: *amount };
            command = Some(Command::Pay);
            code = NetworkMessageCode::Transaction;
        },
        CriticalCommands::Refund { name, lamport, node } => {
            match store.refund_transaction(*lamport, *node, d, me, &vec_now) {
                Ok(_) => {},
                Err(e) => {
                    op_err = Err(e);
                },
            }
            info = MessageInfo::Refund { name: name.clone(), lamport: *lamport, node: *node };
            command = Some(Command::Refund);
            code = NetworkMessageCode::Transaction;
        },
        CriticalCommands::FileSnapshot => {
            if !snaps.active {
                let record = local_record(state, store);
                let neighbors = state.get_connected_neighbours();
                snaps.start_snapshot(
                    SnapshotMode::FileMode,
                    me,
                    d,
                    &neighbors,
                    record,
                    state.n_sites,
                );
            }
            info = MessageInfo::Snapshot { mode: SnapshotMode::FileMode };
            command = None;
            code = NetworkMessageCode::SnapshotRequest;
        },
        CriticalCommands::SyncSnapshot => {
            if !snaps.active {
                let record = local_record(state, store);
                let neighbors = state.get_connected_neighbours();
                snaps.start_snapshot(
                    SnapshotMode::SyncMode,
                    me,
                    d,
                    &neighbors,
                    record,
                    state.n_sites,
                );
            }
            info = MessageInfo::Snapshot { mode: SnapshotMode::SyncMode };
            command = None;
            code = NetworkMessageCode::SnapshotRequest;
        },
    }
    let nb_neigh: usize = state.get_nb_connected_neighbours();
    let is_snapshot: bool = match cmd {
        CriticalCommands::FileSnapshot => true,
        CriticalCommands::SyncSnapshot => true,
        _ => false,
    };
    if !is_snapshot && nb_neigh > 0 {
        state.record_wave(WaveKey { initiator: me, lamport: d }, me, nb_neigh);
    }
    let mclock = state.get_clock();
    (
        Message {
            command,
            info,
            code,
            clock: mclock,
            sender_id: me,
            initiator_id: me,
        },
        op_err,
    )
}

/// The message payload carries the same operation as the command.
pub open spec fn message_matches_command(info: MessageInfo, cmd: CriticalCommands) -> bool {
    match cmd {
        CriticalCommands::CreateUser { name } => (info matches MessageInfo::CreateUser {
            name: n2,
        } && n2@ == name@),
        CriticalCommands::Deposit { name, amount } => (info matches MessageInfo::Deposit {
            name: n2,
            amount: a2,
        } && n2@ == name@ && a2 == amount),
        CriticalCommands::Withdraw { name, amount } => (info matches MessageInfo::Withdraw {
            name: n2,
            amount: a2,
        } && n2@ == name@ && a2 == amount),
        CriticalCommands::Transfer { from, to, amount } => (info matches MessageInfo::Transfer {
            from: f2,
            to: t2,
            amount: a2,
        } && f2@ == from@ && t2@ == to@ && a2 == amount),
        CriticalCommands::Pay { name, amount } => (info matches MessageInfo::Pay {
            name: n2,
            amount: a2,
        } && n2@ == name@ && a2 == amount),
        CriticalCommands::Refund { name, lamport, node } => (info matches MessageInfo::Refund {
            name: n2,
            lamport: l2,
            node: o2,
        } && n2@ == name@ && l2 == lamport && o2 == node),
        CriticalCommands::FileSnapshot => (info matches MessageInfo::Snapshot { mode } && mode
            == SnapshotMode::FileMode),
        CriticalCommands::SyncSnapshot => (info matches MessageInfo::Snapshot { mode } && mode
            == SnapshotMode::SyncMode),
    }
}

/// Applies an operation received from the network to the local store,
/// idempotently under the key `(lamport, origin)`: a key already applied is
/// skipped whole. Mutex payloads and empty payloads change nothing; a refund
/// of an unknown transaction is the one failure.
pub fn process_network_command(
    store: &mut Store,
    info: &MessageInfo,
    lamport: u64,
    origin: usize,
    vector: &Vec<u64>,
) -> (r: Result<(), StoreError>)
    requires
        old(store).wf(),
    ensures
        final(store).wf(),
        old(store).has_tx(lamport, origin) ==> *final(store) == *old(store) && r is Ok,
        !old(store).has_tx(lamport, origin) ==> network_store_effect(
            *old(store),
            *final(store),
            *info,
            lamport,
            origin,
            vector@,
            r,
        ),
{
    if store.transaction_exists(lamport, origin) {
        return Ok(());
    }
    match info {
        MessageInfo::CreateUser { name } => {
            if store.user_exists(name.as_str()) {
                return Ok(());
            }
            store.create_user(name.as_str());
            Ok(())
        },
        MessageInfo::Deposit { name, amount } => {
            store.deposit(name.as_str(), *amount, lamport, origin, vector);
            Ok(())
        },
        MessageInfo::Withdraw { name, amount } => {
            store.withdraw(name.as_str(), *amount, lamport, origin, vector);
            Ok(())
        },
        MessageInfo::Transfer { from, to, amount } => {
            store.create_transaction(from.as_str(), to.as_str(), *amount, lamport, origin, vector);
            Ok(())
        },
        MessageInfo::Pay { name, amount } => {
            store.create_transaction(name.as_str(), "NULL", *amount, lamport, origin, vector);
            Ok(())
        },
        MessageInfo::Refund { name: _, lamport: tl, node: tn } => {
            match store.refund_transaction(*tl, *tn, lamport, origin, vector) {
                Ok(_) => Ok(()),
                Err(e) => Err(e),
            }
        },
        MessageInfo::AckMutex { .. } => Ok(()),
        MessageInfo::AcquireMutex { .. } => Ok(()),
        MessageInfo::ReleaseMutex { .. } => Ok(()),
        MessageInfo::Snapshot { .. } => Ok(()),
        MessageInfo::SnapshotResponse(_) => Ok(()),
        MessageInfo::Empty => Ok(()),
    }
}

/// What `process_network_command` did to a store whose key `(lamport,
/// origin)` was new, stated per payload.
pub open spec fn network_store_effect(
    pre: Store,
    post: Store,
    info: MessageInfo,
    lamport: u64,
    origin: usize,
    vector: Seq<u64>,
    r: Result<(), StoreError>,
) -> bool {
    match info {
        MessageInfo::CreateUser { name } => {
            &&& r is Ok
            &&& post.has_user(name@)
            &&& post.transactions@ == pre.transactions@
            &&& (pre.has_user(name@) ==> post == pre)
        },
        MessageInfo::Deposit { name, amount } => {
            &&& r is Ok
            &&& post.users@ == pre.users@
            &&& post.transactions@ == pre.transactions@.push(post.transactions@.last())
            &&& row_is(post.transactions@.last(), lamport, origin, "NULL"@, name@, amount, vector)
        },
        MessageInfo::Withdraw { name, amount } => {
            &&& r is Ok
            &&& post.users@ == pre.users@
            &&& post.transactions@ == pre.transactions@.push(post.transactions@.last())
            &&& row_is(post.transactions@.last(), lamport, origin, name@, "NULL"@, amount, vector)
        },
        MessageInfo::Transfer { from, to, amount } => {
            &&& r is Ok
            &&& post.users@ == pre.users@
            &&& post.transactions@ == pre.transactions@.push(post.transactions@.last())
            &&& row_is(post.transactions@.last(), lamport, origin, from@, to@, amount, vector)
        },
        MessageInfo::Pay { name, amount } => {
            &&& r is Ok
            &&& post.users@ == pre.users@
            &&& post.transactions@ == pre.transactions@.push(post.transactions@.last())
            &&& row_is(post.transactions@.last(), lamport, origin, name@, "NULL"@, amount, vector)
        },
        MessageInfo::Refund { name: _, lamport: tl, node: tn } => {
            &&& (r is Ok <==> pre.has_tx(tl, tn))
            &&& (r is Err ==> post == pre && r == Result::<(), StoreError>::Err(
                StoreError::UnknownTransaction,
            ))
            &&& (r is Ok ==> {
                let target = spec_find_tx(pre.transactions@, tl, tn).unwrap();
                &&& post.users@ == pre.users@
                &&& post.transactions@ == pre.transactions@.push(post.transactions@.last())
                &&& post.transactions@.last().lamport == lamport
                &&& post.transactions@.last().origin == origin
                &&& post.transactions@.last().src@ == target.dst@
                &&& post.transactions@.last().dst@ == target.src@
                &&& post.transactions@.last().amount == target.amount
                &&& post.transactions@.last().vector@ == vector
                &&& post.transactions@.last().refund_of == Some((tl, tn))
            })
        },
        MessageInfo::AckMutex { .. } => r is Ok && post == pre,
        MessageInfo::AcquireMutex { .. } => r is Ok && post == pre,
        MessageInfo::ReleaseMutex { .. } => r is Ok && post == pre,
        MessageInfo::Snapshot { .. } => r is Ok && post == pre,
        MessageInfo::SnapshotResponse(_) => r is Ok && post == pre,
        MessageInfo::Empty => r is Ok && post == pre,
    }
}

/// What the receipt of a wave message asks the front end to send.
#[derive(Clone, Copy, Debug, PartialEq, Eq, Structural)]
pub enum WaveReceipt {
    /// The wave was already known here: acknowledge the sender at once.
    DuplicateAck { to: usize },
    /// First receipt: forward the message to every connected neighbor but
    /// the sender.
    Forward,
    /// First receipt at a leaf: acknowledge the sender; no bookkeeping is
    /// kept.
    LeafAck { to: usize },
}

/// Whether this site already knows the wave: bookkeeping is live, or the
/// operation is already in the ledger.
pub open spec fn wave_already_known(state: SiteState, store: Store, key: WaveKey) -> bool {
    state.waves.spec_contains(key) || store.has_tx(key.lamport, key.initiator)
}

/// Handles a wave message that carries a critical operation. A wave already
/// known here is answered with an immediate acknowledgment and nothing
/// changes; a first receipt folds the clock in, applies the operation
/// idempotently under the key `(initiator lamport, initiator)`, and either
/// records the bookkeeping and forwards, or, at a leaf, acknowledges the
/// sender at once. A store failure is reported but the wave still
/// propagates.
pub fn on_wave_message(state: &mut SiteState, store: &mut Store, msg: &Message) -> (r: (
    WaveReceipt,
    Result<(), StoreError>,
))
    requires
        old(state).wf(),
        old(store).wf(),
        msg.code == NetworkMessageCode::Transaction,
        msg.clock.wf(),
        msg.clock.vector@.len() == old(state).n_sites,
        msg.clock.can_tick(),
        old(state).clock.can_tick(),
    ensures
        final(state).wf(),
        final(store).wf(),
        ({
            let key = WaveKey { initiator: msg.initiator_id, lamport: msg.clock.lamport };
            &&& (wave_already_known(*old(state), *old(store), key) ==> r.0
                == WaveReceipt::DuplicateAck { to: msg.sender_id } && r.1 is Ok && *final(state)
                == *old(state) && *final(store) == *old(store))
            &&& (!wave_already_known(*old(state), *old(store), key) ==> {
                &&& final(state).clock.abs() == abs_merge(old(state).clock.abs(), msg.clock.abs())
                &&& network_store_effect(
                    *old(store),
                    *final(store),
                    msg.info,
                    msg.clock.lamport,
                    msg.initiator_id,
                    msg.clock.vector@,
                    r.1,
                )
                &&& (count_true(old(state).connected@) > 1 ==> r.0 == WaveReceipt::Forward && (
                final(state).waves.spec_get(key) matches Some(w) && w.parent == msg.sender_id
                    && w.expected as int == count_true(old(state).connected@) - 1))
                &&& (count_true(old(state).connected@) <= 1 ==> r.0 == WaveReceipt::LeafAck {
                    to: msg.sender_id,
                } && final(state).waves == old(state).waves)
                &&& (forall|k2: WaveKey|
                    k2 != key ==> final(state).waves.spec_get(k2) == old(state).waves.spec_get(
                        k2,
                    ))
                &&& final(state).in_sc == old(state).in_sc
                &&& final(state).waiting_sc == old(state).waiting_sc
                &&& final(state).pending_commands == old(state).pending_commands
                &&& final(state).global_mutex_fifo == old(state).global_mutex_fifo
            })
        }),
        final(state).site_id == old(state).site_id,
        final(state).n_sites == old(state).n_sites,
        final(state).connected == old(state).connected,
{
    let key = WaveKey { initiator: msg.initiator_id, lamport: msg.clock.lamport };
    if state.wave_known(key) || store.transaction_exists(key.lamport, key.initiator) {
        return (WaveReceipt::DuplicateAck { to: msg.sender_id }, Ok(()));
    }
    state.update_clock(Some(&msg.clock));
    let applied = process_network_command(
        store,
        &msg.info,
        msg.clock.get_lamport(),
        msg.initiator_id,
        &msg.clock.vector,
    );
    let nb: usize = state.get_nb_connected_neighbours();
    if nb > 1 {
        state.record_wave(key, msg.sender_id, nb - 1);
        (WaveReceipt::Forward, applied)
    } else {
        (WaveReceipt::LeafAck { to: msg.sender_id }, applied)
    }
}

/// Wave at-most-once kernel: once the operation of a wave stands in the
/// ledger under its `(lamport, initiator)` key, that wave counts as known at
/// this site, whatever happened to its bookkeeping; a further delivery of
/// the wave message is therefore answered with an immediate acknowledgment
/// and leaves both the state and the store untouched.
pub proof fn lemma_wave_second_delivery(state: SiteState, store: Store, key: WaveKey)
    requires
        store.has_tx(key.lamport, key.initiator),
    ensures
        wave_already_known(state, store, key),
{
}

/// Input the CLI gathered for one command, before the decision what to do
/// with it.
#[derive(Clone, Debug, PartialEq)]
pub struct CliInput {
    /// Account the command speaks of.
    pub name: String,
    /// Receiving account of a transfer.
    pub beneficiary: String,
    /// Amount, in the smallest currency unit.
    pub amount: i64,
    /// Lamport half of a refund's target key.
    pub lamport: u64,
    /// Site half of a refund's target key.
    pub node: usize,
}

/// What the CLI should do for one parsed command.
#[derive(Clone, Debug, PartialEq)]
pub enum CliAction {
    /// Enqueue this critical command.
    Enqueue(CriticalCommands),
    /// Print the account roster.
    ShowUsers,
    /// Print the ledger rows of this account.
    ShowUserTransactions { name: String },
    /// Print the whole ledger.
    ShowTransactions,
    /// Print the command list.
    ShowHelp,
    /// Print the system information.
    ShowInfo,
    /// The amount was not positive where a positive one is required; nothing
    /// is enqueued.
    RejectedInput,
    /// The line named no known command; print it back.
    UnknownInput { text: String },
    /// A read error was reported; print it back.
    ErrorInput { text: String },
}

/// Decides what one CLI command does with the gathered input. A payment of a
/// non-positive amount and a withdrawal of a negative amount are rejected
/// and nothing is enqueued; deposits and transfers carry no positivity rule,
/// so they are enqueued whatever the amount. Every other command maps to its
/// critical command or local query.
pub fn plan_cli_command(cmd: &Command, input: &CliInput) -> (a: CliAction)
    ensures
        cmd is CreateUser ==> (a matches CliAction::Enqueue(CriticalCommands::CreateUser { name })
            && name@ == input.name@),
        cmd is Deposit ==> (a matches CliAction::Enqueue(CriticalCommands::Deposit {
            name,
            amount,
        }) && name@ == input.name@ && amount == input.amount),
        cmd is Withdraw && input.amount >= 0 ==> (a matches CliAction::Enqueue(
            CriticalCommands::Withdraw { name, amount },
        ) && name@ == input.name@ && amount == input.amount),
        cmd is Withdraw && input.amount < 0 ==> a == CliAction::RejectedInput,
        cmd is Transfer ==> (a matches CliAction::Enqueue(CriticalCommands::Transfer {
            from,
            to,
            amount,
        }) && from@ == input.name@ && to@ == input.beneficiary@ && amount == input.amount),
        cmd is Pay && input.amount > 0 ==> (a matches CliAction::Enqueue(CriticalCommands::Pay {
            name,
            amount,
        }) && name@ == input.name@ && amount == input.amount),
        cmd is Pay && input.amount <= 0 ==> a == CliAction::RejectedInput,
        cmd is Refund ==> (a matches CliAction::Enqueue(CriticalCommands::Refund {
            name,
            lamport,
            node,
        }) && name@ == input.name@ && lamport == input.lamport && node == input.node),
        cmd is Snapshot ==> a == CliAction::Enqueue(CriticalCommands::FileSnapshot),
        cmd is UserAccounts ==> a == CliAction::ShowUsers,
        cmd is PrintUserTransactions ==> (a matches CliAction::ShowUserTransactions { name }
            && name@ == input.name@),
        cmd is PrintTransactions ==> a == CliAction::ShowTransactions,
        cmd is Help ==> a == CliAction::ShowHelp,
        cmd is Info ==> a == CliAction::ShowInfo,
        (cmd matches Command::Unknown(t) ==> (a matches CliAction::UnknownInput { text } && text@
            == t@)),
        (cmd matches Command::Error(t) ==> (a matches CliAction::ErrorInput { text } && text@
            == t@)),
{
    match cmd {
        Command::CreateUser => CliAction::Enqueue(
            CriticalCommands::CreateUser { name: input.name.clone() },
        ),
        Command::UserAccounts => CliAction::ShowUsers,
        Command::PrintUserTransactions => CliAction::ShowUserTransactions {
            name: input.name.clone(),
        },
        Command::PrintTransactions => CliAction::ShowTransactions,
        Command::Deposit => CliAction::Enqueue(
            CriticalCommands::Deposit { name: input.name.clone(), amount: input.amount },
        ),
        Command::Withdraw => {
            if input.amount < 0 {
                CliAction::RejectedInput
            } else {
                CliAction::Enqueue(
                    CriticalCommands::Withdraw { name: input.name.clone(), amount: input.amount },
                )
            }
        },
        Command::Transfer => CliAction::Enqueue(
            CriticalCommands::Transfer {
                from: input.name.clone(),
                to: input.beneficiary.clone(),
                amount: input.amount,
            },
        ),
        Command::Pay => {
            if input.amount <= 0 {
                CliAction::RejectedInput
            } else {
                CliAction::Enqueue(
                    CriticalCommands::Pay { name: input.name.clone(), amount: input.amount },
                )
            }
        },
        Command::Refund => CliAction::Enqueue(
            CriticalCommands::Refund {
                name: input.name.clone(),
                lamport: input.lamport,
                node: input.node,
            },
        ),
        Command::Help => CliAction::ShowHelp,
        Command::Info => CliAction::ShowInfo,
        Command::Snapshot => CliAction::Enqueue(CriticalCommands::FileSnapshot),
        Command::Unknown(t) => CliAction::UnknownInput { text: t.clone() },
        Command::Error(t) => CliAction::ErrorInput { text: t.clone() },
    }
}

/// Wave exactly-once: the first delivery of an operation applies it; any
/// further delivery of the same operation, under the same `(lamport,
/// origin)` key, leaves the store exactly as the first one left it. `mid` is
/// the store after the first application, `post` after the second; the two
/// hypotheses on the second call are what `process_network_command` ensures.
pub proof fn lemma_network_reapply_noop(
    pre: Store,
    mid: Store,
    post: Store,
    info: MessageInfo,
    lamport: u64,
    origin: usize,
    vector: Seq<u64>,
    r1: Result<(), StoreError>,
    r2: Result<(), StoreError>,
)
    requires
        !pre.has_tx(lamport, origin),
        network_store_effect(pre, mid, info, lamport, origin, vector, r1),
        r1 is Ok,
        mid.has_tx(lamport, origin) ==> post == mid && r2 is Ok,
        !mid.has_tx(lamport, origin) ==> network_store_effect(
            mid,
            post,
            info,
            lamport,
            origin,
            vector,
            r2,
        ),
    ensures
        post == mid,
{
    match info {
        MessageInfo::CreateUser { name } => {
            assert(!mid.has_tx(lamport, origin));
            assert(mid.has_user(name@));
        },
        MessageInfo::Deposit { .. } => {
            lemma_last_row_key(pre, mid, lamport, origin);
        },
        MessageInfo::Withdraw { .. } => {
            lemma_last_row_key(pre, mid, lamport, origin);
        },
        MessageInfo::Transfer { .. } => {
            lemma_last_row_key(pre, mid, lamport, origin);
        },
        MessageInfo::Pay { .. } => {
            lemma_last_row_key(pre, mid, lamport, origin);
        },
        MessageInfo::Refund { .. } => {
            lemma_last_row_key(pre, mid, lamport, origin);
        },
        _ => {},
    }
}

/// A ledger that appended one row carrying the key holds the key.
proof fn lemma_last_row_key(pre: Store, mid: Store, lamport: u64, origin: usize)
    requires
        mid.transactions@ == pre.transactions@.push(mid.transactions@.last()),
        mid.transactions@.last().lamport == lamport,
        mid.transactions@.last().origin == origin,
    ensures
        mid.has_tx(lamport, origin),
{
    let i = pre.transactions@.len() as int;
    assert(mid.transactions@[i] == mid.transactions@.last());
}

} // verus!
