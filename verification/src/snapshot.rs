//! Distributed snapshot engine: a channel-recording snapshot adapted to the
//! overlay.
//!
//! The initiator records its local state and opens a recording on every
//! incoming channel; the snapshot request travels as a wave. Every other
//! site records its local state on the first request, keeps recording each
//! remaining incoming channel until a request arrives on it, and hands its
//! record to the initiator once every channel is closed. In file mode the
//! initiator assembles a document for the front end to persist; in sync mode
//! the collected ledgers are folded into the local store, idempotently under
//! the `(lamport, origin)` key.

use vstd::prelude::*;
use crate::message::RecordedMsg;
use crate::message::SiteRecord;
use crate::store::Store;
use crate::store::Transaction;
use crate::store::clone_tx;
use crate::store::seq_has_tx;
use crate::store::seq_has_user;
use crate::store::tx_equal;

verus! {

/// What the initiator does with the collected records.
#[derive(Clone, Copy, Debug, PartialEq, Eq, Structural)]
pub enum SnapshotMode {
    /// Persist a document.
    FileMode,
    /// Fold the collected ledgers into the local store.
    SyncMode,
}

/// Recording of one incoming channel.
#[derive(Clone, Debug)]
pub struct ChannelRec {
    /// Rank of the neighbor the channel comes from.
    pub from: usize,
    /// The recording is still open.
    pub recording: bool,
    /// Messages caught while the recording was open.
    pub messages: Vec<RecordedMsg>,
}

/// Snapshot bookkeeping of one site.
pub struct SnapshotManager {
    /// A snapshot is in progress at this site.
    pub active: bool,
    /// Mode of the snapshot in progress.
    pub mode: SnapshotMode,
    /// Rank of the initiating site.
    pub initiator: usize,
    /// Lamport time the snapshot is tagged with.
    pub snapshot_lamport: u64,
    /// This site initiated the snapshot in progress.
    pub is_initiator: bool,
    /// One recording per incoming channel.
    pub channels: Vec<ChannelRec>,
    /// The local state captured when the snapshot reached this site.
    pub local: Option<SiteRecord>,
    /// Records the other sites handed in; initiator side.
    pub responses: Vec<SiteRecord>,
    /// How many records the initiator still expects in all.
    pub expected_responses: usize,
}

impl SnapshotManager {
    /// Channel origins are unique.
    pub open spec fn wf(self) -> bool {
        forall|i: int, j: int|
            0 <= i < j < self.channels@.len() ==> self.channels@[i].from != self.channels@[j].from
    }

    /// Every channel recording is closed.
    pub open spec fn all_closed(self) -> bool {
        forall|i: int| 0 <= i < self.channels@.len() ==> !self.channels@[i].recording
    }

    /// Idle manager: no snapshot in progress.
    pub fn new() -> (m: SnapshotManager)
        ensures
            m.wf(),
            !m.active,
            m.channels@.len() == 0,
            m.responses@.len() == 0,
            m.local is None,
    {
        SnapshotManager {
            active: false,
            mode: SnapshotMode::FileMode,
            initiator: 0,
            snapshot_lamport: 0,
            is_initiator: false,
            channels: Vec::new(),
            local: None,
            responses: Vec::new(),
            expected_responses: 0,
        }
    }

    /// Starts a snapshot at the initiator: captures the handed local record,
    /// opens a recording on the channel of every given neighbor, and expects
    /// one record from every other site of the roster.
    pub fn start_snapshot(
        &mut self,
        mode: SnapshotMode,
        me: usize,
        lamport: u64,
        neighbors: &Vec<usize>,
        local: SiteRecord,
        expected_responses: usize,
    )
        requires
            !old(self).active,
            forall|i: int, j: int|
                0 <= i < j < neighbors@.len() ==> neighbors@[i] != neighbors@[j],
        ensures
            final(self).wf(),
            final(self).active,
            final(self).is_initiator,
            final(self).mode == mode,
            final(self).initiator == me,
            final(self).snapshot_lamport == lamport,
            final(self).local == Some(local),
            final(self).responses@.len() == 0,
            final(self).expected_responses == expected_responses,
            final(self).channels@.len() == neighbors@.len(),
            forall|i: int|
                0 <= i < neighbors@.len() ==> final(self).channels@[i].from == neighbors@[i]
                    && final(self).channels@[i].recording && final(self).channels@[i].messages@.len() == 0,
    {
        let mut channels: Vec<ChannelRec> = Vec::new();
        let n: usize = neighbors.len();
        let mut i: usize = 0;
        while i < n
            invariant
                i <= n,
                n == neighbors@.len(),
                channels@.len() == i,
                forall|j: int|
                    0 <= j < i ==> channels@[j].from == neighbors@[j] && channels@[j].recording
                        && channels@[j].messages@.len() == 0,
            decreases n - i,
        {
            channels.push(ChannelRec { from: neighbors[i], recording: true, messages: Vec::new() });
            i = i + 1;
        }
        self.active = true;
        self.mode = mode;
        self.initiator = me;
        self.snapshot_lamport = lamport;
        self.is_initiator = true;
        self.channels = channels;
        self.local = Some(local);
        self.responses = Vec::new();
        self.expected_responses = expected_responses;
        proof {
            assert forall|i2: int, j2: int|
                0 <= i2 < j2 < self.channels@.len() implies self.channels@[i2].from
                != self.channels@[j2].from by {
                assert(self.channels@[i2].from == neighbors@[i2]);
                assert(self.channels@[j2].from == neighbors@[j2]);
            }
            assert forall|i2: int|
                0 <= i2 < neighbors@.len() implies #[trigger] self.channels@[i2].messages@.len()
                == 0 by {
                assert(self.channels@[i2].from == neighbors@[i2]);
                assert(self.channels@[i2].messages@.len() == 0);
            }
        }
    }

    /// Handles a snapshot request arriving on the channel from `from`. On
    /// the first request this site joins the snapshot: it captures the
    /// handed local record and opens a recording on every other neighbor's
    /// channel, the arrival channel already closed; the request must then be
    /// forwarded on every other channel. A later request closes the arrival
    /// channel's recording. Returns whether this was the first request.
    #[verifier::rlimit(100)]
    #[verifier::spinoff_prover]
    pub fn on_snapshot_request(
        &mut self,
        from: usize,
        mode: SnapshotMode,
        initiator: usize,
        lamport: u64,
        neighbors: &Vec<usize>,
        local: SiteRecord,
    ) -> (first: bool)
        requires
            old(self).wf(),
            forall|i: int, j: int|
                0 <= i < j < neighbors@.len() ==> neighbors@[i] != neighbors@[j],
        ensures
            final(self).wf(),
            final(self).active,
            first == !old(self).active,
            first ==> !final(self).is_initiator && final(self).mode == mode && final(self).initiator == initiator && final(self).snapshot_lamport == lamport,
            first ==> final(self).local == Some(local),
            first ==> final(self).channels@.len() == neighbors@.len(),
            first ==> forall|i: int|
                0 <= i < neighbors@.len() ==> final(self).channels@[i].from == neighbors@[i],
            first ==> forall|i: int|
                0 <= i < neighbors@.len() ==> final(self).channels@[i].recording == (neighbors@[i]
                    != from),
            first ==> forall|i: int|
                0 <= i < neighbors@.len() ==> final(self).channels@[i].messages@.len() == 0,
            !first ==> final(self).channels@.len() == old(self).channels@.len(),
            !first ==> forall|i: int|
                0 <= i < old(self).channels@.len() ==> final(self).channels@[i].from == old(self).channels@[i].from && final(self).channels@[i].messages == old(self).channels@[i].messages && final(self).channels@[i].recording == (old(self).channels@[i].recording && old(self).channels@[i].from != from),
            !first ==> final(self).local == old(self).local && final(self).is_initiator == old(self).is_initiator && final(self).mode == old(self).mode && final(self).initiator == old(self).initiator && final(self).snapshot_lamport == old(self).snapshot_lamport && final(self).responses == old(self).responses && final(self).expected_responses == old(self).expected_responses,
    {
        if !self.active {
            let mut channels: Vec<ChannelRec> = Vec::new();
            let n: usize = neighbors.len();
            let mut i: usize = 0;
            while i < n
                invariant
                    i <= n,
                    n == neighbors@.len(),
                    channels@.len() == i,
                    forall|j: int|
                        0 <= j < i ==> channels@[j].from == neighbors@[j] && channels@[j].recording
                            == (neighbors@[j] != from) && channels@[j].messages@.len() == 0,
                decreases n - i,
            {
                let nb: usize = neighbors[i];
                channels.push(ChannelRec { from: nb, recording: nb != from, messages: Vec::new() });
                i = i + 1;
            }
            self.active = true;
            self.mode = mode;
            self.initiator = initiator;
            self.snapshot_lamport = lamport;
            self.is_initiator = false;
            self.channels = channels;
            self.local = Some(local);
            self.responses = Vec::new();
            self.expected_responses = 0;
            proof {
                assert forall|i2: int, j2: int|
                    0 <= i2 < j2 < self.channels@.len() implies self.channels@[i2].from
                    != self.channels@[j2].from by {
                    assert(self.channels@[i2].from == neighbors@[i2]);
                    assert(self.channels@[j2].from == neighbors@[j2]);
                }
                assert forall|i2: int|
                    0 <= i2 < neighbors@.len() implies #[trigger] self.channels@[i2].messages@.len()
                    == 0 by {
                    assert(self.channels@[i2].from == neighbors@[i2]);
                    assert(self.channels@[i2].messages@.len() == 0);
                }
            }
            return true;
        } else {
            let n: usize = self.channels.len();
            let mut i: usize = 0;
            while i < n
                invariant
                    i <= n,
                    n == self.channels@.len(),
                    old(self).active,
                    self.active == old(self).active,
                    self.mode == old(self).mode,
                    self.initiator == old(self).initiator,
                    self.snapshot_lamport == old(self).snapshot_lamport,
                    self.is_initiator == old(self).is_initiator,
                    self.local == old(self).local,
                    self.responses == old(self).responses,
                    self.expected_responses == old(self).expected_responses,
                    old(self).wf(),
                    self.channels@.len() == old(self).channels@.len(),
                    forall|j: int|
                        0 <= j < n ==> self.channels@[j].from == old(self).channels@[j].from
                            && self.channels@[j].messages == old(self).channels@[j].messages,
                    forall|j: int|
                        i <= j < n ==> self.channels@[j].recording == old(self).channels@[j].recording,
                    forall|j: int|
                        0 <= j < i ==> self.channels@[j].recording == (old(self).channels@[j].recording && old(self).channels@[j].from != from),
                decreases n - i,
            {
                if self.channels[i].from == from {
                    let ghost before = self.channels@;
                    let mut entry: ChannelRec = self.channels.remove(i);
                    entry.recording = false;
                    self.channels.insert(i, entry);
                    proof {
                        assert(self.channels@ =~= before.update(
                            i as int,
                            (ChannelRec {
                                from: before[i as int].from,
                                recording: false,
                                messages: before[i as int].messages,
                            }),
                        ));
                    }
                }
                i = i + 1;
            }
            return false;
        }
    }

    /// Records one message caught on an incoming channel: it is appended to
    /// the channel's recording exactly when a snapshot is in progress here
    /// and that channel's recording is still open.
    pub fn record_channel_message(&mut self, from: usize, m: RecordedMsg)
        requires
            old(self).wf(),
        ensures
            final(self).wf(),
            final(self).active == old(self).active,
            final(self).mode == old(self).mode,
            final(self).initiator == old(self).initiator,
            final(self).snapshot_lamport == old(self).snapshot_lamport,
            final(self).is_initiator == old(self).is_initiator,
            final(self).local == old(self).local,
            final(self).responses == old(self).responses,
            final(self).expected_responses == old(self).expected_responses,
            final(self).channels@.len() == old(self).channels@.len(),
            forall|j: int|
                0 <= j < old(self).channels@.len() ==> final(self).channels@[j].from == old(
                    self,
                ).channels@[j].from && final(self).channels@[j].recording == old(
                    self,
                ).channels@[j].recording,
            forall|j: int|
                0 <= j < old(self).channels@.len() ==> final(self).channels@[j].messages@ == (
                if old(self).active && old(self).channels@[j].from == from && old(
                    self,
                ).channels@[j].recording {
                    old(self).channels@[j].messages@.push(m)
                } else {
                    old(self).channels@[j].messages@
                }),
    {
        if !self.active {
            return ;
        }
        let n: usize = self.channels.len();
        let mut i: usize = 0;
        while i < n
            invariant
                i <= n,
                n == self.channels@.len(),
                self == old(self),
                old(self).active,
                old(self).wf(),
                forall|j: int| 0 <= j < i ==> self.channels@[j].from != from,
            decreases n - i,
        {
            if self.channels[i].from == from {
                if self.channels[i].recording {
                    let ghost before = self.channels@;
                    let mut entry: ChannelRec = self.channels.remove(i);
                    entry.messages.push(m);
                    self.channels.insert(i, entry);
                    proof {
                        assert(self.channels@ =~= before.update(
                            i as int,
                            (ChannelRec {
                                from: before[i as int].from,
                                recording: before[i as int].recording,
                                messages: self.channels@[i as int].messages,
                            }),
                        ));
                        assert(self.channels@[i as int].messages@ =~= before[
                            i as int
                        ].messages@.push(m));
                    }
                }
                return ;
            }
            i = i + 1;
        }
    }

    /// Whether every channel recording is closed, so the site's record is
    /// ready for the initiator.
    pub fn all_channels_closed(&self) -> (r: bool)
        ensures
            r == self.all_closed(),
    {
        let n: usize = self.channels.len();
        let mut i: usize = 0;
        while i < n
            invariant
                i <= n,
                n == self.channels@.len(),
                forall|j: int| 0 <= j < i ==> !self.channels@[j].recording,
            decreases n - i,
        {
            if self.channels[i].recording {
                return false;
            }
            i = i + 1;
        }
        true
    }

    /// Everything the channels caught, in channel order.
    pub open spec fn all_recorded(channels: Seq<ChannelRec>) -> Seq<RecordedMsg>
        decreases channels.len(),
    {
        if channels.len() == 0 {
            Seq::empty()
        } else {
            Self::all_recorded(channels.drop_last()) + channels.last().messages@
        }
    }

    /// Hands the site's finished record out, the channel recordings folded
    /// in, and closes the snapshot at this site. The record goes to the
    /// initiator unless this site is the initiator itself.
    pub fn take_response(&mut self) -> (r: SiteRecord)
        requires
            old(self).wf(),
            old(self).active,
            old(self).local is Some,
        ensures
            !final(self).active,
            r.site == old(self).local.unwrap().site,
            r.clock == old(self).local.unwrap().clock,
            r.users == old(self).local.unwrap().users,
            r.transactions == old(self).local.unwrap().transactions,
            r.fifo == old(self).local.unwrap().fifo,
            r.recorded@ == Self::all_recorded(old(self).channels@),
    {
        let mut recorded: Vec<RecordedMsg> = Vec::new();
        let n: usize = self.channels.len();
        let mut i: usize = 0;
        while i < n
            invariant
                i <= n,
                n == self.channels@.len(),
                self == old(self),
                recorded@ == Self::all_recorded(self.channels@.subrange(0, i as int)),
            decreases n - i,
        {
            let m: usize = self.channels[i].messages.len();
            let mut k: usize = 0;
            while k < m
                invariant
                    k <= m,
                    i < n,
                    n == self.channels@.len(),
                    m == self.channels@[i as int].messages@.len(),
                    self == old(self),
                    recorded@ == Self::all_recorded(self.channels@.subrange(0, i as int))
                        + self.channels@[i as int].messages@.subrange(0, k as int),
                decreases m - k,
            {
                let one = crate::message::clone_recorded(&self.channels[i].messages[k]);
                recorded.push(one);
                proof {
                    let msgs = self.channels@[i as int].messages@;
                    assert(msgs.subrange(0, k as int + 1) =~= msgs.subrange(0, k as int).push(
                        msgs[k as int],
                    ));
                    assert(recorded@ =~= Self::all_recorded(
                        self.channels@.subrange(0, i as int),
                    ) + msgs.subrange(0, k as int + 1));
                }
                k = k + 1;
            }
            proof {
                let pre = self.channels@.subrange(0, i as int);
                let post = self.channels@.subrange(0, i as int + 1);
                assert(post.drop_last() =~= pre);
                assert(post.last() == self.channels@[i as int]);
                let msgs = self.channels@[i as int].messages@;
                assert(msgs.subrange(0, m as int) =~= msgs);
            }
            i = i + 1;
        }
        proof {
            assert(self.channels@.subrange(0, n as int) =~= self.channels@);
        }
        self.active = false;
        let taken: Option<SiteRecord> = self.local.take();
        match taken {
            Some(rec) => SiteRecord {
                site: rec.site,
                clock: rec.clock,
                users: rec.users,
                transactions: rec.transactions,
                fifo: rec.fifo,
                recorded,
            },
            None => vstd::pervasive::unreached(),
        }
    }

    /// Collects one record at the initiator.
    pub fn on_snapshot_response(&mut self, rec: SiteRecord)
        requires
            old(self).wf(),
            old(self).is_initiator,
        ensures
            final(self).wf(),
            final(self).responses@ == old(self).responses@.push(rec),
            final(self).active == old(self).active,
            final(self).mode == old(self).mode,
            final(self).initiator == old(self).initiator,
            final(self).snapshot_lamport == old(self).snapshot_lamport,
            final(self).is_initiator == old(self).is_initiator,
            final(self).local == old(self).local,
            final(self).channels == old(self).channels,
            final(self).expected_responses == old(self).expected_responses,
    {
        self.responses.push(rec);
    }

    /// Whether the initiator has collected every expected record.
    pub fn snapshot_complete(&self) -> (r: bool)
        ensures
            r == (self.responses@.len() >= self.expected_responses),
    {
        self.responses.len() >= self.expected_responses
    }
}

/// The assembled snapshot: the initiator's own record first, then every
/// collected record. The recorded in-flight messages sit inside each record.
pub struct SnapshotDocument {
    /// Rank of the initiating site.
    pub initiator: usize,
    /// Lamport time the snapshot is tagged with.
    pub lamport: u64,
    /// One record per site, the initiator's first.
    pub sites: Vec<SiteRecord>,
}

impl SnapshotManager {
    /// Assembles the document at the initiator once every record is in, and
    /// closes the snapshot. The initiator's own record, with its channel
    /// recordings folded in, must be handed in first via
    /// `on_snapshot_response` like every other record.
    pub fn build_document(&mut self) -> (doc: SnapshotDocument)
        requires
            old(self).wf(),
            old(self).is_initiator,
        ensures
            !final(self).active,
            doc.initiator == old(self).initiator,
            doc.lamport == old(self).snapshot_lamport,
            doc.sites@ == old(self).responses@,
    {
        self.active = false;
        let mut sites: Vec<SiteRecord> = Vec::new();
        std::mem::swap(&mut sites, &mut self.responses);
        SnapshotDocument { initiator: self.initiator, lamport: self.snapshot_lamport, sites }
    }
}

/// The row carries the same content as some row of `rows`.
pub open spec fn row_from_record(rows: Seq<Transaction>, t: Transaction) -> bool {
    exists|j: int| 0 <= j < rows.len() && tx_equal(t, rows[j])
}

/// Folds one collected record into the local store: every account and every
/// ledger row of the record that the store does not yet hold is added, each
/// row under its own `(lamport, origin)` key; everything already present is
/// left exactly as it stands.
pub fn sync_apply_record(store: &mut Store, rec: &SiteRecord)
    requires
        old(store).wf(),
    ensures
        final(store).wf(),
        forall|l: u64, o: usize|
            #[trigger] final(store).has_tx(l, o) == (old(store).has_tx(l, o) || seq_has_tx(
                rec.transactions@,
                l,
                o,
            )),
        forall|n: Seq<char>|
            #[trigger] final(store).has_user(n) == (old(store).has_user(n) || seq_has_user(
                rec.users@,
                n,
            )),
        final(store).transactions@.len() >= old(store).transactions@.len(),
        forall|i: int|
            0 <= i < old(store).transactions@.len() ==> final(store).transactions@[i] == old(
                store,
            ).transactions@[i],
        forall|i: int|
            old(store).transactions@.len() <= i < final(store).transactions@.len()
                ==> row_from_record(rec.transactions@, #[trigger] final(store).transactions@[i]),
{
    let nu: usize = rec.users.len();
    let mut i: usize = 0;
    while i < nu
        invariant
            i <= nu,
            nu == rec.users@.len(),
            store.wf(),
            store.transactions@ == old(store).transactions@,
            forall|n: Seq<char>|
                #[trigger] seq_has_user(store.users@, n) == (seq_has_user(old(store).users@, n)
                    || seq_has_user(rec.users@.subrange(0, i as int), n)),
        decreases nu - i,
    {
        let ghost pre = *store;
        store.create_user(rec.users[i].as_str());
        proof {
            let cut = rec.users@.subrange(0, i as int);
            let cut2 = rec.users@.subrange(0, i as int + 1);
            assert forall|n: Seq<char>| #[trigger] seq_has_user(store.users@, n) == (seq_has_user(
                old(store).users@,
                n,
            ) || seq_has_user(cut2, n)) by {
                assert(seq_has_user(pre.users@, n) == (seq_has_user(old(store).users@, n)
                    || seq_has_user(cut, n)));
                assert(store.has_user(n) == (pre.has_user(n) || n == rec.users@[i as int]@));
                if seq_has_user(cut2, n) {
                    let w = choose|w: int| 0 <= w < cut2.len() && cut2[w]@ == n;
                    if w < i as int {
                        assert(cut[w]@ == n);
                        assert(seq_has_user(cut, n));
                    } else {
                        assert(n == rec.users@[i as int]@);
                    }
                }
                if seq_has_user(cut, n) {
                    let w = choose|w: int| 0 <= w < cut.len() && cut[w]@ == n;
                    assert(cut2[w]@ == n);
                    assert(seq_has_user(cut2, n));
                }
                if n == rec.users@[i as int]@ {
                    assert(cut2[i as int]@ == n);
                    assert(seq_has_user(cut2, n));
                }
            }
        }
        i = i + 1;
    }
    proof {
        assert(rec.users@.subrange(0, nu as int) =~= rec.users@);
    }
    let nt: usize = rec.transactions.len();
    let mut k: usize = 0;
    while k < nt
        invariant
            k <= nt,
            nt == rec.transactions@.len(),
            store.wf(),
            forall|n: Seq<char>|
                #[trigger] seq_has_user(store.users@, n) == (seq_has_user(old(store).users@, n)
                    || seq_has_user(rec.users@, n)),
            forall|l: u64, o: usize|
                #[trigger] store.has_tx(l, o) == (old(store).has_tx(l, o) || seq_has_tx(
                    rec.transactions@.subrange(0, k as int),
                    l,
                    o,
                )),
            store.transactions@.len() >= old(store).transactions@.len(),
            forall|i: int|
                0 <= i < old(store).transactions@.len() ==> store.transactions@[i] == old(
                    store,
                ).transactions@[i],
            forall|i: int|
                old(store).transactions@.len() <= i < store.transactions@.len()
                    ==> row_from_record(rec.transactions@, #[trigger] store.transactions@[i]),
        decreases nt - k,
    {
        let ghost pre = *store;
        let row = crate::store::clone_tx(&rec.transactions[k]);
        let ghost rowg = row;
        store.apply_tx(row);
        proof {
            let cut = rec.transactions@.subrange(0, k as int);
            let cut2 = rec.transactions@.subrange(0, k as int + 1);
            assert(tx_equal(rowg, rec.transactions@[k as int]));
            assert forall|i: int|
                old(store).transactions@.len() <= i < store.transactions@.len()
                    implies row_from_record(
                rec.transactions@,
                #[trigger] store.transactions@[i],
            ) by {
                if i < pre.transactions@.len() {
                    assert(store.transactions@[i] == pre.transactions@[i]);
                } else {
                    assert(store.transactions@[i] == rowg);
                    assert(tx_equal(store.transactions@[i], rec.transactions@[k as int]));
                    assert(row_from_record(rec.transactions@, store.transactions@[i]));
                }
            }
            assert forall|l: u64, o: usize| #[trigger] store.has_tx(l, o) == (old(store).has_tx(
                l,
                o,
            ) || seq_has_tx(cut2, l, o)) by {
                if store.has_tx(l, o) {
                    if !pre.has_tx(l, o) {
                        let w = choose|w: int|
                            0 <= w < store.transactions@.len() && store.transactions@[w].lamport
                                == l && store.transactions@[w].origin == o;
                        assert(w == pre.transactions@.len());
                        assert(l == rowg.lamport && o == rowg.origin);
                        assert(cut2[k as int] == rec.transactions@[k as int]);
                        assert(cut2[k as int].lamport == l && cut2[k as int].origin == o);
                        assert(seq_has_tx(cut2, l, o));
                    }
                }
                if pre.has_tx(l, o) {
                    let w = choose|w: int|
                        0 <= w < pre.transactions@.len() && pre.transactions@[w].lamport == l
                            && pre.transactions@[w].origin == o;
                    assert(store.transactions@[w] == pre.transactions@[w]);
                    assert(store.has_tx(l, o));
                }
                if seq_has_tx(cut2, l, o) {
                    let w = choose|w: int|
                        0 <= w < cut2.len() && cut2[w].lamport == l && cut2[w].origin == o;
                    if w < k as int {
                        assert(cut[w] == cut2[w]);
                        assert(seq_has_tx(cut, l, o));
                    } else {
                        assert(cut2[w] == rec.transactions@[k as int]);
                        assert(l == rowg.lamport && o == rowg.origin);
                        assert(store.has_tx(l, o));
                    }
                }
                if seq_has_tx(cut, l, o) {
                    let w = choose|w: int|
                        0 <= w < cut.len() && cut[w].lamport == l && cut[w].origin == o;
                    assert(cut2[w] == cut[w]);
                    assert(seq_has_tx(cut2, l, o));
                }
            }
        }
        k = k + 1;
    }
    proof {
        assert(rec.transactions@.subrange(0, nt as int) =~= rec.transactions@);
        assert forall|n: Seq<char>| #[trigger] store.has_user(n) == (old(store).has_user(n)
            || seq_has_user(rec.users@, n)) by {
            assert(seq_has_user(store.users@, n) == (seq_has_user(old(store).users@, n)
                || seq_has_user(rec.users@, n)));
        }
    }
}

} // verus!

