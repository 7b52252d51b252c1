//! Process-wide state of one site, and the engine of the distributed
//! mutual-exclusion protocol.
//!
//! The site may enter its critical section only when every connected peer
//! has a stamp on record, and every recorded stamp of another site is an
//! acknowledgment, a release, or a request that loses the `(date, rank)`
//! tie-break against our own pending request. Entry and exit are purely
//! local decisions over the stamp table; the returned messages carry the
//! decision to the peers.

use vstd::prelude::*;
use crate::clock::Clock;
use crate::clock::abs_merge;
use crate::clock::abs_tick;
use crate::message::CriticalCommands;
use crate::message::Message;
use crate::message::MessageInfo;
use crate::message::NetworkMessageCode;
use crate::mutex::MutexStamp;
use crate::mutex::MutexTag;
use crate::mutex::StampMap;
use crate::mutex::can_enter;
use crate::mutex::every_connected_on_record;
use crate::mutex::lemma_mutex_safety;
use crate::mutex::stamp_allows;
use crate::wave::WaveMap;

verus! {

/// Number of true entries of a roster of flags.
pub open spec fn count_true(s: Seq<bool>) -> int
    decreases s.len(),
{
    if s.len() == 0 {
        0
    } else {
        count_true(s.drop_last()) + if s.last() {
            1int
        } else {
            0int
        }
    }
}

/// State of one site: identity, liveness of the neighbors, clock, mutex
/// bookkeeping, pending critical commands and wave bookkeeping.
pub struct SiteState {
    /// Own rank in the roster.
    pub site_id: usize,
    /// Size of the fixed roster.
    pub n_sites: usize,
    /// Which sites are currently connected neighbors; the own slot is false.
    pub connected: Vec<bool>,
    /// Logical clock of the site.
    pub clock: Clock,
    /// Latest known mutex stamp of each site.
    pub global_mutex_fifo: StampMap,
    /// The site holds the critical section.
    pub in_sc: bool,
    /// The site waits for the critical section.
    pub waiting_sc: bool,
    /// Date of the pending request; meaningful while waiting or in section.
    pub request_date: u64,
    /// Queue of critical commands awaiting the critical section.
    pub pending_commands: Vec<CriticalCommands>,
    /// Bookkeeping of in-flight waves.
    pub waves: WaveMap,
}

impl SiteState {
    /// The state is consistent: ranks are in range, the clock belongs to this
    /// site, both tables have unique keys, the site does not at once hold and
    /// wait for the section, and a waiting site has its own request on
    /// record.
    pub open spec fn wf(self) -> bool {
        &&& self.site_id < self.n_sites
        &&& self.connected@.len() == self.n_sites
        &&& !self.connected@[self.site_id as int]
        &&& self.clock.wf()
        &&& self.clock.me == self.site_id
        &&& self.clock.vector@.len() == self.n_sites
        &&& self.global_mutex_fifo.keys_unique()
        &&& self.waves.keys_unique()
        &&& !(self.in_sc && self.waiting_sc)
        &&& (self.waiting_sc ==> self.global_mutex_fifo.spec_get(self.site_id) == Some(
            MutexStamp { tag: MutexTag::Request, date: self.request_date },
        ))
    }

    /// The whole entry test: every recorded stamp of another site allows
    /// entry, and every connected peer has a stamp on record at all. A peer
    /// that never answered blocks; a disconnected peer's cleared slot does
    /// not.
    pub open spec fn entry_allowed(self) -> bool {
        &&& can_enter(self.global_mutex_fifo.entries@, self.site_id, self.request_date)
        &&& every_connected_on_record(self.global_mutex_fifo.entries@, self.connected@)
    }

    /// Fresh state of site `site_id` in a roster of `n_sites`, with no
    /// neighbor connected yet.
    pub fn new(site_id: usize, n_sites: usize) -> (s: SiteState)
        requires
            site_id < n_sites,
        ensures
            s.wf(),
            s.site_id == site_id,
            s.n_sites == n_sites,
            forall|i: int| 0 <= i < n_sites ==> !s.connected@[i],
            s.clock.lamport == 0,
            forall|i: int| 0 <= i < n_sites ==> s.clock.vector@[i] == 0,
            s.global_mutex_fifo.entries@.len() == 0,
            !s.in_sc,
            !s.waiting_sc,
            s.pending_commands@.len() == 0,
            s.waves.entries@.len() == 0,
    {
        let mut connected: Vec<bool> = Vec::new();
        let mut i: usize = 0;
        while i < n_sites
            invariant
                i <= n_sites,
                connected@.len() == i,
                forall|j: int| 0 <= j < i ==> !connected@[j],
            decreases n_sites - i,
        {
            connected.push(false);
            i = i + 1;
        }
        SiteState {
            site_id,
            n_sites,
            connected,
            clock: Clock::new(site_id, n_sites),
            global_mutex_fifo: StampMap::new(),
            in_sc: false,
            waiting_sc: false,
            request_date: 0,
            pending_commands: Vec::new(),
            waves: WaveMap::new(),
        }
    }

    /// Own rank.
    pub fn get_site_id(&self) -> (r: usize)
        ensures
            r == self.site_id,
    {
        self.site_id
    }

    /// Copy of the clock.
    pub fn get_clock(&self) -> (c: Clock)
        ensures
            c.lamport == self.clock.lamport,
            c.vector@ == self.clock.vector@,
            c.me == self.clock.me,
    {
        self.clock.snapshot()
    }

    /// Marks a neighbor connected or disconnected.
    pub fn set_connected(&mut self, peer: usize, live: bool)
        requires
            old(self).wf(),
            peer < old(self).n_sites,
            peer != old(self).site_id,
        ensures
            final(self).wf(),
            final(self).connected@ == old(self).connected@.update(peer as int, live),
            final(self).clock == old(self).clock,
            final(self).global_mutex_fifo == old(self).global_mutex_fifo,
            final(self).in_sc == old(self).in_sc,
            final(self).waiting_sc == old(self).waiting_sc,
            final(self).request_date == old(self).request_date,
            final(self).pending_commands == old(self).pending_commands,
            final(self).waves == old(self).waves,
            final(self).site_id == old(self).site_id,
            final(self).n_sites == old(self).n_sites,
    {
        self.connected.set(peer, live);
    }

    /// How many neighbors are connected.
    pub fn get_nb_connected_neighbours(&self) -> (n: usize)
        ensures
            n == count_true(self.connected@),
    {
        let len: usize = self.connected.len();
        let mut n: usize = 0;
        let mut i: usize = 0;
        while i < len
            invariant
                i <= len,
                len == self.connected@.len(),
                n == count_true(self.connected@.subrange(0, i as int)),
                n <= i,
            decreases len - i,
        {
            proof {
                let pre = self.connected@.subrange(0, i as int);
                let post = self.connected@.subrange(0, i as int + 1);
                assert(post.drop_last() =~= pre);
                assert(post.last() == self.connected@[i as int]);
            }
            if self.connected[i] {
                n = n + 1;
            }
            i = i + 1;
        }
        proof {
            assert(self.connected@.subrange(0, len as int) =~= self.connected@);
        }
        n
    }

    /// Ranks of the connected neighbors, in strictly increasing order.
    pub fn get_connected_neighbours(&self) -> (r: Vec<usize>)
        ensures
            forall|j: int|
                0 <= j < r@.len() ==> r@[j] < self.connected@.len()
                    && self.connected@[r@[j] as int],
            forall|p: usize|
                p < self.connected@.len() && self.connected@[p as int] ==> r@.contains(p),
            forall|a: int, b: int| 0 <= a < b < r@.len() ==> r@[a] < r@[b],
    {
        let len: usize = self.connected.len();
        let mut r: Vec<usize> = Vec::new();
        let mut i: usize = 0;
        while i < len
            invariant
                i <= len,
                len == self.connected@.len(),
                forall|j: int|
                    0 <= j < r@.len() ==> r@[j] < len && self.connected@[r@[j] as int],
                forall|p: usize| p < i && self.connected@[p as int] ==> r@.contains(p),
                forall|a: int, b: int| 0 <= a < b < r@.len() ==> r@[a] < r@[b],
                forall|j: int| 0 <= j < r@.len() ==> r@[j] < i,
            decreases len - i,
        {
            if self.connected[i] {
                let ghost before = r@;
                r.push(i);
                proof {
                    assert(r@[before.len() as int] == i);
                    assert forall|p: usize| p < i + 1 && self.connected@[p as int] implies
                        r@.contains(p) by {
                        if p < i {
                            assert(before.contains(p));
                            let w = choose|w: int| 0 <= w < before.len() && before[w] == p;
                            assert(0 <= w < r@.len());
                            assert(r@[w] == p);
                        } else {
                            assert(r@[before.len() as int] == p);
                        }
                    }
                }
            }
            i = i + 1;
        }
        r
    }

    /// Number of queued critical commands.
    pub fn get_pending_len(&self) -> (n: usize)
        ensures
            n == self.pending_commands@.len(),
    {
        self.pending_commands.len()
    }

    /// Counts one event on the clock: a local event, or the receipt of the
    /// given remote clock.
    pub fn update_clock(&mut self, remote: Option<&Clock>)
        requires
            old(self).wf(),
            old(self).clock.can_tick(),
            remote matches Some(rc) ==> rc.wf() && rc.vector@.len() == old(self).n_sites
                && rc.can_tick(),
        ensures
            final(self).wf(),
            remote is None ==> final(self).clock.abs() == abs_tick(old(self).clock.abs()),
            remote matches Some(rc) ==> final(self).clock.abs() == abs_merge(
                old(self).clock.abs(),
                rc.abs(),
            ),
            final(self).clock.lamport > old(self).clock.lamport,
            final(self).global_mutex_fifo == old(self).global_mutex_fifo,
            final(self).in_sc == old(self).in_sc,
            final(self).waiting_sc == old(self).waiting_sc,
            final(self).request_date == old(self).request_date,
            final(self).pending_commands == old(self).pending_commands,
            final(self).waves == old(self).waves,
            final(self).site_id == old(self).site_id,
            final(self).n_sites == old(self).n_sites,
            final(self).connected == old(self).connected,
    {
        match remote {
            None => self.clock.tick_local(),
            Some(rc) => self.clock.merge(rc),
        }
    }

    /// Asks for the critical section: stamps the own slot with a fresh
    /// `Request`, starts waiting, and hands back the `MutexRequest` to
    /// broadcast to the connected neighbors.
    pub fn acquire_mutex(&mut self) -> (msg: Message)
        requires
            old(self).wf(),
            !old(self).in_sc,
            !old(self).waiting_sc,
            old(self).clock.can_tick(),
        ensures
            final(self).wf(),
            final(self).clock.abs() == abs_tick(old(self).clock.abs()),
            final(self).request_date == old(self).clock.lamport + 1,
            final(self).waiting_sc,
            !final(self).in_sc,
            final(self).global_mutex_fifo.spec_get(old(self).site_id) == Some(
                MutexStamp { tag: MutexTag::Request, date: final(self).request_date },
            ),
            forall|k: usize|
                k != old(self).site_id ==> final(self).global_mutex_fifo.spec_get(k) == old(self).global_mutex_fifo.spec_get(k),
            final(self).pending_commands == old(self).pending_commands,
            final(self).waves == old(self).waves,
            final(self).site_id == old(self).site_id,
            final(self).n_sites == old(self).n_sites,
            final(self).connected == old(self).connected,
            msg.code == NetworkMessageCode::MutexRequest,
            (msg.info matches MessageInfo::AcquireMutex { date } && date
                == final(self).request_date),
            msg.sender_id == old(self).site_id,
            msg.initiator_id == old(self).site_id,
            msg.clock.lamport == final(self).clock.lamport,
            msg.clock.vector@ == final(self).clock.vector@,
    {
        self.clock.tick_local();
        let d: u64 = self.clock.get_lamport();
        self.global_mutex_fifo.insert(
            self.site_id,
            MutexStamp { tag: MutexTag::Request, date: d },
        );
        self.waiting_sc = true;
        self.request_date = d;
        let mclock = self.clock.snapshot();
        Message {
            command: None,
            info: MessageInfo::AcquireMutex { date: d },
            code: NetworkMessageCode::MutexRequest,
            clock: mclock,
            sender_id: self.site_id,
            initiator_id: self.site_id,
        }
    }

    /// Handles a `MutexRequest` of another site: folds its clock in, records
    /// its request unless a newer request of the same site is already on
    /// record, and hands back the `MutexAck` to send straight to the sender.
    pub fn on_mutex_request(&mut self, sender: usize, date: u64, remote_clock: &Clock) -> (ack:
        Message)
        requires
            old(self).wf(),
            sender != old(self).site_id,
            remote_clock.wf(),
            remote_clock.vector@.len() == old(self).n_sites,
            old(self).clock.can_tick(),
            remote_clock.can_tick(),
        ensures
            final(self).wf(),
            final(self).clock.abs() == abs_merge(old(self).clock.abs(), remote_clock.abs()),
            final(self).global_mutex_fifo.spec_get(sender) == (if (old(self).global_mutex_fifo.spec_get(sender) matches Some(st) && st.tag is Request && st.date
                > date) {
                old(self).global_mutex_fifo.spec_get(sender)
            } else {
                Some(MutexStamp { tag: MutexTag::Request, date })
            }),
            forall|k: usize|
                k != sender ==> final(self).global_mutex_fifo.spec_get(k) == old(self).global_mutex_fifo.spec_get(k),
            final(self).in_sc == old(self).in_sc,
            final(self).waiting_sc == old(self).waiting_sc,
            final(self).request_date == old(self).request_date,
            final(self).pending_commands == old(self).pending_commands,
            final(self).waves == old(self).waves,
            final(self).site_id == old(self).site_id,
            final(self).n_sites == old(self).n_sites,
            final(self).connected == old(self).connected,
            ack.code == NetworkMessageCode::MutexAck,
            (ack.info matches MessageInfo::AckMutex { date: d2 } && d2
                == final(self).clock.lamport),
            ack.sender_id == old(self).site_id,
            ack.initiator_id == old(self).site_id,
            ack.clock.lamport == final(self).clock.lamport,
            ack.clock.vector@ == final(self).clock.vector@,
    {
        self.clock.merge(remote_clock);
        let stored = self.global_mutex_fifo.get(sender);
        let keep: bool = match stored {
            Some(st) => match st.tag {
                MutexTag::Request => st.date > date,
                MutexTag::Ack => false,
                MutexTag::Release => false,
            },
            None => false,
        };
        if !keep {
            self.global_mutex_fifo.insert(sender, MutexStamp { tag: MutexTag::Request, date });
        }
        let d2: u64 = self.clock.get_lamport();
        let mclock = self.clock.snapshot();
        Message {
            command: None,
            info: MessageInfo::AckMutex { date: d2 },
            code: NetworkMessageCode::MutexAck,
            clock: mclock,
            sender_id: self.site_id,
            initiator_id: self.site_id,
        }
    }

    /// Handles a `MutexAck` of another site: folds its clock in and records
    /// the acknowledgment as that site's latest known position — a recorded
    /// `Request` is upgraded only when the acknowledgment is at least as late
    /// as it, a site with nothing on record gets the `Ack` as its first
    /// stamp, and a recorded `Ack` or `Release` stands.
    pub fn on_mutex_ack(&mut self, sender: usize, date: u64, remote_clock: &Clock)
        requires
            old(self).wf(),
            sender != old(self).site_id,
            remote_clock.wf(),
            remote_clock.vector@.len() == old(self).n_sites,
            old(self).clock.can_tick(),
            remote_clock.can_tick(),
        ensures
            final(self).wf(),
            final(self).clock.abs() == abs_merge(old(self).clock.abs(), remote_clock.abs()),
            final(self).global_mutex_fifo.spec_get(sender) == (if (old(self).global_mutex_fifo.spec_get(sender) matches Some(st) && st.tag is Request && date
                >= st.date) || old(self).global_mutex_fifo.spec_get(sender) is None {
                Some(MutexStamp { tag: MutexTag::Ack, date })
            } else {
                old(self).global_mutex_fifo.spec_get(sender)
            }),
            forall|k: usize|
                k != sender ==> final(self).global_mutex_fifo.spec_get(k) == old(self).global_mutex_fifo.spec_get(k),
            final(self).in_sc == old(self).in_sc,
            final(self).waiting_sc == old(self).waiting_sc,
            final(self).request_date == old(self).request_date,
            final(self).pending_commands == old(self).pending_commands,
            final(self).waves == old(self).waves,
            final(self).site_id == old(self).site_id,
            final(self).n_sites == old(self).n_sites,
            final(self).connected == old(self).connected,
    {
        self.clock.merge(remote_clock);
        let stored = self.global_mutex_fifo.get(sender);
        let record: bool = match stored {
            Some(st) => match st.tag {
                MutexTag::Request => date >= st.date,
                MutexTag::Ack => false,
                MutexTag::Release => false,
            },
            None => true,
        };
        if record {
            self.global_mutex_fifo.insert(sender, MutexStamp { tag: MutexTag::Ack, date });
        }
    }

    /// Handles a `MutexRelease` of another site: folds its clock in and
    /// records the release, which never blocks entry.
    pub fn on_mutex_release(&mut self, sender: usize, date: u64, remote_clock: &Clock)
        requires
            old(self).wf(),
            sender != old(self).site_id,
            remote_clock.wf(),
            remote_clock.vector@.len() == old(self).n_sites,
            old(self).clock.can_tick(),
            remote_clock.can_tick(),
        ensures
            final(self).wf(),
            final(self).clock.abs() == abs_merge(old(self).clock.abs(), remote_clock.abs()),
            final(self).global_mutex_fifo.spec_get(sender) == Some(
                MutexStamp { tag: MutexTag::Release, date },
            ),
            forall|k: usize|
                k != sender ==> final(self).global_mutex_fifo.spec_get(k) == old(self).global_mutex_fifo.spec_get(k),
            final(self).in_sc == old(self).in_sc,
            final(self).waiting_sc == old(self).waiting_sc,
            final(self).request_date == old(self).request_date,
            final(self).pending_commands == old(self).pending_commands,
            final(self).waves == old(self).waves,
            final(self).site_id == old(self).site_id,
            final(self).n_sites == old(self).n_sites,
            final(self).connected == old(self).connected,
    {
        self.clock.merge(remote_clock);
        self.global_mutex_fifo.insert(sender, MutexStamp { tag: MutexTag::Release, date });
    }

    /// Tries to enter the critical section: succeeds exactly when the site
    /// waits, does not yet hold the section, every recorded stamp of another
    /// site allows entry, and every connected peer has a stamp on record.
    pub fn try_enter_sc(&mut self) -> (entered: bool)
        requires
            old(self).wf(),
        ensures
            final(self).wf(),
            entered == (old(self).waiting_sc && !old(self).in_sc && old(self).entry_allowed()),
            final(self).in_sc == (old(self).in_sc || entered),
            final(self).waiting_sc == (old(self).waiting_sc && !entered),
            final(self).clock == old(self).clock,
            final(self).global_mutex_fifo == old(self).global_mutex_fifo,
            final(self).request_date == old(self).request_date,
            final(self).pending_commands == old(self).pending_commands,
            final(self).waves == old(self).waves,
            final(self).site_id == old(self).site_id,
            final(self).n_sites == old(self).n_sites,
            final(self).connected == old(self).connected,
    {
        if !self.waiting_sc || self.in_sc {
            return false;
        }
        let me: usize = self.site_id;
        let my_date: u64 = self.request_date;
        let n: usize = self.global_mutex_fifo.entries.len();
        let mut i: usize = 0;
        while i < n
            invariant
                i <= n,
                n == self.global_mutex_fifo.entries@.len(),
                self == old(self),
                old(self).wf(),
                me == self.site_id,
                my_date == self.request_date,
                forall|j: int|
                    0 <= j < i && self.global_mutex_fifo.entries@[j].0 != me ==> stamp_allows(
                        self.global_mutex_fifo.entries@[j].0,
                        self.global_mutex_fifo.entries@[j].1,
                        me,
                        my_date,
                    ),
            decreases n - i,
        {
            let site: usize = self.global_mutex_fifo.entries[i].0;
            let stamp: MutexStamp = self.global_mutex_fifo.entries[i].1;
            if site != me {
                let allows: bool = match stamp.tag {
                    MutexTag::Request => stamp.date > my_date || (stamp.date == my_date && site
                        > me),
                    MutexTag::Ack => true,
                    MutexTag::Release => true,
                };
                if !allows {
                    proof {
                        assert(!stamp_allows(site, stamp, me, my_date));
                        assert(!can_enter(self.global_mutex_fifo.entries@, me, my_date));
                    }
                    return false;
                }
            }
            i = i + 1;
        }
        proof {
            assert(can_enter(self.global_mutex_fifo.entries@, me, my_date));
        }
        let len: usize = self.connected.len();
        let mut p: usize = 0;
        while p < len
            invariant
                p <= len,
                len == self.connected@.len(),
                self == old(self),
                old(self).wf(),
                forall|q: usize|
                    q < p && self.connected@[q as int] ==> crate::mutex::spec_find(
                        self.global_mutex_fifo.entries@,
                        q,
                    ) is Some,
            decreases len - p,
        {
            if self.connected[p] {
                if self.global_mutex_fifo.get(p).is_none() {
                    proof {
                        assert(!every_connected_on_record(
                            self.global_mutex_fifo.entries@,
                            self.connected@,
                        ));
                    }
                    return false;
                }
            }
            p = p + 1;
        }
        proof {
            assert(every_connected_on_record(self.global_mutex_fifo.entries@, self.connected@));
        }
        self.in_sc = true;
        self.waiting_sc = false;
        true
    }

    /// Leaves the critical section: clears the own slot of the stamp table
    /// and hands back the `MutexRelease` to broadcast, stamped with the fresh
    /// Lamport date the receivers will record.
    pub fn release_mutex(&mut self) -> (msg: Message)
        requires
            old(self).wf(),
            old(self).in_sc,
            old(self).clock.can_tick(),
        ensures
            final(self).wf(),
            final(self).clock.abs() == abs_tick(old(self).clock.abs()),
            !final(self).in_sc,
            !final(self).waiting_sc,
            final(self).global_mutex_fifo.spec_get(old(self).site_id) == Option::<
                MutexStamp,
            >::None,
            forall|k: usize|
                k != old(self).site_id ==> final(self).global_mutex_fifo.spec_get(k) == old(self).global_mutex_fifo.spec_get(k),
            final(self).pending_commands == old(self).pending_commands,
            final(self).waves == old(self).waves,
            final(self).site_id == old(self).site_id,
            final(self).n_sites == old(self).n_sites,
            final(self).connected == old(self).connected,
            msg.code == NetworkMessageCode::MutexRelease,
            (msg.info matches MessageInfo::ReleaseMutex { date } && date
                == final(self).clock.lamport),
            msg.sender_id == old(self).site_id,
            msg.initiator_id == old(self).site_id,
            msg.clock.lamport == final(self).clock.lamport,
            msg.clock.vector@ == final(self).clock.vector@,
    {
        self.clock.tick_local();
        let d: u64 = self.clock.get_lamport();
        self.in_sc = false;
        self.global_mutex_fifo.remove(self.site_id);
        let mclock = self.clock.snapshot();
        Message {
            command: None,
            info: MessageInfo::ReleaseMutex { date: d },
            code: NetworkMessageCode::MutexRelease,
            clock: mclock,
            sender_id: self.site_id,
            initiator_id: self.site_id,
        }
    }

    /// Stores a stamp for another site as given; the simulation hook behind
    /// tests and recovery.
    pub fn set_stamp(&mut self, site: usize, stamp: MutexStamp)
        requires
            old(self).wf(),
            site != old(self).site_id,
        ensures
            final(self).wf(),
            final(self).global_mutex_fifo.spec_get(site) == Some(stamp),
            forall|k: usize|
                k != site ==> final(self).global_mutex_fifo.spec_get(k) == old(self).global_mutex_fifo.spec_get(k),
            final(self).clock == old(self).clock,
            final(self).in_sc == old(self).in_sc,
            final(self).waiting_sc == old(self).waiting_sc,
            final(self).request_date == old(self).request_date,
            final(self).pending_commands == old(self).pending_commands,
            final(self).waves == old(self).waves,
            final(self).site_id == old(self).site_id,
            final(self).n_sites == old(self).n_sites,
            final(self).connected == old(self).connected,
    {
        self.global_mutex_fifo.insert(site, stamp);
    }

    /// Pops the head of the pending queue, if the queue holds anything: the
    /// control worker's single way of taking work.
    pub fn take_pending(&mut self) -> (r: Option<CriticalCommands>)
        requires
            old(self).wf(),
        ensures
            final(self).wf(),
            old(self).pending_commands@.len() == 0 ==> r is None && *final(self) == *old(self),
            old(self).pending_commands@.len() > 0 ==> r == Some(old(self).pending_commands@[0])
                && final(self).pending_commands@ == old(self).pending_commands@.drop_first(),
            final(self).clock == old(self).clock,
            final(self).global_mutex_fifo == old(self).global_mutex_fifo,
            final(self).in_sc == old(self).in_sc,
            final(self).waiting_sc == old(self).waiting_sc,
            final(self).request_date == old(self).request_date,
            final(self).waves == old(self).waves,
            final(self).site_id == old(self).site_id,
            final(self).n_sites == old(self).n_sites,
            final(self).connected == old(self).connected,
    {
        if self.pending_commands.len() == 0 {
            None
        } else {
            let c = self.pending_commands.remove(0);
            proof {
                assert(self.pending_commands@ =~= old(self).pending_commands@.drop_first());
            }
            Some(c)
        }
    }

    /// Whether the stamp table holds an entry for the site.
    pub fn fifo_contains(&self, site: usize) -> (r: bool)
        ensures
            r == self.global_mutex_fifo.spec_contains(site),
    {
        match self.global_mutex_fifo.get(site) {
            Some(_) => true,
            None => false,
        }
    }
}

/// Mutex safety at the site level: two distinct sites whose pending requests
/// are on record at each other cannot both pass the entry test, because the
/// `(date, rank)` pairs of their requests are totally ordered; `try_enter_sc`
/// can therefore make `in_sc` true on at most one of them. The entry test's
/// existence half forces a waiting site to hold *some* stamp for every
/// connected peer before it may enter.
pub proof fn lemma_mutex_safety_sites(a: SiteState, b: SiteState)
    requires
        a.site_id != b.site_id,
        a.global_mutex_fifo.spec_get(b.site_id) == Some(
            MutexStamp { tag: MutexTag::Request, date: b.request_date },
        ),
        b.global_mutex_fifo.spec_get(a.site_id) == Some(
            MutexStamp { tag: MutexTag::Request, date: a.request_date },
        ),
    ensures
        !(a.entry_allowed() && b.entry_allowed()),
{
    lemma_mutex_safety(
        a.global_mutex_fifo,
        b.global_mutex_fifo,
        a.site_id,
        b.site_id,
        a.request_date,
        b.request_date,
    );
}

} // verus!
