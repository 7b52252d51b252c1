//! Echo-wave bookkeeping: per in-flight wave, the neighbor the wave first
//! came from and the number of echo acknowledgments still owed.
//!
//! A wave is identified by the rank of its initiator and the Lamport time of
//! the initiating event. The initiator records itself as parent and expects
//! one acknowledgment per connected neighbor; every other site records the
//! first sender as parent and expects one per remaining neighbor. When the
//! count reaches zero the wave is complete at this site and the bookkeeping
//! is dropped; a non-initiator then owes one acknowledgment to its parent.

use vstd::prelude::*;
use crate::site::SiteState;

verus! {

/// Identity of one wave.
#[derive(Clone, Copy, Debug, PartialEq, Eq, Structural)]
pub struct WaveKey {
    /// Rank of the initiating site.
    pub initiator: usize,
    /// Lamport time of the initiating event.
    pub lamport: u64,
}

/// Bookkeeping of one in-flight wave at one site.
#[derive(Clone, Copy, Debug, PartialEq, Eq, Structural)]
pub struct WaveInfo {
    /// Rank of the neighbor the wave first came from; the initiator itself
    /// for the initiator.
    pub parent: usize,
    /// Echo acknowledgments still owed to this site.
    pub expected: usize,
}

/// First entry stored under `k`, scanning from the front.
pub open spec fn wave_find(s: Seq<(WaveKey, WaveInfo)>, k: WaveKey) -> Option<WaveInfo>
    decreases s.len(),
{
    if s.len() == 0 {
        None
    } else if s[0].0 == k {
        Some(s[0].1)
    } else {
        wave_find(s.drop_first(), k)
    }
}

/// No wave key occurs twice.
pub open spec fn wave_keys_unique(s: Seq<(WaveKey, WaveInfo)>) -> bool {
    forall|i: int, j: int| 0 <= i < j < s.len() ==> s[i].0 != s[j].0
}

/// Table of the in-flight waves of one site.
#[derive(Clone, Debug)]
pub struct WaveMap {
    /// The entries; keys are unique.
    pub entries: Vec<(WaveKey, WaveInfo)>,
}

impl WaveMap {
    /// No wave key occurs twice.
    pub open spec fn keys_unique(self) -> bool {
        wave_keys_unique(self.entries@)
    }

    /// Bookkeeping stored for the wave, if any.
    pub open spec fn spec_get(self, k: WaveKey) -> Option<WaveInfo> {
        wave_find(self.entries@, k)
    }

    /// Whether bookkeeping is stored for the wave.
    pub open spec fn spec_contains(self, k: WaveKey) -> bool {
        self.spec_get(k) is Some
    }

    /// Empty table.
    pub fn new() -> (m: WaveMap)
        ensures
            m.keys_unique(),
            forall|k: WaveKey| m.spec_get(k) == Option::<WaveInfo>::None,
            m.entries@.len() == 0,
    {
        WaveMap { entries: Vec::new() }
    }

    /// Looks the bookkeeping of one wave up.
    pub fn get(&self, k: WaveKey) -> (r: Option<WaveInfo>)
        ensures
            r == self.spec_get(k),
    {
        let n: usize = self.entries.len();
        let mut i: usize = 0;
        while i < n
            invariant
                i <= n,
                n == self.entries@.len(),
                forall|j: int| 0 <= j < i ==> self.entries@[j].0 != k,
            decreases n - i,
        {
            if self.entries[i].0 == k {
                proof {
                    lemma_wave_find_at(self.entries@, k, i as int);
                }
                return Some(self.entries[i].1);
            }
            i = i + 1;
        }
        proof {
            lemma_wave_find_absent(self.entries@, k);
        }
        None
    }

    /// Stores `v` for the wave, replacing any earlier entry of the same wave
    /// and touching no other wave's entry.
    pub fn insert(&mut self, k: WaveKey, v: WaveInfo)
        requires
            old(self).keys_unique(),
        ensures
            final(self).keys_unique(),
            final(self).spec_get(k) == Some(v),
            forall|k2: WaveKey| k2 != k ==> final(self).spec_get(k2) == old(self).spec_get(k2),
    {
        let n: usize = self.entries.len();
        let mut i: usize = 0;
        while i < n
            invariant
                i <= n,
                n == self.entries@.len(),
                self == old(self),
                old(self).keys_unique(),
                forall|j: int| 0 <= j < i ==> self.entries@[j].0 != k,
            decreases n - i,
        {
            if self.entries[i].0 == k {
                proof {
                    lemma_wave_find_at(self.entries@, k, i as int);
                    lemma_wave_find_update(self.entries@, k, i as int, v);
                    let s = self.entries@;
                    let t = s.update(i as int, (k, v));
                    assert forall|p: int, q: int| 0 <= p < q < t.len() implies t[p].0
                        != t[q].0 by {
                        assert(s[p].0 != s[q].0);
                        assert(t[p].0 == s[p].0);
                        assert(t[q].0 == s[q].0);
                    }
                }
                self.entries.set(i, (k, v));
                return ;
            }
            i = i + 1;
        }
        proof {
            lemma_wave_find_absent(self.entries@, k);
            lemma_wave_find_push(self.entries@, k, v);
            let s = self.entries@;
            let t = s.push((k, v));
            assert forall|p: int, q: int| 0 <= p < q < t.len() implies t[p].0 != t[q].0 by {
                assert(t[p].0 == s[p].0);
                if q < s.len() {
                    assert(s[p].0 != s[q].0);
                    assert(t[q].0 == s[q].0);
                } else {
                    assert(t[q].0 == k);
                }
            }
        }
        self.entries.push((k, v));
    }

    /// Drops the bookkeeping of the wave, if there is any.
    pub fn remove(&mut self, k: WaveKey)
        requires
            old(self).keys_unique(),
        ensures
            final(self).keys_unique(),
            final(self).spec_get(k) == Option::<WaveInfo>::None,
            forall|k2: WaveKey| k2 != k ==> final(self).spec_get(k2) == old(self).spec_get(k2),
    {
        let n: usize = self.entries.len();
        let mut i: usize = 0;
        while i < n
            invariant
                i <= n,
                n == self.entries@.len(),
                self == old(self),
                old(self).keys_unique(),
                forall|j: int| 0 <= j < i ==> self.entries@[j].0 != k,
            decreases n - i,
        {
            if self.entries[i].0 == k {
                proof {
                    lemma_wave_find_remove(self.entries@, k, i as int);
                    let s = self.entries@;
                    let t = s.remove(i as int);
                    assert forall|p: int, q: int| 0 <= p < q < t.len() implies t[p].0
                        != t[q].0 by {
                        let p2 = if p < i as int {
                            p
                        } else {
                            p + 1
                        };
                        let q2 = if q < i as int {
                            q
                        } else {
                            q + 1
                        };
                        assert(t[p] == s[p2]);
                        assert(t[q] == s[q2]);
                        assert(s[p2].0 != s[q2].0);
                    }
                }
                self.entries.remove(i);
                return ;
            }
            i = i + 1;
        }
        proof {
            lemma_wave_find_absent(self.entries@, k);
        }
    }

    /// Number of in-flight waves.
    pub fn len(&self) -> (n: usize)
        ensures
            n == self.entries@.len(),
    {
        self.entries.len()
    }
}

/// An entry found at an index with no earlier match is what the scan returns.
proof fn lemma_wave_find_at(s: Seq<(WaveKey, WaveInfo)>, k: WaveKey, i: int)
    requires
        0 <= i < s.len(),
        s[i].0 == k,
        forall|j: int| 0 <= j < i ==> s[j].0 != k,
    ensures
        wave_find(s, k) == Some(s[i].1),
    decreases i,
{
    if i > 0 {
        lemma_wave_find_at(s.drop_first(), k, i - 1);
    }
}

/// A key under no index is not found.
proof fn lemma_wave_find_absent(s: Seq<(WaveKey, WaveInfo)>, k: WaveKey)
    requires
        forall|j: int| 0 <= j < s.len() ==> s[j].0 != k,
    ensures
        wave_find(s, k) == Option::<WaveInfo>::None,
    decreases s.len(),
{
    if s.len() > 0 {
        lemma_wave_find_absent(s.drop_first(), k);
    }
}

/// Overwriting the entry of `k` in place changes only what is found under
/// `k`.
proof fn lemma_wave_find_update(s: Seq<(WaveKey, WaveInfo)>, k: WaveKey, i: int, v: WaveInfo)
    requires
        0 <= i < s.len(),
        s[i].0 == k,
        forall|j: int| 0 <= j < i ==> s[j].0 != k,
    ensures
        wave_find(s.update(i, (k, v)), k) == Some(v),
        forall|k2: WaveKey| k2 != k ==> wave_find(s.update(i, (k, v)), k2) == wave_find(s, k2),
    decreases i,
{
    let t = s.update(i, (k, v));
    if i == 0 {
        assert(wave_find(t, k) == Some(v));
        assert forall|k2: WaveKey| k2 != k implies wave_find(t, k2) == wave_find(s, k2) by {
            assert(t.drop_first() =~= s.drop_first());
        }
    } else {
        lemma_wave_find_update(s.drop_first(), k, i - 1, v);
        assert(t.drop_first() =~= s.drop_first().update(i - 1, (k, v)));
        assert(t[0] == s[0]);
        assert(wave_find(t, k) == wave_find(t.drop_first(), k));
        assert forall|k2: WaveKey| k2 != k implies wave_find(t, k2) == wave_find(s, k2) by {
            if t[0].0 == k2 {
            } else {
                assert(wave_find(t, k2) == wave_find(t.drop_first(), k2));
                assert(wave_find(s, k2) == wave_find(s.drop_first(), k2));
            }
        }
    }
}

/// Appending a fresh key changes only what is found under that key.
proof fn lemma_wave_find_push(s: Seq<(WaveKey, WaveInfo)>, k: WaveKey, v: WaveInfo)
    requires
        forall|j: int| 0 <= j < s.len() ==> s[j].0 != k,
    ensures
        wave_find(s.push((k, v)), k) == Some(v),
        forall|k2: WaveKey| k2 != k ==> wave_find(s.push((k, v)), k2) == wave_find(s, k2),
    decreases s.len(),
{
    let t = s.push((k, v));
    if s.len() == 0 {
        assert(t[0] == (k, v));
        assert(wave_find(t, k) == Some(v));
        assert forall|k2: WaveKey| k2 != k implies wave_find(t, k2) == wave_find(s, k2) by {
            assert(t.drop_first() =~= s);
            assert(wave_find(t, k2) == wave_find(t.drop_first(), k2));
            assert(wave_find(s, k2) == Option::<WaveInfo>::None);
        }
    } else {
        lemma_wave_find_push(s.drop_first(), k, v);
        assert(t.drop_first() =~= s.drop_first().push((k, v)));
        assert(t[0] == s[0]);
        assert(wave_find(t, k) == wave_find(t.drop_first(), k));
        assert forall|k2: WaveKey| k2 != k implies wave_find(t, k2) == wave_find(s, k2) by {
            if t[0].0 == k2 {
            } else {
                assert(wave_find(t, k2) == wave_find(t.drop_first(), k2));
                assert(wave_find(s, k2) == wave_find(s.drop_first(), k2));
            }
        }
    }
}

/// Dropping the entry of `k` changes only what is found under `k`.
proof fn lemma_wave_find_remove(s: Seq<(WaveKey, WaveInfo)>, k: WaveKey, i: int)
    requires
        0 <= i < s.len(),
        s[i].0 == k,
        forall|j: int| 0 <= j < i ==> s[j].0 != k,
        wave_keys_unique(s),
    ensures
        wave_find(s.remove(i), k) == Option::<WaveInfo>::None,
        forall|k2: WaveKey| k2 != k ==> wave_find(s.remove(i), k2) == wave_find(s, k2),
    decreases i,
{
    let t = s.remove(i);
    if i == 0 {
        assert(t =~= s.drop_first());
        assert forall|j: int| 0 <= j < t.len() implies t[j].0 != k by {
            assert(s[j + 1] == t[j]);
            assert(s[0].0 != s[j + 1].0);
        }
        lemma_wave_find_absent(t, k);
    } else {
        assert forall|p: int, q: int|
            0 <= p < q < s.drop_first().len() implies s.drop_first()[p].0
            != s.drop_first()[q].0 by {
            assert(s.drop_first()[p] == s[p + 1]);
            assert(s.drop_first()[q] == s[q + 1]);
            assert(s[p + 1].0 != s[q + 1].0);
        }
        assert(wave_keys_unique(s.drop_first()));
        lemma_wave_find_remove(s.drop_first(), k, i - 1);
        assert(t.drop_first() =~= s.drop_first().remove(i - 1));
        assert(t[0] == s[0]);
        assert(wave_find(t, k) == wave_find(t.drop_first(), k));
        assert forall|k2: WaveKey| k2 != k implies wave_find(t, k2) == wave_find(s, k2) by {
            if t[0].0 == k2 {
            } else {
                assert(wave_find(t, k2) == wave_find(t.drop_first(), k2));
                assert(wave_find(s, k2) == wave_find(s.drop_first(), k2));
            }
        }
    }
}

/// What an echo acknowledgment led to at this site.
#[derive(Clone, Copy, Debug, PartialEq, Eq, Structural)]
pub enum WaveAckOutcome {
    /// The wave is not on record here; the acknowledgment is dropped.
    Unknown,
    /// Acknowledgments are still owed; the wave stays on record.
    Pending,
    /// The wave completed and this site initiated it; nothing more to send.
    CompleteInitiator,
    /// The wave completed at this intermediate site; one acknowledgment is
    /// owed to the recorded parent.
    CompleteForward { parent: usize },
}

impl SiteState {
    /// Whether this wave is on record at this site.
    pub fn wave_known(&self, key: WaveKey) -> (r: bool)
        ensures
            r == self.waves.spec_contains(key),
    {
        match self.waves.get(key) {
            Some(_) => true,
            None => false,
        }
    }

    /// Puts a wave on record with the given parent and owed-acknowledgment
    /// count.
    pub fn record_wave(&mut self, key: WaveKey, parent: usize, expected: usize)
        requires
            old(self).wf(),
        ensures
            final(self).wf(),
            final(self).waves.spec_get(key) == Some(WaveInfo { parent, expected }),
            forall|k2: WaveKey|
                k2 != key ==> final(self).waves.spec_get(k2) == old(self).waves.spec_get(k2),
            final(self).clock == old(self).clock,
            final(self).global_mutex_fifo == old(self).global_mutex_fifo,
            final(self).in_sc == old(self).in_sc,
            final(self).waiting_sc == old(self).waiting_sc,
            final(self).request_date == old(self).request_date,
            final(self).pending_commands == old(self).pending_commands,
            final(self).site_id == old(self).site_id,
            final(self).n_sites == old(self).n_sites,
            final(self).connected == old(self).connected,
    {
        self.waves.insert(key, WaveInfo { parent, expected });
    }

    /// Drops a wave from the record.
    pub fn drop_wave(&mut self, key: WaveKey)
        requires
            old(self).wf(),
        ensures
            final(self).wf(),
            final(self).waves.spec_get(key) == Option::<WaveInfo>::None,
            forall|k2: WaveKey|
                k2 != key ==> final(self).waves.spec_get(k2) == old(self).waves.spec_get(k2),
            final(self).clock == old(self).clock,
            final(self).global_mutex_fifo == old(self).global_mutex_fifo,
            final(self).in_sc == old(self).in_sc,
            final(self).waiting_sc == old(self).waiting_sc,
            final(self).request_date == old(self).request_date,
            final(self).pending_commands == old(self).pending_commands,
            final(self).site_id == old(self).site_id,
            final(self).n_sites == old(self).n_sites,
            final(self).connected == old(self).connected,
    {
        self.waves.remove(key);
    }

    /// Recorded parent of a wave, if the wave is on record.
    pub fn get_parent_for_wave(&self, key: WaveKey) -> (r: Option<usize>)
        ensures
            r == (match self.waves.spec_get(key) {
                Some(w) => Some(w.parent),
                None => None,
            }),
    {
        match self.waves.get(key) {
            Some(w) => Some(w.parent),
            None => None,
        }
    }

    /// Acknowledgments still owed for a wave, if the wave is on record.
    pub fn get_expected_for_wave(&self, key: WaveKey) -> (r: Option<usize>)
        ensures
            r == (match self.waves.spec_get(key) {
                Some(w) => Some(w.expected),
                None => None,
            }),
    {
        match self.waves.get(key) {
            Some(w) => Some(w.expected),
            None => None,
        }
    }

    /// Handles one echo acknowledgment for a wave: one less is owed; at zero
    /// the wave completes here, the bookkeeping is dropped, and an
    /// intermediate site owes one acknowledgment to its recorded parent.
    pub fn on_wave_ack(&mut self, key: WaveKey) -> (r: WaveAckOutcome)
        requires
            old(self).wf(),
        ensures
            final(self).wf(),
            ({
                let stored = old(self).waves.spec_get(key);
                &&& stored is None ==> r == WaveAckOutcome::Unknown && final(self).waves == old(self).waves
                &&& stored is Some && stored.unwrap().expected > 1 ==> r
                    == WaveAckOutcome::Pending && final(self).waves.spec_get(key) == Some(
                    (WaveInfo {
                        parent: stored.unwrap().parent,
                        expected: (stored.unwrap().expected - 1) as usize,
                    }),
                )
                &&& stored is Some && stored.unwrap().expected <= 1 ==> final(self).waves.spec_get(key) == Option::<WaveInfo>::None && r == (if key.initiator
                    == old(self).site_id {
                    WaveAckOutcome::CompleteInitiator
                } else {
                    WaveAckOutcome::CompleteForward { parent: stored.unwrap().parent }
                })
            }),
            forall|k2: WaveKey|
                k2 != key ==> final(self).waves.spec_get(k2) == old(self).waves.spec_get(k2),
            final(self).clock == old(self).clock,
            final(self).global_mutex_fifo == old(self).global_mutex_fifo,
            final(self).in_sc == old(self).in_sc,
            final(self).waiting_sc == old(self).waiting_sc,
            final(self).request_date == old(self).request_date,
            final(self).pending_commands == old(self).pending_commands,
            final(self).site_id == old(self).site_id,
            final(self).n_sites == old(self).n_sites,
            final(self).connected == old(self).connected,
    {
        let stored = self.waves.get(key);
        match stored {
            None => WaveAckOutcome::Unknown,
            Some(w) => {
                if w.expected > 1 {
                    self.waves.insert(
                        key,
                        WaveInfo { parent: w.parent, expected: w.expected - 1 },
                    );
                    WaveAckOutcome::Pending
                } else {
                    self.waves.remove(key);
                    if key.initiator == self.site_id {
                        WaveAckOutcome::CompleteInitiator
                    } else {
                        WaveAckOutcome::CompleteForward { parent: w.parent }
                    }
                }
            },
        }
    }
    /// Handles the loss of a peer: the peer is marked disconnected and its
    /// mutex slot is cleared so it no longer blocks entry. The returned keys
    /// name every wave still in flight here; the caller counts one
    /// acknowledgment against each, since the lost peer will never send one.
    pub fn disconnect_peer(&mut self, peer: usize) -> (keys: Vec<WaveKey>)
        requires
            old(self).wf(),
            peer < old(self).n_sites,
            peer != old(self).site_id,
        ensures
            final(self).wf(),
            final(self).connected@ == old(self).connected@.update(peer as int, false),
            final(self).global_mutex_fifo.spec_get(peer) == Option::<
                crate::mutex::MutexStamp,
            >::None,
            forall|k: usize|
                k != peer ==> final(self).global_mutex_fifo.spec_get(k) == old(
                    self,
                ).global_mutex_fifo.spec_get(k),
            final(self).waves == old(self).waves,
            final(self).clock == old(self).clock,
            final(self).in_sc == old(self).in_sc,
            final(self).waiting_sc == old(self).waiting_sc,
            final(self).request_date == old(self).request_date,
            final(self).pending_commands == old(self).pending_commands,
            final(self).site_id == old(self).site_id,
            final(self).n_sites == old(self).n_sites,
            keys@.len() == old(self).waves.entries@.len(),
            forall|i: int|
                0 <= i < keys@.len() ==> keys@[i] == old(self).waves.entries@[i].0,
    {
        self.set_connected(peer, false);
        self.global_mutex_fifo.remove(peer);
        let n: usize = self.waves.entries.len();
        let mut keys: Vec<WaveKey> = Vec::new();
        let mut i: usize = 0;
        while i < n
            invariant
                i <= n,
                n == self.waves.entries@.len(),
                keys@.len() == i,
                forall|j: int| 0 <= j < i ==> keys@[j] == self.waves.entries@[j].0,
            decreases n - i,
        {
            keys.push(self.waves.entries[i].0);
            i = i + 1;
        }
        keys
    }
}

} // verus!

