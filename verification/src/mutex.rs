//! Stamps and stamp table of the distributed mutual-exclusion protocol.
//!
//! Every site keeps, per other site, the latest known mutex stamp: a
//! `Request`, `Ack` or `Release` tag with a Lamport date. A site may enter
//! its critical section only when every connected peer has a stamp on record
//! and no recorded stamp of another site takes precedence over its own
//! pending request. Requests are ordered by `(date, site rank)`,
//! lexicographically; the smaller pair wins.

use vstd::prelude::*;

verus! {

/// Kind of a mutex stamp.
#[derive(Clone, Copy, Debug, PartialEq, Eq, Structural)]
pub enum MutexTag {
    /// The site asks for the critical section.
    Request,
    /// The site acknowledged another site's request.
    Ack,
    /// The site left the critical section.
    Release,
}

/// Latest known mutex position of one site.
#[derive(Clone, Copy, Debug, PartialEq, Eq, Structural)]
pub struct MutexStamp {
    /// Kind of the stamp.
    pub tag: MutexTag,
    /// Lamport date the stamp carries.
    pub date: u64,
}

/// First stamp stored under key `k`, scanning from the front.
pub open spec fn spec_find(s: Seq<(usize, MutexStamp)>, k: usize) -> Option<MutexStamp>
    decreases s.len(),
{
    if s.len() == 0 {
        None
    } else if s[0].0 == k {
        Some(s[0].1)
    } else {
        spec_find(s.drop_first(), k)
    }
}

/// No site rank occurs twice among the keys.
pub open spec fn seq_keys_unique(s: Seq<(usize, MutexStamp)>) -> bool {
    forall|i: int, j: int| 0 <= i < j < s.len() ==> s[i].0 != s[j].0
}

/// Table of the latest known stamp of each site, keyed by site rank.
#[derive(Clone, Debug)]
pub struct StampMap {
    /// The entries; keys are unique.
    pub entries: Vec<(usize, MutexStamp)>,
}

impl StampMap {
    /// No site rank occurs twice.
    pub open spec fn keys_unique(self) -> bool {
        seq_keys_unique(self.entries@)
    }

    /// Stamp stored for site `k`, if any.
    pub open spec fn spec_get(self, k: usize) -> Option<MutexStamp> {
        spec_find(self.entries@, k)
    }

    /// Whether a stamp is stored for site `k`.
    pub open spec fn spec_contains(self, k: usize) -> bool {
        self.spec_get(k) is Some
    }

    /// Empty table.
    pub fn new() -> (m: StampMap)
        ensures
            m.keys_unique(),
            forall|k: usize| m.spec_get(k) == Option::<MutexStamp>::None,
            m.entries@.len() == 0,
    {
        StampMap { entries: Vec::new() }
    }

    /// Looks the stamp of site `k` up.
    pub fn get(&self, k: usize) -> (r: Option<MutexStamp>)
        ensures
            r == self.spec_get(k),
    {
        let n: usize = self.entries.len();
        let mut i: usize = 0;
        while i < n
            invariant
                i <= n,
                n == self.entries@.len(),
                forall|j: int| 0 <= j < i ==> self.entries@[j].0 != k,
            decreases n - i,
        {
            if self.entries[i].0 == k {
                proof {
                    lemma_find_at(self.entries@, k, i as int);
                }
                return Some(self.entries[i].1);
            }
            i = i + 1;
        }
        proof {
            lemma_find_absent(self.entries@, k);
        }
        None
    }

    /// Stores `v` for site `k`, replacing any earlier stamp of `k` and
    /// touching no other site's entry.
    pub fn insert(&mut self, k: usize, v: MutexStamp)
        requires
            old(self).keys_unique(),
        ensures
            final(self).keys_unique(),
            final(self).spec_get(k) == Some(v),
            forall|k2: usize| k2 != k ==> final(self).spec_get(k2) == old(self).spec_get(k2),
            final(self).entries@.len() == if old(self).spec_contains(k) {
                old(self).entries@.len() as int
            } else {
                old(self).entries@.len() + 1 as int
            },
    {
        let n: usize = self.entries.len();
        let mut i: usize = 0;
        while i < n
            invariant
                i <= n,
                n == self.entries@.len(),
                self == old(self),
                old(self).keys_unique(),
                forall|j: int| 0 <= j < i ==> self.entries@[j].0 != k,
            decreases n - i,
        {
            if self.entries[i].0 == k {
                proof {
                    lemma_find_at(self.entries@, k, i as int);
                    lemma_find_update(self.entries@, k, i as int, v);
                    let s = self.entries@;
                    let t = s.update(i as int, (k, v));
                    assert forall|p: int, q: int| 0 <= p < q < t.len() implies t[p].0
                        != t[q].0 by {
                        assert(s[p].0 != s[q].0);
                        assert(t[p].0 == s[p].0);
                        assert(t[q].0 == s[q].0);
                    }
                }
                self.entries.set(i, (k, v));
                return ;
            }
            i = i + 1;
        }
        proof {
            lemma_find_absent(self.entries@, k);
            lemma_find_push(self.entries@, k, v);
            let s = self.entries@;
            let t = s.push((k, v));
            assert forall|p: int, q: int| 0 <= p < q < t.len() implies t[p].0 != t[q].0 by {
                assert(t[p].0 == s[p].0);
                if q < s.len() {
                    assert(s[p].0 != s[q].0);
                    assert(t[q].0 == s[q].0);
                } else {
                    assert(t[q].0 == k);
                }
            }
        }
        self.entries.push((k, v));
    }

    /// Drops the entry of site `k`, if there is one; no other entry moves in
    /// value.
    pub fn remove(&mut self, k: usize)
        requires
            old(self).keys_unique(),
        ensures
            final(self).keys_unique(),
            final(self).spec_get(k) == Option::<MutexStamp>::None,
            forall|k2: usize| k2 != k ==> final(self).spec_get(k2) == old(self).spec_get(k2),
    {
        let n: usize = self.entries.len();
        let mut i: usize = 0;
        while i < n
            invariant
                i <= n,
                n == self.entries@.len(),
                self == old(self),
                old(self).keys_unique(),
                forall|j: int| 0 <= j < i ==> self.entries@[j].0 != k,
            decreases n - i,
        {
            if self.entries[i].0 == k {
                proof {
                    lemma_find_remove(self.entries@, k, i as int);
                    let s = self.entries@;
                    let t = s.remove(i as int);
                    assert forall|p: int, q: int| 0 <= p < q < t.len() implies t[p].0
                        != t[q].0 by {
                        let p2 = if p < i as int { p } else { p + 1 };
                        let q2 = if q < i as int { q } else { q + 1 };
                        assert(t[p] == s[p2]);
                        assert(t[q] == s[q2]);
                        assert(s[p2].0 != s[q2].0);
                    }
                }
                self.entries.remove(i);
                return ;
            }
            i = i + 1;
        }
        proof {
            lemma_find_absent(self.entries@, k);
        }
    }

    /// Copy of the whole table, entry for entry.
    pub fn entries_copy(&self) -> (r: Vec<(usize, MutexStamp)>)
        ensures
            r@ == self.entries@,
    {
        let n: usize = self.entries.len();
        let mut r: Vec<(usize, MutexStamp)> = Vec::new();
        let mut i: usize = 0;
        while i < n
            invariant
                i <= n,
                n == self.entries@.len(),
                r@ == self.entries@.subrange(0, i as int),
            decreases n - i,
        {
            r.push(self.entries[i]);
            i = i + 1;
        }
        assert(r@ == self.entries@);
        r
    }

    /// Number of stored entries.
    pub fn len(&self) -> (n: usize)
        ensures
            n == self.entries@.len(),
    {
        self.entries.len()
    }
}

/// A stamp found at an index with no earlier match is what the scan returns.
proof fn lemma_find_at(s: Seq<(usize, MutexStamp)>, k: usize, i: int)
    requires
        0 <= i < s.len(),
        s[i].0 == k,
        forall|j: int| 0 <= j < i ==> s[j].0 != k,
    ensures
        spec_find(s, k) == Some(s[i].1),
    decreases i,
{
    if i > 0 {
        lemma_find_at(s.drop_first(), k, i - 1);
    }
}

/// A key under no index is not found.
proof fn lemma_find_absent(s: Seq<(usize, MutexStamp)>, k: usize)
    requires
        forall|j: int| 0 <= j < s.len() ==> s[j].0 != k,
    ensures
        spec_find(s, k) == Option::<MutexStamp>::None,
    decreases s.len(),
{
    if s.len() > 0 {
        lemma_find_absent(s.drop_first(), k);
    }
}

/// Overwriting the entry of `k` in place changes only what is found under
/// `k`.
proof fn lemma_find_update(s: Seq<(usize, MutexStamp)>, k: usize, i: int, v: MutexStamp)
    requires
        0 <= i < s.len(),
        s[i].0 == k,
        forall|j: int| 0 <= j < i ==> s[j].0 != k,
    ensures
        spec_find(s.update(i, (k, v)), k) == Some(v),
        forall|k2: usize| k2 != k ==> spec_find(s.update(i, (k, v)), k2) == spec_find(s, k2),
    decreases i,
{
    let t = s.update(i, (k, v));
    if i == 0 {
        assert(spec_find(t, k) == Some(v));
        assert forall|k2: usize| k2 != k implies spec_find(t, k2) == spec_find(s, k2) by {
            assert(t.drop_first() =~= s.drop_first());
        }
    } else {
        lemma_find_update(s.drop_first(), k, i - 1, v);
        assert(t.drop_first() =~= s.drop_first().update(i - 1, (k, v)));
        assert(t[0] == s[0]);
        assert(spec_find(t, k) == spec_find(t.drop_first(), k));
        assert forall|k2: usize| k2 != k implies spec_find(t, k2) == spec_find(s, k2) by {
            if t[0].0 == k2 {
            } else {
                assert(spec_find(t, k2) == spec_find(t.drop_first(), k2));
                assert(spec_find(s, k2) == spec_find(s.drop_first(), k2));
            }
        }
    }
}

/// Appending a fresh key changes only what is found under that key.
proof fn lemma_find_push(s: Seq<(usize, MutexStamp)>, k: usize, v: MutexStamp)
    requires
        forall|j: int| 0 <= j < s.len() ==> s[j].0 != k,
    ensures
        spec_find(s.push((k, v)), k) == Some(v),
        forall|k2: usize| k2 != k ==> spec_find(s.push((k, v)), k2) == spec_find(s, k2),
    decreases s.len(),
{
    let t = s.push((k, v));
    if s.len() == 0 {
        assert(t[0] == (k, v));
        assert(spec_find(t, k) == Some(v));
        assert forall|k2: usize| k2 != k implies spec_find(t, k2) == spec_find(s, k2) by {
            assert(t.drop_first() =~= s);
            assert(spec_find(t, k2) == spec_find(t.drop_first(), k2));
            assert(spec_find(s, k2) == Option::<MutexStamp>::None);
        }
    } else {
        lemma_find_push(s.drop_first(), k, v);
        assert(t.drop_first() =~= s.drop_first().push((k, v)));
        assert(t[0] == s[0]);
        assert(spec_find(t, k) == spec_find(t.drop_first(), k));
        assert forall|k2: usize| k2 != k implies spec_find(t, k2) == spec_find(s, k2) by {
            if t[0].0 == k2 {
            } else {
                assert(spec_find(t, k2) == spec_find(t.drop_first(), k2));
                assert(spec_find(s, k2) == spec_find(s.drop_first(), k2));
            }
        }
    }
}

/// Dropping the entry of `k` changes only what is found under `k`.
proof fn lemma_find_remove(s: Seq<(usize, MutexStamp)>, k: usize, i: int)
    requires
        0 <= i < s.len(),
        s[i].0 == k,
        forall|j: int| 0 <= j < i ==> s[j].0 != k,
        seq_keys_unique(s),
    ensures
        spec_find(s.remove(i), k) == Option::<MutexStamp>::None,
        forall|k2: usize| k2 != k ==> spec_find(s.remove(i), k2) == spec_find(s, k2),
    decreases i,
{
    let t = s.remove(i);
    if i == 0 {
        assert(t =~= s.drop_first());
        assert forall|j: int| 0 <= j < t.len() implies t[j].0 != k by {
            assert(s[j + 1] == t[j]);
            assert(s[0].0 != s[j + 1].0);
        }
        lemma_find_absent(t, k);
    } else {
        assert forall|p: int, q: int|
            0 <= p < q < s.drop_first().len() implies s.drop_first()[p].0 != s.drop_first()[q].0 by {
            assert(s.drop_first()[p] == s[p + 1]);
            assert(s.drop_first()[q] == s[q + 1]);
            assert(s[p + 1].0 != s[q + 1].0);
        }
        assert(seq_keys_unique(s.drop_first()));
        lemma_find_remove(s.drop_first(), k, i - 1);
        assert(t.drop_first() =~= s.drop_first().remove(i - 1));
        assert(t[0] == s[0]);
        assert(spec_find(t, k) == spec_find(t.drop_first(), k));
        assert forall|k2: usize| k2 != k implies spec_find(t, k2) == spec_find(s, k2) by {
            if t[0].0 == k2 {
            } else {
                assert(spec_find(t, k2) == spec_find(t.drop_first(), k2));
                assert(spec_find(s, k2) == spec_find(s.drop_first(), k2));
            }
        }
    }
}

/// Whether the recorded stamp of site `site` lets site `me`, whose pending
/// request carries date `my_date`, enter its critical section. A `Request`
/// blocks exactly when its `(date, rank)` pair precedes or equals ours in the
/// lexicographic order; an `Ack` or `Release` never blocks.
pub open spec fn stamp_allows(site: usize, st: MutexStamp, me: usize, my_date: u64) -> bool {
    match st.tag {
        MutexTag::Request => st.date > my_date || (st.date == my_date && site > me),
        MutexTag::Ack => true,
        MutexTag::Release => true,
    }
}

/// Entry test of site `me` with pending request date `my_date`: every
/// recorded stamp of another site must allow entry.
pub open spec fn can_enter(entries: Seq<(usize, MutexStamp)>, me: usize, my_date: u64) -> bool {
    forall|i: int|
        0 <= i < entries.len() && entries[i].0 != me ==> stamp_allows(
            entries[i].0,
            entries[i].1,
            me,
            my_date,
        )
}

/// Every connected peer has a stamp on record. Entry demands this besides
/// `can_enter`: a peer that has not answered at all still blocks, while a
/// disconnected peer's cleared slot rightly does not.
pub open spec fn every_connected_on_record(
    entries: Seq<(usize, MutexStamp)>,
    connected: Seq<bool>,
) -> bool {
    forall|p: usize|
        p < connected.len() && connected[p as int] ==> spec_find(entries, p) is Some
}

/// A found stamp sits at some index of the table.
pub proof fn lemma_find_some_index(s: Seq<(usize, MutexStamp)>, k: usize)
    requires
        spec_find(s, k) is Some,
    ensures
        exists|i: int|
            0 <= i < s.len() && s[i].0 == k && Some(s[i].1) == spec_find(s, k),
    decreases s.len(),
{
    if s[0].0 == k {
        assert(s[0].0 == k && Some(s[0].1) == spec_find(s, k));
    } else {
        lemma_find_some_index(s.drop_first(), k);
        let i = choose|i: int|
            0 <= i < s.drop_first().len() && s.drop_first()[i].0 == k && Some(
                s.drop_first()[i].1,
            ) == spec_find(s.drop_first(), k);
        assert(s[i + 1].0 == k && Some(s[i + 1].1) == spec_find(s, k));
    }
}

/// Mutex safety: two distinct sites whose pending requests are on record at
/// each other cannot both pass the entry test, because their request pairs
/// `(date, rank)` are totally ordered and one strictly precedes the other.
pub proof fn lemma_mutex_safety(
    fifo_a: StampMap,
    fifo_b: StampMap,
    a: usize,
    b: usize,
    da: u64,
    db: u64,
)
    requires
        a != b,
        fifo_a.spec_get(b) == Some(MutexStamp { tag: MutexTag::Request, date: db }),
        fifo_b.spec_get(a) == Some(MutexStamp { tag: MutexTag::Request, date: da }),
    ensures
        !(can_enter(fifo_a.entries@, a, da) && can_enter(fifo_b.entries@, b, db)),
{
    if can_enter(fifo_a.entries@, a, da) && can_enter(fifo_b.entries@, b, db) {
        lemma_find_some_index(fifo_a.entries@, b);
        lemma_find_some_index(fifo_b.entries@, a);
        let i = choose|i: int|
            0 <= i < fifo_a.entries@.len() && fifo_a.entries@[i].0 == b && Some(
                fifo_a.entries@[i].1,
            ) == spec_find(fifo_a.entries@, b);
        let j = choose|j: int|
            0 <= j < fifo_b.entries@.len() && fifo_b.entries@[j].0 == a && Some(
                fifo_b.entries@[j].1,
            ) == spec_find(fifo_b.entries@, a);
        assert(stamp_allows(b, MutexStamp { tag: MutexTag::Request, date: db }, a, da));
        assert(stamp_allows(a, MutexStamp { tag: MutexTag::Request, date: da }, b, db));
        assert(false);
    }
}

/// Mutex liveness kernel: when no other site has a pending request on
/// record, every stamp is an acknowledgment or a release, and the entry test
/// passes whatever our own request date is.
pub proof fn lemma_mutex_liveness(entries: Seq<(usize, MutexStamp)>, me: usize, my_date: u64)
    requires
        forall|i: int|
            0 <= i < entries.len() && entries[i].0 != me ==> entries[i].1.tag != MutexTag::Request,
    ensures
        can_enter(entries, me, my_date),
{
}

/// Mutex liveness kernel at the site level: a waiting site that has a stamp
/// on record for every connected peer, none of them a pending request,
/// passes the whole entry test, so the next `try_enter_sc` enters its
/// critical section.
pub proof fn lemma_mutex_liveness_site(s: crate::site::SiteState)
    requires
        forall|i: int|
            0 <= i < s.global_mutex_fifo.entries@.len() && s.global_mutex_fifo.entries@[i].0
                != s.site_id ==> s.global_mutex_fifo.entries@[i].1.tag != MutexTag::Request,
        every_connected_on_record(s.global_mutex_fifo.entries@, s.connected@),
    ensures
        s.entry_allowed(),
{
    lemma_mutex_liveness(s.global_mutex_fifo.entries@, s.site_id, s.request_date);
}

} // verus!
