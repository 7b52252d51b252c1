//! Logical clock of one site: a Lamport counter paired with a vector clock.
//!
//! The vector has one slot per site of the fixed roster, indexed by site
//! rank. A missing deployment-wide entry never arises because membership is
//! fixed at startup.

use vstd::prelude::*;

verus! {

/// Larger of two integers.
pub open spec fn spec_max(a: int, b: int) -> int {
    if a >= b {
        a
    } else {
        b
    }
}

/// Mathematical model of a clock: unbounded counters.
pub ghost struct ClockAbs {
    /// Scalar Lamport time.
    pub lamport: int,
    /// Vector clock entries.
    pub vector: Seq<int>,
    /// Rank of the owning site.
    pub me: int,
}

/// Model of counting one local event.
pub open spec fn abs_tick(c: ClockAbs) -> ClockAbs {
    ClockAbs {
        lamport: c.lamport + 1,
        vector: c.vector.update(c.me, c.vector[c.me] + 1),
        me: c.me,
    }
}

/// Model of folding in a received clock `r`: pointwise maximum on the vector
/// (a slot beyond `r` counts as zero), one past the larger Lamport time, and
/// one more on the owner's slot for the receive event itself.
pub open spec fn abs_merge(c: ClockAbs, r: ClockAbs) -> ClockAbs {
    let merged = Seq::new(
        c.vector.len(),
        |i: int|
            spec_max(
                c.vector[i],
                if 0 <= i < r.vector.len() {
                    r.vector[i]
                } else {
                    0
                },
            ),
    );
    ClockAbs {
        lamport: spec_max(c.lamport, r.lamport) + 1,
        vector: merged.update(c.me, merged[c.me] + 1),
        me: c.me,
    }
}

/// One event in the life of a clock: a local event or a receive.
pub ghost enum ClockEvent {
    /// A local event of the owning site.
    Local,
    /// Receipt of a message stamped with the given clock.
    Receive { remote: ClockAbs },
}

/// Effect of one event on a clock.
pub open spec fn abs_step(c: ClockAbs, e: ClockEvent) -> ClockAbs {
    match e {
        ClockEvent::Local => abs_tick(c),
        ClockEvent::Receive { remote } => abs_merge(c, remote),
    }
}

/// Effect of a whole sequence of events, first event first.
pub open spec fn abs_run(c: ClockAbs, events: Seq<ClockEvent>) -> ClockAbs
    decreases events.len(),
{
    if events.len() == 0 {
        c
    } else {
        abs_run(abs_step(c, events[0]), events.drop_first())
    }
}

/// Clock monotonicity: across any sequence of events, the Lamport time and
/// the owner's vector slot never decrease, and both strictly increase as soon
/// as at least one event happens.
pub proof fn lemma_clock_monotonic(c: ClockAbs, events: Seq<ClockEvent>)
    requires
        0 <= c.me < c.vector.len(),
    ensures
        abs_run(c, events).me == c.me,
        abs_run(c, events).vector.len() == c.vector.len(),
        abs_run(c, events).lamport >= c.lamport,
        abs_run(c, events).vector[c.me] >= c.vector[c.me],
        forall|i: int|
            0 <= i < c.vector.len() ==> abs_run(c, events).vector[i] >= c.vector[i],
        events.len() > 0 ==> abs_run(c, events).lamport > c.lamport,
        events.len() > 0 ==> abs_run(c, events).vector[c.me] > c.vector[c.me],
    decreases events.len(),
{
    if events.len() > 0 {
        let c1 = abs_step(c, events[0]);
        assert(c1.lamport > c.lamport);
        assert(c1.vector[c.me] > c.vector[c.me]);
        assert forall|i: int| 0 <= i < c.vector.len() implies c1.vector[i] >= c.vector[i] by {
            match events[0] {
                ClockEvent::Local => {},
                ClockEvent::Receive { remote } => {},
            }
        }
        lemma_clock_monotonic(c1, events.drop_first());
    }
}

/// Lamport counter plus vector clock of one site.
#[derive(Clone, Debug)]
pub struct Clock {
    /// Scalar Lamport time of the site.
    pub lamport: u64,
    /// Vector clock, one slot per site of the roster.
    pub vector: Vec<u64>,
    /// Rank of the owning site; indexes `vector`.
    pub me: usize,
}

impl Clock {
    /// Mathematical model of the clock.
    pub open spec fn abs(self) -> ClockAbs {
        ClockAbs {
            lamport: self.lamport as int,
            vector: self.vector@.map(|i: int, x: u64| x as int),
            me: self.me as int,
        }
    }

    /// The clock is consistent: the owner's rank is a valid slot and the
    /// Lamport time dominates every vector entry.
    pub open spec fn wf(self) -> bool {
        &&& self.me < self.vector@.len()
        &&& forall|i: int|
            0 <= i < self.vector@.len() ==> self.vector@[i] <= self.lamport
    }

    /// One more local event can be counted without overflowing.
    pub open spec fn can_tick(self) -> bool {
        self.lamport < u64::MAX
    }

    /// Fresh clock of site `me` in a roster of `n_sites` sites, all zeros.
    pub fn new(me: usize, n_sites: usize) -> (c: Clock)
        requires
            me < n_sites,
        ensures
            c.wf(),
            c.me == me,
            c.lamport == 0,
            c.vector@.len() == n_sites,
            forall|i: int| 0 <= i < n_sites ==> c.vector@[i] == 0,
    {
        let mut vector: Vec<u64> = Vec::new();
        let mut i: usize = 0;
        while i < n_sites
            invariant
                i <= n_sites,
                vector@.len() == i,
                forall|j: int| 0 <= j < i ==> vector@[j] == 0,
            decreases n_sites - i,
        {
            vector.push(0);
            i = i + 1;
        }
        Clock { lamport: 0, vector, me }
    }

    /// Counts one local event: both the Lamport time and the owner's vector
    /// slot increase by exactly one; every other slot is untouched.
    pub fn tick_local(&mut self)
        requires
            old(self).wf(),
            old(self).can_tick(),
        ensures
            final(self).wf(),
            final(self).me == old(self).me,
            final(self).lamport == old(self).lamport + 1,
            final(self).vector@ == old(self).vector@.update(
                old(self).me as int,
                (old(self).vector@[old(self).me as int] + 1) as u64,
            ),
            final(self).abs() == abs_tick(old(self).abs()),
    {
        let m: usize = self.me;
        let v: u64 = self.vector[m];
        self.vector.set(m, v + 1);
        self.lamport = self.lamport + 1;
        proof {
            let post = self.abs();
            let want = abs_tick(old(self).abs());
            assert(post.vector =~= want.vector);
            assert(post =~= want);
        }
    }

    /// Folds a received clock in: every vector slot becomes the larger of the
    /// two, the Lamport time becomes one past the larger of the two, and the
    /// owner's slot counts the receive event on top of that.
    pub fn merge(&mut self, remote: &Clock)
        requires
            old(self).wf(),
            remote.wf(),
            old(self).vector@.len() == remote.vector@.len(),
            old(self).can_tick(),
            remote.can_tick(),
        ensures
            final(self).wf(),
            final(self).me == old(self).me,
            final(self).vector@.len() == old(self).vector@.len(),
            final(self).lamport == spec_max(
                old(self).lamport as int,
                remote.lamport as int,
            ) + 1,
            forall|i: int|
                0 <= i < old(self).vector@.len() && i != old(self).me
                    ==> final(self).vector@[i] == spec_max(
                    old(self).vector@[i] as int,
                    remote.vector@[i] as int,
                ),
            final(self).vector@[old(self).me as int] == spec_max(
                old(self).vector@[old(self).me as int] as int,
                remote.vector@[old(self).me as int] as int,
            ) + 1,
            final(self).abs() == abs_merge(old(self).abs(), remote.abs()),
    {
        let n: usize = self.vector.len();
        let mut i: usize = 0;
        while i < n
            invariant
                i <= n,
                n == self.vector@.len(),
                n == remote.vector@.len(),
                self.me == old(self).me,
                self.lamport == old(self).lamport,
                forall|j: int|
                    0 <= j < i ==> self.vector@[j] == spec_max(
                        old(self).vector@[j] as int,
                        remote.vector@[j] as int,
                    ),
                forall|j: int|
                    i <= j < n ==> self.vector@[j] == old(self).vector@[j],
            decreases n - i,
        {
            let a: u64 = self.vector[i];
            let b: u64 = remote.vector[i];
            if b > a {
                self.vector.set(i, b);
            }
            i = i + 1;
        }
        let l: u64 = if remote.lamport > self.lamport {
            remote.lamport
        } else {
            self.lamport
        };
        self.lamport = l + 1;
        let m: usize = self.me;
        let vm: u64 = self.vector[m];
        self.vector.set(m, vm + 1);
        proof {
            let post = self.abs();
            let want = abs_merge(old(self).abs(), remote.abs());
            assert(post.vector =~= want.vector);
            assert(post =~= want);
        }
    }

    /// Immutable copy of the clock, field for field.
    pub fn snapshot(&self) -> (c: Clock)
        ensures
            c.lamport == self.lamport,
            c.vector@ == self.vector@,
            c.me == self.me,
    {
        Clock { lamport: self.lamport, vector: clone_u64_vec(&self.vector), me: self.me }
    }

    /// Copy of the vector clock entries.
    pub fn get_vector_clock(&self) -> (r: Vec<u64>)
        ensures
            r@ == self.vector@,
    {
        clone_u64_vec(&self.vector)
    }

    /// Scalar Lamport time.
    pub fn get_lamport(&self) -> (l: u64)
        ensures
            l == self.lamport,
    {
        self.lamport
    }
}

/// Copy of a vector of counters, entry for entry.
pub fn clone_u64_vec(v: &Vec<u64>) -> (r: Vec<u64>)
    ensures
        r@ == v@,
{
    let mut r: Vec<u64> = Vec::new();
    let mut i: usize = 0;
    while i < v.len()
        invariant
            i <= v@.len(),
            r@ == v@.subrange(0, i as int),
        decreases v@.len() - i,
    {
        r.push(v[i]);
        i = i + 1;
    }
    assert(r@ == v@);
    r
}

} // verus!
