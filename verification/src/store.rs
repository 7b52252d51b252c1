//! Local account store of one site.
//!
//! The store holds the user accounts and the ledger of applied transactions.
//! Every mutation is keyed by `(lamport, origin_site)` and is idempotent: a
//! transaction whose key the ledger already holds is skipped, so re-delivery
//! under wave cycles is safe. Amounts are fixed-point integers in the
//! smallest currency unit.
//!
//! The account that pays a deposit, and the account paid by a withdrawal or a
//! payment, is the external world, written as the account name `NULL`.

use vstd::prelude::*;
use crate::clock::clone_u64_vec;

verus! {

/// Relies on `str`'s `PartialEq`: two string slices are equal exactly when
/// their character sequences are.
#[verifier::external_body]
pub(crate) fn str_eq(a: &str, b: &str) -> (r: bool)
    ensures
        r == (a@ == b@),
{
    a == b
}

/// One ledger row: a transfer of `amount` from account `src` to account
/// `dst`, applied under the key `(lamport, origin)`.
#[derive(Clone, Debug)]
pub struct Transaction {
    /// Lamport time of the originating event; half of the key.
    pub lamport: u64,
    /// Rank of the originating site; the other half of the key.
    pub origin: usize,
    /// Paying account name.
    pub src: String,
    /// Receiving account name.
    pub dst: String,
    /// Moved amount, in the smallest currency unit.
    pub amount: i64,
    /// Vector clock of the originating event.
    pub vector: Vec<u64>,
    /// Key of the transaction this row refunds, if it is a refund.
    pub refund_of: Option<(u64, usize)>,
}

/// The row carries exactly these key, accounts, amount and vector clock, and
/// is no refund.
pub open spec fn row_is(
    t: Transaction,
    lamport: u64,
    origin: usize,
    src: Seq<char>,
    dst: Seq<char>,
    amount: i64,
    vector: Seq<u64>,
) -> bool {
    &&& t.lamport == lamport
    &&& t.origin == origin
    &&& t.src@ == src
    &&& t.dst@ == dst
    &&& t.amount == amount
    &&& t.vector@ == vector
    &&& t.refund_of is None
}

/// The two rows carry the same content: every field equal, the vector clock
/// by its entries. Rows with `Vec` fields copied entry for entry are equal
/// in this sense.
pub open spec fn tx_equal(a: Transaction, b: Transaction) -> bool {
    &&& a.lamport == b.lamport
    &&& a.origin == b.origin
    &&& a.src@ == b.src@
    &&& a.dst@ == b.dst@
    &&& a.amount == b.amount
    &&& a.vector@ == b.vector@
    &&& a.refund_of == b.refund_of
}

/// What one row contributes to the balance of account `name`.
pub open spec fn row_effect(t: Transaction, name: Seq<char>) -> int {
    (if t.dst@ == name {
        t.amount as int
    } else {
        0
    }) - (if t.src@ == name {
        t.amount as int
    } else {
        0
    })
}

/// Balance of account `name` over a ledger: the sum of all contributions.
pub open spec fn solde_of(txs: Seq<Transaction>, name: Seq<char>) -> int
    decreases txs.len(),
{
    if txs.len() == 0 {
        0
    } else {
        solde_of(txs.drop_last(), name) + row_effect(txs.last(), name)
    }
}

/// Whether a ledger holds a row under the key `(lamport, origin)`.
pub open spec fn seq_has_tx(txs: Seq<Transaction>, lamport: u64, origin: usize) -> bool {
    exists|i: int| 0 <= i < txs.len() && txs[i].lamport == lamport && txs[i].origin == origin
}

/// Idempotent application of one row to a ledger: a row whose key is already
/// present is skipped.
pub open spec fn spec_apply(txs: Seq<Transaction>, t: Transaction) -> Seq<Transaction> {
    if seq_has_tx(txs, t.lamport, t.origin) {
        txs
    } else {
        txs.push(t)
    }
}

/// Store idempotence: applying a row a second time leaves the ledger exactly
/// as it stood after the first application.
pub proof fn lemma_store_idempotent(txs: Seq<Transaction>, t: Transaction)
    ensures
        spec_apply(spec_apply(txs, t), t) == spec_apply(txs, t),
{
    let once = spec_apply(txs, t);
    if !seq_has_tx(txs, t.lamport, t.origin) {
        assert(once[txs.len() as int] == t);
        assert(seq_has_tx(once, t.lamport, t.origin));
    }
}

/// First row stored under the key, scanning from the front.
pub open spec fn spec_find_tx(txs: Seq<Transaction>, lamport: u64, origin: usize) -> Option<
    Transaction,
>
    decreases txs.len(),
{
    if txs.len() == 0 {
        None
    } else if txs[0].lamport == lamport && txs[0].origin == origin {
        Some(txs[0])
    } else {
        spec_find_tx(txs.drop_first(), lamport, origin)
    }
}

/// A row found at an index with no earlier match is what the scan returns.
proof fn lemma_find_tx_at(txs: Seq<Transaction>, lamport: u64, origin: usize, i: int)
    requires
        0 <= i < txs.len(),
        txs[i].lamport == lamport,
        txs[i].origin == origin,
        forall|j: int| 0 <= j < i ==> !(txs[j].lamport == lamport && txs[j].origin == origin),
    ensures
        spec_find_tx(txs, lamport, origin) == Some(txs[i]),
    decreases i,
{
    if i > 0 {
        lemma_find_tx_at(txs.drop_first(), lamport, origin, i - 1);
    }
}

/// A key under no index is not found.
proof fn lemma_find_tx_absent(txs: Seq<Transaction>, lamport: u64, origin: usize)
    requires
        forall|j: int|
            0 <= j < txs.len() ==> !(txs[j].lamport == lamport && txs[j].origin == origin),
    ensures
        spec_find_tx(txs, lamport, origin) == Option::<Transaction>::None,
    decreases txs.len(),
{
    if txs.len() > 0 {
        lemma_find_tx_absent(txs.drop_first(), lamport, origin);
    }
}

/// Copy of a ledger, row for row; each copied row carries its original's
/// content.
pub fn clone_transactions(v: &Vec<Transaction>) -> (r: Vec<Transaction>)
    ensures
        r@.len() == v@.len(),
        forall|i: int| 0 <= i < v@.len() ==> tx_equal(#[trigger] r@[i], v@[i]),
{
    let n: usize = v.len();
    let mut r: Vec<Transaction> = Vec::new();
    let mut i: usize = 0;
    while i < n
        invariant
            i <= n,
            n == v@.len(),
            r@.len() == i,
            forall|j: int| 0 <= j < i ==> tx_equal(#[trigger] r@[j], v@[j]),
        decreases n - i,
    {
        let row = clone_tx(&v[i]);
        r.push(row);
        i = i + 1;
    }
    r
}

/// Whether a roster of account names holds `name`.
pub open spec fn seq_has_user(users: Seq<String>, name: Seq<char>) -> bool {
    exists|i: int| 0 <= i < users.len() && users[i]@ == name
}

/// Failure of a store operation.
#[derive(Clone, Copy, Debug, PartialEq, Eq, Structural)]
pub enum StoreError {
    /// A refund named a key that no ledger row carries.
    UnknownTransaction,
}

/// Accounts and ledger of one site.
#[derive(Clone, Debug)]
pub struct Store {
    /// Known account names, each at most once.
    pub users: Vec<String>,
    /// Applied transactions, in application order.
    pub transactions: Vec<Transaction>,
}

impl Store {
    /// Whether an account of this name exists.
    pub open spec fn has_user(self, name: Seq<char>) -> bool {
        seq_has_user(self.users@, name)
    }

    /// Whether the ledger holds a row under the key.
    pub open spec fn has_tx(self, lamport: u64, origin: usize) -> bool {
        seq_has_tx(self.transactions@, lamport, origin)
    }

    /// Account names are unique.
    pub open spec fn wf(self) -> bool {
        forall|i: int, j: int|
            0 <= i < j < self.users@.len() ==> self.users@[i]@ != self.users@[j]@
    }

    /// Empty store.
    pub fn new() -> (s: Store)
        ensures
            s.wf(),
            s.users@.len() == 0,
            s.transactions@.len() == 0,
    {
        Store { users: Vec::new(), transactions: Vec::new() }
    }

    /// Whether an account of this name exists.
    pub fn user_exists(&self, name: &str) -> (r: bool)
        ensures
            r == self.has_user(name@),
    {
        let n: usize = self.users.len();
        let mut i: usize = 0;
        while i < n
            invariant
                i <= n,
                n == self.users@.len(),
                forall|j: int| 0 <= j < i ==> self.users@[j]@ != name@,
            decreases n - i,
        {
            if str_eq(self.users[i].as_str(), name) {
                proof {
                    assert(seq_has_user(self.users@, name@));
                }
                return true;
            }
            i = i + 1;
        }
        false
    }

    /// Creates the account if it is new; an existing account is left alone.
    /// Returns whether an account was created.
    pub fn create_user(&mut self, name: &str) -> (created: bool)
        requires
            old(self).wf(),
        ensures
            final(self).wf(),
            created == !old(self).has_user(name@),
            created ==> final(self).users@.len() == old(self).users@.len() + 1
                && final(self).users@ == old(self).users@.push(final(self).users@.last())
                && final(self).users@.last()@ == name@,
            !created ==> *final(self) == *old(self),
            final(self).transactions@ == old(self).transactions@,
            final(self).has_user(name@),
            forall|n2: Seq<char>|
                n2 != name@ ==> final(self).has_user(n2) == old(self).has_user(n2),
    {
        if self.user_exists(name) {
            return false;
        }
        let owned: String = name.to_owned();
        proof {
            let s = self.users@;
            let t = s.push(owned);
            assert(t[s.len() as int]@ == name@);
            assert(seq_has_user(t, name@));
            assert forall|i: int, j: int| 0 <= i < j < t.len() implies t[i]@ != t[j]@ by {
                if j < s.len() {
                    assert(t[i]@ == s[i]@);
                    assert(t[j]@ == s[j]@);
                } else {
                    assert(t[i]@ == s[i]@);
                    assert(t[j]@ == name@);
                    assert(!seq_has_user(s, name@));
                }
            }
            assert forall|n2: Seq<char>| n2 != name@ implies seq_has_user(t, n2) == seq_has_user(
                s,
                n2,
            ) by {
                if seq_has_user(t, n2) {
                    let i = choose|i: int| 0 <= i < t.len() && t[i]@ == n2;
                    assert(0 <= i < s.len() && s[i]@ == n2);
                }
                if seq_has_user(s, n2) {
                    let i = choose|i: int| 0 <= i < s.len() && s[i]@ == n2;
                    assert(t[i]@ == n2);
                }
            }
        }
        self.users.push(owned);
        true
    }

    /// Drops the account of this name, if it exists; the ledger and every
    /// other account stay.
    pub fn delete_user(&mut self, name: &str) -> (removed: bool)
        requires
            old(self).wf(),
        ensures
            final(self).wf(),
            removed == old(self).has_user(name@),
            !final(self).has_user(name@),
            forall|n2: Seq<char>|
                n2 != name@ ==> final(self).has_user(n2) == old(self).has_user(n2),
            final(self).transactions@ == old(self).transactions@,
            !removed ==> *final(self) == *old(self),
    {
        let n: usize = self.users.len();
        let mut i: usize = 0;
        while i < n
            invariant
                i <= n,
                n == self.users@.len(),
                self == old(self),
                old(self).wf(),
                forall|j: int| 0 <= j < i ==> self.users@[j]@ != name@,
            decreases n - i,
        {
            if str_eq(self.users[i].as_str(), name) {
                proof {
                    let s = self.users@;
                    let t = s.remove(i as int);
                    assert forall|p: int, q: int| 0 <= p < q < t.len() implies t[p]@ != t[q]@ by {
                        let p2 = if p < i as int {
                            p
                        } else {
                            p + 1
                        };
                        let q2 = if q < i as int {
                            q
                        } else {
                            q + 1
                        };
                        assert(t[p] == s[p2]);
                        assert(t[q] == s[q2]);
                        assert(s[p2]@ != s[q2]@);
                    }
                    assert forall|j: int| 0 <= j < t.len() implies t[j]@ != name@ by {
                        let j2 = if j < i as int {
                            j
                        } else {
                            j + 1
                        };
                        assert(t[j] == s[j2]);
                        if j2 != i as int {
                            assert(s[j2]@ != s[i as int]@);
                        }
                    }
                    assert forall|n2: Seq<char>| n2 != name@ && seq_has_user(s, n2) implies
                        seq_has_user(t, n2) by {
                        let w = choose|w: int| 0 <= w < s.len() && s[w]@ == n2;
                        let w2 = if w < i as int {
                            w
                        } else {
                            w - 1
                        };
                        assert(t[w2] == s[w]);
                    }
                    assert forall|n2: Seq<char>| n2 != name@ && seq_has_user(t, n2) implies
                        seq_has_user(s, n2) by {
                        let w = choose|w: int| 0 <= w < t.len() && t[w]@ == n2;
                        let w2 = if w < i as int {
                            w
                        } else {
                            w + 1
                        };
                        assert(t[w] == s[w2]);
                    }
                }
                self.users.remove(i);
                return true;
            }
            i = i + 1;
        }
        false
    }

    /// Names of all accounts, in creation order.
    pub fn get_users(&self) -> (r: Vec<String>)
        ensures
            r@ == self.users@,
    {
        let n: usize = self.users.len();
        let mut r: Vec<String> = Vec::new();
        let mut i: usize = 0;
        while i < n
            invariant
                i <= n,
                n == self.users@.len(),
                r@ == self.users@.subrange(0, i as int),
            decreases n - i,
        {
            let u: String = self.users[i].clone();
            r.push(u);
            i = i + 1;
        }
        assert(r@ == self.users@);
        r
    }

    /// Whether the ledger holds a row under the key `(lamport, origin)`.
    pub fn transaction_exists(&self, lamport: u64, origin: usize) -> (r: bool)
        ensures
            r == self.has_tx(lamport, origin),
    {
        let n: usize = self.transactions.len();
        let mut i: usize = 0;
        while i < n
            invariant
                i <= n,
                n == self.transactions@.len(),
                forall|j: int|
                    0 <= j < i ==> !(self.transactions@[j].lamport == lamport
                        && self.transactions@[j].origin == origin),
            decreases n - i,
        {
            let t = &self.transactions[i];
            if t.lamport == lamport && t.origin == origin {
                return true;
            }
            i = i + 1;
        }
        false
    }

    /// Applies one ledger row idempotently: the row is appended exactly when
    /// its key is new, and nothing else moves.
    pub fn apply_tx(&mut self, t: Transaction) -> (applied: bool)
        ensures
            applied == !old(self).has_tx(t.lamport, t.origin),
            final(self).transactions@ == spec_apply(old(self).transactions@, t),
            final(self).users@ == old(self).users@,
            final(self).has_tx(t.lamport, t.origin),
            !applied ==> *final(self) == *old(self),
    {
        if self.transaction_exists(t.lamport, t.origin) {
            return false;
        }
        proof {
            let s = self.transactions@.push(t);
            assert(s[self.transactions@.len() as int] == t);
        }
        self.transactions.push(t);
        true
    }

    /// Credits `amount` to the account: a row from the external world.
    pub fn deposit(
        &mut self,
        name: &str,
        amount: i64,
        lamport: u64,
        origin: usize,
        vector: &Vec<u64>,
    ) -> (applied: bool)
        ensures
            applied == !old(self).has_tx(lamport, origin),
            !applied ==> *final(self) == *old(self),
            applied ==> final(self).transactions@ == old(self).transactions@.push(
                final(self).transactions@.last(),
            ) && row_is(
                final(self).transactions@.last(),
                lamport,
                origin,
                "NULL"@,
                name@,
                amount,
                vector@,
            ),
            final(self).users@ == old(self).users@,
            final(self).has_tx(lamport, origin),
    {
        let src: String = "NULL".to_owned();
        let dst: String = name.to_owned();
        let vector: Vec<u64> = clone_u64_vec(vector);
        self.apply_tx(Transaction { lamport, origin, src, dst, amount, vector, refund_of: None })
    }

    /// Debits `amount` from the account: a row to the external world.
    pub fn withdraw(
        &mut self,
        name: &str,
        amount: i64,
        lamport: u64,
        origin: usize,
        vector: &Vec<u64>,
    ) -> (applied: bool)
        ensures
            applied == !old(self).has_tx(lamport, origin),
            !applied ==> *final(self) == *old(self),
            applied ==> final(self).transactions@ == old(self).transactions@.push(
                final(self).transactions@.last(),
            ) && row_is(
                final(self).transactions@.last(),
                lamport,
                origin,
                name@,
                "NULL"@,
                amount,
                vector@,
            ),
            final(self).users@ == old(self).users@,
            final(self).has_tx(lamport, origin),
    {
        let src: String = name.to_owned();
        let dst: String = "NULL".to_owned();
        let vector: Vec<u64> = clone_u64_vec(vector);
        self.apply_tx(Transaction { lamport, origin, src, dst, amount, vector, refund_of: None })
    }

    /// Moves `amount` from account `from` to account `to`.
    pub fn create_transaction(
        &mut self,
        from: &str,
        to: &str,
        amount: i64,
        lamport: u64,
        origin: usize,
        vector: &Vec<u64>,
    ) -> (applied: bool)
        ensures
            applied == !old(self).has_tx(lamport, origin),
            !applied ==> *final(self) == *old(self),
            applied ==> final(self).transactions@ == old(self).transactions@.push(
                final(self).transactions@.last(),
            ) && row_is(
                final(self).transactions@.last(),
                lamport,
                origin,
                from@,
                to@,
                amount,
                vector@,
            ),
            final(self).users@ == old(self).users@,
            final(self).has_tx(lamport, origin),
    {
        let src: String = from.to_owned();
        let dst: String = to.to_owned();
        let vector: Vec<u64> = clone_u64_vec(vector);
        self.apply_tx(Transaction { lamport, origin, src, dst, amount, vector, refund_of: None })
    }

    /// Reverses the transaction stored under `(tx_lamport, tx_origin)`: a new
    /// row moves the same amount back, keyed `(lamport, origin)`. Fails
    /// exactly when no row carries the named key; the refund itself is
    /// idempotent like every other row.
    pub fn refund_transaction(
        &mut self,
        tx_lamport: u64,
        tx_origin: usize,
        lamport: u64,
        origin: usize,
        vector: &Vec<u64>,
    ) -> (r: Result<bool, StoreError>)
        ensures
            r is Ok <==> old(self).has_tx(tx_lamport, tx_origin),
            r is Err ==> *final(self) == *old(self) && r == Result::<bool, StoreError>::Err(
                StoreError::UnknownTransaction,
            ),
            r is Ok && old(self).has_tx(lamport, origin) ==> *final(self) == *old(self),
            r is Ok ==> {
                let target = spec_find_tx(old(self).transactions@, tx_lamport, tx_origin).unwrap();
                &&& r == Result::<bool, StoreError>::Ok(!old(self).has_tx(lamport, origin))
                &&& (!old(self).has_tx(lamport, origin) ==> final(self).transactions@ == old(
                    self,
                ).transactions@.push(final(self).transactions@.last()) && ({
                    let row = final(self).transactions@.last();
                    &&& row.lamport == lamport
                    &&& row.origin == origin
                    &&& row.src@ == target.dst@
                    &&& row.dst@ == target.src@
                    &&& row.amount == target.amount
                    &&& row.vector@ == vector@
                    &&& row.refund_of == Some((tx_lamport, tx_origin))
                }))
            },
            final(self).users@ == old(self).users@,
            final(self).has_tx(lamport, origin) || r is Err,
    {
        let n: usize = self.transactions.len();
        let mut i: usize = 0;
        while i < n
            invariant
                i <= n,
                n == self.transactions@.len(),
                self == old(self),
                forall|j: int|
                    0 <= j < i ==> !(self.transactions@[j].lamport == tx_lamport
                        && self.transactions@[j].origin == tx_origin),
            decreases n - i,
        {
            let t = &self.transactions[i];
            if t.lamport == tx_lamport && t.origin == tx_origin {
                proof {
                    lemma_find_tx_at(self.transactions@, tx_lamport, tx_origin, i as int);
                }
                let src: String = t.dst.clone();
                let dst: String = t.src.clone();
                let amount: i64 = t.amount;
                let vector: Vec<u64> = clone_u64_vec(vector);
                let applied = self.apply_tx(
                    Transaction {
                        lamport,
                        origin,
                        src,
                        dst,
                        amount,
                        vector,
                        refund_of: Some((tx_lamport, tx_origin)),
                    },
                );
                return Ok(applied);
            }
            i = i + 1;
        }
        proof {
            lemma_find_tx_absent(self.transactions@, tx_lamport, tx_origin);
        }
        Err(StoreError::UnknownTransaction)
    }

    /// Balance of the account: what every ledger row paid to it, less what
    /// every row paid out of it.
    pub fn calculate_solde(&self, name: &str) -> (r: i128)
        ensures
            r == solde_of(self.transactions@, name@),
    {
        let n: usize = self.transactions.len();
        let mut acc: i128 = 0;
        let mut i: usize = 0;
        while i < n
            invariant
                i <= n,
                n == self.transactions@.len(),
                acc == solde_of(self.transactions@.subrange(0, i as int), name@),
                -(i as int) * 0x8000000000000000 <= acc <= (i as int) * 0x8000000000000000,
            decreases n - i,
        {
            let t = &self.transactions[i];
            let mut c: i128 = 0;
            if str_eq(t.dst.as_str(), name) {
                c = c + t.amount as i128;
            }
            if str_eq(t.src.as_str(), name) {
                c = c - t.amount as i128;
            }
            proof {
                let pre = self.transactions@.subrange(0, i as int);
                let post = self.transactions@.subrange(0, i as int + 1);
                assert(post.drop_last() =~= pre);
                assert(post.last() == self.transactions@[i as int]);
                assert(c == row_effect(self.transactions@[i as int], name@));
            }
            acc = acc + c;
            i = i + 1;
        }
        proof {
            assert(self.transactions@.subrange(0, n as int) =~= self.transactions@);
        }
        acc
    }

    /// The ledger rows that touch the account, in application order; each
    /// returned row carries the content of its ledger original.
    pub fn transactions_for_user(&self, name: &str) -> (r: Vec<Transaction>)
        ensures
            ({
                let kept = self.transactions@.filter(
                    |t: Transaction| t.src@ == name@ || t.dst@ == name@,
                );
                &&& r@.len() == kept.len()
                &&& forall|i: int| 0 <= i < kept.len() ==> tx_equal(#[trigger] r@[i], kept[i])
            }),
    {
        let n: usize = self.transactions.len();
        let mut r: Vec<Transaction> = Vec::new();
        let mut i: usize = 0;
        proof {
            reveal(Seq::filter);
        }
        while i < n
            invariant
                i <= n,
                n == self.transactions@.len(),
                ({
                    let kept = self.transactions@.subrange(0, i as int).filter(
                        |t: Transaction| t.src@ == name@ || t.dst@ == name@,
                    );
                    &&& r@.len() == kept.len()
                    &&& forall|j: int| 0 <= j < kept.len() ==> tx_equal(#[trigger] r@[j], kept[j])
                }),
            decreases n - i,
        {
            let t = &self.transactions[i];
            let keep = str_eq(t.src.as_str(), name) || str_eq(t.dst.as_str(), name);
            proof {
                reveal(Seq::filter);
                let pre = self.transactions@.subrange(0, i as int);
                let post = self.transactions@.subrange(0, i as int + 1);
                assert(post.drop_last() =~= pre);
                assert(post.last() == self.transactions@[i as int]);
            }
            if keep {
                let copy = clone_tx(t);
                r.push(copy);
                proof {
                    let kept2 = self.transactions@.subrange(0, i as int + 1).filter(
                        |t2: Transaction| t2.src@ == name@ || t2.dst@ == name@,
                    );
                    assert(kept2 == self.transactions@.subrange(0, i as int).filter(
                        |t2: Transaction| t2.src@ == name@ || t2.dst@ == name@,
                    ).push(self.transactions@[i as int]));
                    assert forall|j: int| 0 <= j < kept2.len() implies tx_equal(
                        #[trigger] r@[j],
                        kept2[j],
                    ) by {
                        if j < kept2.len() - 1 {
                            assert(tx_equal(r@[j], kept2[j]));
                        } else {
                            assert(r@[j] == copy);
                            assert(kept2[j] == self.transactions@[i as int]);
                        }
                    }
                }
            }
            i = i + 1;
        }
        proof {
            assert(self.transactions@.subrange(0, n as int) =~= self.transactions@);
        }
        r
    }
}

/// Copy of one ledger row: same content, the vector clock copied entry for
/// entry.
pub fn clone_tx(t: &Transaction) -> (r: Transaction)
    ensures
        tx_equal(r, *t),
        r.src == t.src,
        r.dst == t.dst,
{
    let vector: Vec<u64> = clone_u64_vec(&t.vector);
    Transaction {
        lamport: t.lamport,
        origin: t.origin,
        src: t.src.clone(),
        dst: t.dst.clone(),
        amount: t.amount,
        vector,
        refund_of: t.refund_of,
    }
}

} // verus!
