//! The transaction table: a capacity-bounded slab mapping small stable
//! integer tokens to live transactions.
//!
//! Insertion allocates the lowest free token; removal frees the token for
//! reuse.  Tokens 0 and 1 are reserved for the listening sockets
//! themselves, so transactions start at token 2.

use vstd::prelude::*;

use crate::transaction::Transaction;

verus! {

/// Token of the TCP listening socket (a stub transport, never a
/// transaction).
pub const TCP_SERVER_TOKEN: usize = 0;

/// Token of the UDP listening socket that all queries and replies share.
pub const UDP_SERVER_TOKEN: usize = 1;

/// Lowest token a transaction can be assigned; everything below is
/// reserved for the listening sockets.
pub const FIRST_TOKEN: usize = 2;

/// Hard bound on concurrently live transactions.
pub const MAX_TRANSACTIONS: usize = 65534;

/// Identifier-indexed store of in-flight transactions with token reuse.
///
/// Slot `i` of the backing vector holds the transaction with token
/// `i + FIRST_TOKEN`, or nothing while that token is free.  The vector
/// only ever grows up to the configured capacity; freed slots are reused
/// (lowest token first) before the vector grows.
pub struct TransactionTable {
    slots: Vec<Option<Transaction>>,
    capacity: usize,
}

impl TransactionTable {
    /// The configured maximum number of simultaneously live transactions.
    pub closed spec fn spec_capacity(self) -> int {
        self.capacity as int
    }

    /// Whether `token` currently addresses a live transaction.
    pub closed spec fn live(self, token: int) -> bool {
        &&& FIRST_TOKEN <= token < FIRST_TOKEN + self.slots@.len()
        &&& self.slots@[token - FIRST_TOKEN] is Some
    }

    /// The live transaction addressed by `token`.
    pub closed spec fn tx(self, token: int) -> Transaction
        recommends
            self.live(token),
    {
        self.slots@[token - FIRST_TOKEN]->0
    }

    /// No token is free: every slot is occupied and the backing vector
    /// has reached the configured capacity.
    pub closed spec fn is_full(self) -> bool {
        &&& self.slots@.len() == self.capacity
        &&& forall|i: int| 0 <= i < self.slots@.len() ==> #[trigger] self.slots@[i] is Some
    }

    /// How many of the first `n` slots are occupied.
    pub closed spec fn num_live_upto(s: Seq<Option<Transaction>>, n: int) -> int
        decreases n,
    {
        if n <= 0 {
            0
        } else {
            Self::num_live_upto(s, n - 1) + if s[n - 1] is Some {
                1int
            } else {
                0int
            }
        }
    }

    /// How many transactions are live: the number of occupied slots.
    pub closed spec fn spec_count(self) -> int {
        Self::num_live_upto(self.slots@, self.slots@.len() as int)
    }

    /// Structural invariant: the table respects its capacity, and every
    /// stored transaction is well formed and carries the token of the
    /// slot that holds it.
    pub closed spec fn wf(self) -> bool {
        &&& self.capacity <= MAX_TRANSACTIONS
        &&& self.slots@.len() <= self.capacity
        &&& forall|i: int|
            0 <= i < self.slots@.len() && #[trigger] self.slots@[i] is Some ==> {
                &&& self.slots@[i]->0.token == i + FIRST_TOKEN
                &&& self.slots@[i]->0.wf()
            }
    }

    /// A live token is in the assignable range, and its transaction is
    /// well formed and carries that very token.
    pub proof fn lemma_live(self, token: int)
        requires
            self.wf(),
            self.live(token),
        ensures
            FIRST_TOKEN <= token < FIRST_TOKEN + self.spec_capacity(),
            self.tx(token).token == token,
            self.tx(token).wf(),
    {
    }

    /// Token uniqueness: no two simultaneously live transactions ever
    /// hold the same token.
    pub proof fn lemma_token_uniqueness(self)
        requires
            self.wf(),
        ensures
            forall|t1: int, t2: int|
                self.live(t1) && self.live(t2) && t1 != t2 ==> #[trigger] self.tx(t1).token
                    != #[trigger] self.tx(t2).token,
    {
        assert forall|t1: int, t2: int|
            self.live(t1) && self.live(t2) && t1 != t2 implies #[trigger] self.tx(t1).token
            != #[trigger] self.tx(t2).token by {
            self.lemma_live(t1);
            self.lemma_live(t2);
        }
    }

    /// An empty table with the given capacity.
    pub fn new(capacity: usize) -> (t: TransactionTable)
        requires
            capacity <= MAX_TRANSACTIONS,
        ensures
            t.wf(),
            t.spec_capacity() == capacity,
            forall|tok: int| !t.live(tok),
            !t.is_full() || capacity == 0,
    {
        TransactionTable { slots: Vec::new(), capacity }
    }

    /// Whether `token` addresses a live transaction.
    pub fn contains(&self, token: usize) -> (r: bool)
        ensures
            r == self.live(token as int),
    {
        token >= FIRST_TOKEN && token - FIRST_TOKEN < self.slots.len() && self.slots[token
            - FIRST_TOKEN].is_some()
    }

    /// How many transactions are currently live.
    pub fn count(&self) -> (n: usize)
        requires
            self.wf(),
        ensures
            n == self.spec_count(),
            n <= self.spec_capacity(),
    {
        let mut n: usize = 0;
        let mut i: usize = 0;
        while i < self.slots.len()
            invariant
                self.wf(),
                i <= self.slots@.len(),
                n == Self::num_live_upto(self.slots@, i as int),
                n <= i,
            decreases self.slots@.len() - i,
        {
            if self.slots[i].is_some() {
                n += 1;
            }
            i += 1;
        }
        n
    }

    /// Occupied slots among the first `n` never outnumber `n`.
    proof fn lemma_num_live_upto_bound(s: Seq<Option<Transaction>>, n: int)
        requires
            0 <= n <= s.len(),
        ensures
            Self::num_live_upto(s, n) <= n,
        decreases n,
    {
        if n > 0 {
            Self::lemma_num_live_upto_bound(s, n - 1);
        }
    }

    /// The count of the first `n` slots only reads those slots.
    proof fn lemma_num_live_upto_agree(
        s: Seq<Option<Transaction>>,
        t: Seq<Option<Transaction>>,
        n: int,
    )
        requires
            0 <= n <= s.len(),
            n <= t.len(),
            forall|j: int| 0 <= j < n ==> s[j] == t[j],
        ensures
            Self::num_live_upto(s, n) == Self::num_live_upto(t, n),
        decreases n,
    {
        if n > 0 {
            Self::lemma_num_live_upto_agree(s, t, n - 1);
        }
    }

    /// Writing slot `i` changes the occupied count by exactly the
    /// difference the one slot makes.
    proof fn lemma_num_live_upto_update(
        s: Seq<Option<Transaction>>,
        i: int,
        v: Option<Transaction>,
        n: int,
    )
        requires
            0 <= i < n <= s.len(),
        ensures
            Self::num_live_upto(s.update(i, v), n) == Self::num_live_upto(s, n) - (
            if s[i] is Some {
                1int
            } else {
                0int
            }) + (
            if v is Some {
                1int
            } else {
                0int
            }),
        decreases n,
    {
        if i < n - 1 {
            Self::lemma_num_live_upto_update(s, i, v, n - 1);
        } else {
            Self::lemma_num_live_upto_agree(s.update(i, v), s, n - 1);
        }
    }

    /// Slots past `n` do not matter to the count of the first `n`.
    proof fn lemma_num_live_upto_push(s: Seq<Option<Transaction>>, v: Option<Transaction>, n: int)
        requires
            0 <= n <= s.len(),
        ensures
            Self::num_live_upto(s.push(v), n) == Self::num_live_upto(s, n),
    {
        Self::lemma_num_live_upto_agree(s.push(v), s, n);
    }

    /// When every one of the first `n` slots is occupied the count says
    /// so, and the other way round.
    proof fn lemma_num_live_upto_all(s: Seq<Option<Transaction>>, n: int)
        requires
            0 <= n <= s.len(),
        ensures
            Self::num_live_upto(s, n) == n <==> (forall|j: int|
                0 <= j < n ==> #[trigger] s[j] is Some),
        decreases n,
    {
        if n > 0 {
            Self::lemma_num_live_upto_all(s, n - 1);
            Self::lemma_num_live_upto_bound(s, n - 1);
        }
    }

    /// The table is full exactly when capacity-many transactions are
    /// live.
    pub proof fn lemma_full_iff_count(self)
        requires
            self.wf(),
        ensures
            self.is_full() <==> self.spec_count() == self.spec_capacity(),
    {
        let s = self.slots@;
        let n = s.len() as int;
        Self::lemma_num_live_upto_all(s, n);
        Self::lemma_num_live_upto_bound(s, n);
    }

    /// Insert a transaction under the lowest free token, or fail
    /// explicitly when every token is taken, leaving the table untouched.
    ///
    /// The stored transaction is `tx` with its `token` field set to the
    /// allocated token.
    pub fn insert(&mut self, tx: Transaction) -> (r: Option<usize>)
        requires
            old(self).wf(),
            tx.wf(),
        ensures
            final(self).wf(),
            final(self).spec_capacity() == old(self).spec_capacity(),
            r is Some <==> !old(self).is_full(),
            r is Some <==> old(self).spec_count() < old(self).spec_capacity(),
            r is None ==> *final(self) == *old(self),
            r matches Some(tok) ==> inserted(*old(self), *final(self), tok as int, tx),
            r is Some ==> final(self).spec_count() == old(self).spec_count() + 1,
    {
        let n = self.slots.len();
        let mut i: usize = 0;
        while i < n
            invariant
                self.wf(),
                tx.wf(),
                *self == *old(self),
                n == self.slots@.len(),
                i <= n,
                forall|j: int| 0 <= j < i ==> #[trigger] self.slots@[j] is Some,
            decreases n - i,
        {
            if self.slots[i].is_none() {
                let token = i + FIRST_TOKEN;
                let mut stored = tx;
                stored.token = token;
                self.slots[i] = Some(stored);
                proof {
                    assert(self.slots@ == old(self).slots@.update(i as int, Some(stored)));
                    assert forall|j: int|
                        0 <= j < self.slots@.len() && #[trigger] self.slots@[j] is Some implies {
                        &&& self.slots@[j]->0.token == j + FIRST_TOKEN
                        &&& self.slots@[j]->0.wf()
                    } by {
                        if j == i {
                            assert(self.slots@[j] == Some(stored));
                            assert(stored.token == i + FIRST_TOKEN);
                            assert(stored.wf());
                        } else {
                            assert(self.slots@[j] == old(self).slots@[j]);
                        }
                    }
                    assert(!old(self).is_full());
                    assert(inserted(*old(self), *self, token as int, tx));
                    Self::lemma_num_live_upto_update(
                        old(self).slots@,
                        i as int,
                        Some(stored),
                        old(self).slots@.len() as int,
                    );
                    old(self).lemma_full_iff_count();
                    Self::lemma_num_live_upto_bound(
                        old(self).slots@,
                        old(self).slots@.len() as int,
                    );
                }
                return Some(token);
            }
            i += 1;
        }
        // Every existing slot is occupied; grow if the capacity allows.
        if n < self.capacity {
            let token = n + FIRST_TOKEN;
            let mut stored = tx;
            stored.token = token;
            self.slots.push(Some(stored));
            proof {
                assert(!old(self).is_full());
                assert(self.live(token as int));
                assert(inserted(*old(self), *self, token as int, tx));
                Self::lemma_num_live_upto_push(
                    old(self).slots@,
                    Some(stored),
                    old(self).slots@.len() as int,
                );
                assert(self.spec_count() == Self::num_live_upto(
                    self.slots@,
                    old(self).slots@.len() as int,
                ) + 1);
                old(self).lemma_full_iff_count();
                Self::lemma_num_live_upto_bound(old(self).slots@, old(self).slots@.len() as int);
            }
            return Some(token);
        }
        proof {
            assert(old(self).is_full());
            old(self).lemma_full_iff_count();
        }
        None
    }

    /// Remove and return the transaction addressed by `token`, freeing
    /// the token for reuse.  A token that addresses nothing (never
    /// assigned, or already completed and removed) leaves the table
    /// untouched.
    pub fn remove(&mut self, token: usize) -> (r: Option<Transaction>)
        requires
            old(self).wf(),
        ensures
            final(self).wf(),
            final(self).spec_capacity() == old(self).spec_capacity(),
            r is Some <==> old(self).live(token as int),
            r is None ==> *final(self) == *old(self),
            r matches Some(t) ==> {
                &&& t == old(self).tx(token as int)
                &&& !final(self).live(token as int)
                &&& !final(self).is_full()
                &&& unchanged_except(*old(self), *final(self), token as int)
                &&& final(self).spec_count() == old(self).spec_count() - 1
            },
            !final(self).live(token as int),
    {
        if token < FIRST_TOKEN {
            return None;
        }
        let idx = token - FIRST_TOKEN;
        if idx >= self.slots.len() {
            return None;
        }
        if self.slots[idx].is_none() {
            return None;
        }
        let got = self.slots.remove(idx);
        self.slots.insert(idx, None);
        proof {
            assert(self.slots@ =~= old(self).slots@.update(idx as int, None));
            Self::lemma_num_live_upto_update(
                old(self).slots@,
                idx as int,
                None,
                old(self).slots@.len() as int,
            );
        }
        got
    }
}

/// Everything but `token` reads the same in `post` as in `pre`: same
/// capacity, same set of other live tokens, same transactions under them.
pub open spec fn unchanged_except(pre: TransactionTable, post: TransactionTable, token: int) -> bool {
    &&& post.spec_capacity() == pre.spec_capacity()
    &&& forall|t: int| t != token ==> #[trigger] post.live(t) == pre.live(t)
    &&& forall|t: int| t != token && pre.live(t) ==> #[trigger] post.tx(t) == pre.tx(t)
}

/// `post` is `pre` with `tx` newly stored under `token`, the lowest token
/// that was free in `pre`.
pub open spec fn inserted(
    pre: TransactionTable,
    post: TransactionTable,
    token: int,
    tx: Transaction,
) -> bool {
    &&& FIRST_TOKEN <= token < FIRST_TOKEN + pre.spec_capacity()
    &&& !pre.live(token)
    &&& forall|t: int| FIRST_TOKEN <= t < token ==> #[trigger] pre.live(t)
    &&& post.live(token)
    &&& post.tx(token) == (Transaction { token: token as usize, ..tx })
    &&& unchanged_except(pre, post, token)
}

} // verus!
