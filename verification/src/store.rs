//! A model of the persistence collaborator: the rows the registration writes,
//! a store of committed rows, and a transaction that holds pending writes
//! until they are committed atomically or dropped. Failure of each storage
//! step is part of the model, injected through the store's fault flags.
use vstd::prelude::*;

verus! {

/// The status a subscriber row carries until the (out-of-scope) confirmation
/// step changes it.
pub enum SubscriberStatus {
    PendingConfirmation,
}

/// One subscriber row, as projected into the store.
pub struct SubscriberRow {
    pub id: u128,
    pub email: String,
    pub name: String,
    pub subscribed_at_millis: i64,
    pub status: SubscriberStatus,
}

/// One subscription-token row, bound to its subscriber by id.
pub struct TokenRow {
    pub subscription_token: String,
    pub subscriber_id: u128,
}

/// Which storage steps fail; models pool exhaustion and statement or commit
/// failures of the collaborator.
pub struct StorageFaults {
    pub fail_begin: bool,
    pub fail_insert_subscriber: bool,
    pub fail_store_token: bool,
    pub fail_commit: bool,
}

impl StorageFaults {
    /// A collaborator with no failures.
    pub fn none() -> (r: StorageFaults)
        ensures
            !r.fail_begin,
            !r.fail_insert_subscriber,
            !r.fail_store_token,
            !r.fail_commit,
    {
        StorageFaults {
            fail_begin: false,
            fail_insert_subscriber: false,
            fail_store_token: false,
            fail_commit: false,
        }
    }
}

/// The committed, observable state of the persistence collaborator.
pub struct Store {
    pub subscribers: Vec<SubscriberRow>,
    pub tokens: Vec<TokenRow>,
    pub faults: StorageFaults,
}

/// An open transaction: pending writes invisible to every other reader until
/// commit, and the fault behaviour the store handed it.
pub struct Transaction {
    pub pending_subscribers: Vec<SubscriberRow>,
    pub pending_tokens: Vec<TokenRow>,
    pub fail_insert_subscriber: bool,
    pub fail_store_token: bool,
    pub fail_commit: bool,
}

/// The two transactions differ at most in their pending writes.
pub open spec fn txn_same_faults(a: Transaction, b: Transaction) -> bool {
    &&& a.fail_insert_subscriber == b.fail_insert_subscriber
    &&& a.fail_store_token == b.fail_store_token
    &&& a.fail_commit == b.fail_commit
}

/// Nothing observable in the store has changed.
pub open spec fn store_unchanged(pre: Store, post: Store) -> bool {
    &&& post.subscribers@ == pre.subscribers@
    &&& post.tokens@ == pre.tokens@
}

/// The token row at position `i` is bound to some committed subscriber row.
pub open spec fn token_bound(s: Store, i: int) -> bool {
    exists|j: int|
        0 <= j < s.subscribers@.len() && s.subscribers@[j].id == s.tokens@[i].subscriber_id
}

/// Every token row is bound to some committed subscriber row: the
/// cross-entity invariant of the store.
pub open spec fn store_wf(s: Store) -> bool {
    forall|i: int| 0 <= i < s.tokens@.len() ==> #[trigger] token_bound(s, i)
}

/// A store whose observable rows did not change keeps the cross-entity
/// invariant.
pub proof fn lemma_unchanged_preserves_wf(pre: Store, post: Store)
    requires
        store_wf(pre),
        store_unchanged(pre, post),
    ensures
        store_wf(post),
{
    assert forall|i: int| 0 <= i < post.tokens@.len() implies #[trigger] token_bound(
        post,
        i,
    ) by {
        assert(token_bound(pre, i));
        let j = choose|j: int|
            0 <= j < pre.subscribers@.len() && pre.subscribers@[j].id
                == pre.tokens@[i].subscriber_id;
        assert(post.subscribers@[j].id == post.tokens@[i].subscriber_id);
    }
}

impl Store {
    /// An empty store over a collaborator with the given fault behaviour.
    pub fn new(faults: StorageFaults) -> (r: Store)
        ensures
            r.subscribers@ =~= Seq::<SubscriberRow>::empty(),
            r.tokens@ =~= Seq::<TokenRow>::empty(),
            r.faults == faults,
    {
        Store { subscribers: Vec::new(), tokens: Vec::new(), faults }
    }

    /// Opens a transaction with no pending writes, or fails with the pool
    /// error exactly when acquiring a connection fails.
    pub fn begin(&self) -> (r: Result<Transaction, String>)
        ensures
            match r {
                Ok(t) => !self.faults.fail_begin && t.pending_subscribers@ =~= Seq::<
                    SubscriberRow,
                >::empty() && t.pending_tokens@ =~= Seq::<TokenRow>::empty()
                    && t.fail_insert_subscriber == self.faults.fail_insert_subscriber
                    && t.fail_store_token == self.faults.fail_store_token && t.fail_commit
                    == self.faults.fail_commit,
                Err(m) => self.faults.fail_begin && m@
                    == "no connection available from the pool"@,
            },
    {
        if self.faults.fail_begin {
            Err(String::from_str("no connection available from the pool"))
        } else {
            Ok(
                Transaction {
                    pending_subscribers: Vec::new(),
                    pending_tokens: Vec::new(),
                    fail_insert_subscriber: self.faults.fail_insert_subscriber,
                    fail_store_token: self.faults.fail_store_token,
                    fail_commit: self.faults.fail_commit,
                },
            )
        }
    }
}

impl Transaction {
    /// Commits the pending writes: both row sets become visible atomically,
    /// or, exactly when the commit step fails, neither does and the
    /// transaction is lost.
    pub fn commit(self, store: &mut Store) -> (r: Result<(), String>)
        ensures
            final(store).faults == old(store).faults,
            match r {
                Ok(()) => !self.fail_commit && final(store).subscribers@ == old(
                    store,
                ).subscribers@ + self.pending_subscribers@ && final(store).tokens@ == old(
                    store,
                ).tokens@ + self.pending_tokens@,
                Err(m) => self.fail_commit && store_unchanged(*old(store), *final(store)) && m@
                    == "could not commit the transaction"@,
            },
    {
        if self.fail_commit {
            return Err(String::from_str("could not commit the transaction"));
        }
        let Transaction {
            pending_subscribers: mut ps,
            pending_tokens: mut pt,
            fail_insert_subscriber: _,
            fail_store_token: _,
            fail_commit: _,
        } = self;
        store.subscribers.append(&mut ps);
        store.tokens.append(&mut pt);
        Ok(())
    }
}

} // verus!
