//! Model of the persistence gateway: the two related tables and the
//! transaction the subscription workflow writes them through.
//!
//! The real service keeps these tables in a relational store; the workflow's
//! transactional logic is verified against this model, and the surrounding
//! binary replays the same steps against the real store.

use vstd::prelude::*;

verus! {

/// Lifecycle state of a subscription row.
#[derive(Debug, Clone, Copy, PartialEq, Eq, Structural)]
pub enum SubscriptionStatus {
    PendingConfirmation,
    Confirmed,
}

/// One row of the `subscriptions` table.
#[derive(Debug)]
pub struct SubscriptionRow {
    pub id: u128,
    pub email: String,
    pub name: String,
    pub subscribed_at: i64,
    pub status: SubscriptionStatus,
}

/// One row of the `subscription_tokens` table.
#[derive(Debug)]
pub struct TokenRow {
    pub subscription_token: String,
    pub subscriber_id: u128,
}

/// An open transaction: rows staged against the durable state, visible to
/// nobody until committed, gone without trace when dropped.
pub struct StoreTransaction {
    pub staged_subscriptions: Vec<SubscriptionRow>,
    pub staged_tokens: Vec<TokenRow>,
}

/// The durable state of the store.
pub struct StoreModel {
    pub subscriptions: Vec<SubscriptionRow>,
    pub tokens: Vec<TokenRow>,
}

impl StoreModel {
    /// A store with both tables empty.
    pub fn new() -> (r: StoreModel)
        ensures
            r.subscriptions@ == Seq::<SubscriptionRow>::empty(),
            r.tokens@ == Seq::<TokenRow>::empty(),
    {
        StoreModel { subscriptions: Vec::new(), tokens: Vec::new() }
    }

    /// Open a transaction. `outcome` is the connection pool's answer: `None`
    /// means a connection was acquired, `Some(cause)` that acquisition failed
    /// with that cause. Nothing durable changes either way.
    pub fn begin(&self, outcome: &Option<String>) -> (r: Result<StoreTransaction, String>)
        ensures
            r is Ok <==> outcome is None,
            r matches Ok(t) ==> t.staged_subscriptions@ == Seq::<SubscriptionRow>::empty()
                && t.staged_tokens@ == Seq::<TokenRow>::empty(),
            r matches Err(c) ==> outcome matches Some(cause) && c@ == cause@,
    {
        match outcome {
            None => Ok(
                StoreTransaction { staged_subscriptions: Vec::new(), staged_tokens: Vec::new() },
            ),
            Some(cause) => Err(cause.clone()),
        }
    }

    /// Commit a transaction. `outcome` is the store's answer: on `None` every
    /// staged row of both tables becomes durable at once; on `Some(cause)`
    /// the commit fails, the staged rows are discarded, and the durable state
    /// is exactly what it was — the two writes land together or not at all.
    pub fn commit(&mut self, transaction: StoreTransaction, outcome: &Option<String>) -> (r:
        Result<(), String>)
        ensures
            r is Ok <==> outcome is None,
            outcome is None ==> final(self).subscriptions@ == old(self).subscriptions@
                + transaction.staged_subscriptions@ && final(self).tokens@ == old(self).tokens@
                + transaction.staged_tokens@,
            outcome is Some ==> *final(self) == *old(self),
            r matches Err(c) ==> outcome matches Some(cause) && c@ == cause@,
    {
        match outcome {
            None => {
                let mut transaction = transaction;
                self.subscriptions.append(&mut transaction.staged_subscriptions);
                self.tokens.append(&mut transaction.staged_tokens);
                Ok(())
            },
            Some(cause) => Err(cause.clone()),
        }
    }
}

} // verus!
