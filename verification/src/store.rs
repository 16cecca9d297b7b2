//! The subscription store: an atomic two-row write (subscriber + token)
//! inside one transaction.
//!
//! The store is modelled as the two logical tables. A `Transaction` buffers
//! the pending rows; nothing becomes visible in the store before `commit`,
//! and a transaction dropped without committing leaves the store exactly as
//! it was (implicit rollback). Each operation takes the storage engine's
//! answer for that step as a `fault` argument — `None` when the engine
//! performed the write, `Some(message)` when it failed — so the contracts
//! pin the outcome for every behaviour of the engine.

use vstd::prelude::*;
use vstd::string::*;

use crate::domain::NewSubscriber;
use crate::errors::{InfrastructureError, StoreTokenError};

verus! {

/// The unique identifier of a subscriber row: generated, opaque, never
/// reused.
#[derive(PartialEq, Eq, Structural, Clone, Copy, Debug)]
pub struct SubscriberId(pub u128);

/// The lifecycle status of a subscriber row.
#[derive(PartialEq, Eq, Structural, Clone, Copy, Debug)]
pub enum SubscriberStatus {
    PendingConfirmation,
    Confirmed,
}

/// One row of the subscriptions table.
#[derive(Debug)]
pub struct SubscriberRow {
    pub id: SubscriberId,
    pub email: String,
    pub name: String,
    pub subscribed_at: i64,
    pub status: SubscriberStatus,
}

/// One row of the subscription-tokens table, referencing exactly one
/// subscriber.
#[derive(Debug)]
pub struct TokenRow {
    pub subscription_token: String,
    pub subscriber_id: SubscriberId,
}

/// The committed contents of the two tables.
pub struct StorageModel {
    pub subscriptions: Vec<SubscriberRow>,
    pub subscription_tokens: Vec<TokenRow>,
}

impl StorageModel {
    /// A store with no rows.
    pub fn new() -> (r: StorageModel)
        ensures
            r.subscriptions@ =~= Seq::<SubscriberRow>::empty(),
            r.subscription_tokens@ =~= Seq::<TokenRow>::empty(),
    {
        StorageModel { subscriptions: Vec::new(), subscription_tokens: Vec::new() }
    }
}

/// An open transaction: rows written through it stay pending until commit.
pub struct Transaction {
    pending_subscriptions: Vec<SubscriberRow>,
    pending_tokens: Vec<TokenRow>,
}

impl Transaction {
    /// The subscriber rows this transaction would commit.
    pub closed spec fn pending_subscriptions(&self) -> Seq<SubscriberRow> {
        self.pending_subscriptions@
    }

    /// The token rows this transaction would commit.
    pub closed spec fn pending_tokens(&self) -> Seq<TokenRow> {
        self.pending_tokens@
    }
}

/// Relies on `uuid::Uuid::new_v4`: a freshly generated random identifier.
/// Nothing is assumed of its value.
#[verifier::external_body]
fn fresh_subscriber_id() -> (r: SubscriberId)
{
    SubscriberId(uuid::Uuid::new_v4().as_u128())
}

/// Relies on `chrono::Utc::now`: the current time as seconds since the
/// Unix epoch. Nothing is assumed of its value. The call aborts if the
/// system clock reads before the epoch — an environmental condition, like
/// entropy exhaustion, outside this library's scope.
#[verifier::external_body]
fn current_timestamp() -> (r: i64)
{
    chrono::Utc::now().timestamp()
}

/// Opens a transaction. `fault` is the storage engine's answer: on `None`
/// the transaction is open and empty; on `Some` the engine's message comes
/// back as an infrastructure error.
pub fn begin_transaction(fault: Option<String>) -> (r: Result<Transaction, InfrastructureError>)
    ensures
        match r {
            Ok(tx) => fault is None && tx.pending_subscriptions() =~= Seq::<
                SubscriberRow,
            >::empty() && tx.pending_tokens() =~= Seq::<TokenRow>::empty(),
            Err(e) => fault matches Some(m) && e.message == m,
        },
{
    match fault {
        None => Ok(Transaction { pending_subscriptions: Vec::new(), pending_tokens: Vec::new() }),
        Some(m) => Err(InfrastructureError { message: m }),
    }
}

/// Writes the subscriber row through the transaction: a fresh identifier,
/// the validated email and name, the current timestamp, and status
/// pending-confirmation. Never overwrites a row. On a storage fault the
/// transaction is unchanged.
pub fn insert_subscriber(
    transaction: &mut Transaction,
    new_subscriber: &NewSubscriber,
    fault: Option<String>,
) -> (r: Result<SubscriberId, InfrastructureError>)
    ensures
        match r {
            Ok(id) => {
                &&& fault is None
                &&& final(transaction).pending_subscriptions().len() == old(
                    transaction,
                ).pending_subscriptions().len() + 1
                &&& final(transaction).pending_subscriptions().drop_last() =~= old(
                    transaction,
                ).pending_subscriptions()
                &&& final(transaction).pending_subscriptions().last().id == id
                &&& final(transaction).pending_subscriptions().last().email@
                    == new_subscriber.email@
                &&& final(transaction).pending_subscriptions().last().name@ == new_subscriber.name@
                &&& final(transaction).pending_subscriptions().last().status
                    == SubscriberStatus::PendingConfirmation
                &&& final(transaction).pending_tokens() =~= old(transaction).pending_tokens()
            },
            Err(e) => fault matches Some(m) && e.message == m && *final(transaction) == *old(
                transaction,
            ),
        },
{
    match fault {
        None => {
            let id = fresh_subscriber_id();
            let row = SubscriberRow {
                id,
                email: String::from_str(new_subscriber.email.as_str()),
                name: String::from_str(new_subscriber.name.as_str()),
                subscribed_at: current_timestamp(),
                status: SubscriberStatus::PendingConfirmation,
            };
            transaction.pending_subscriptions.push(row);
            Ok(id)
        },
        Some(m) => Err(InfrastructureError { message: m }),
    }
}

/// Writes the token row referencing `subscriber_id` through the
/// transaction. A storage fault comes back wrapped as a `StoreTokenError`
/// and leaves the transaction unchanged.
pub fn store_token(
    transaction: &mut Transaction,
    subscriber_id: SubscriberId,
    subscription_token: &str,
    fault: Option<String>,
) -> (r: Result<(), StoreTokenError>)
    ensures
        match r {
            Ok(_) => {
                &&& fault is None
                &&& final(transaction).pending_tokens().len() == old(
                    transaction,
                ).pending_tokens().len() + 1
                &&& final(transaction).pending_tokens().drop_last() =~= old(
                    transaction,
                ).pending_tokens()
                &&& final(transaction).pending_tokens().last().subscription_token@
                    == subscription_token@
                &&& final(transaction).pending_tokens().last().subscriber_id == subscriber_id
                &&& final(transaction).pending_subscriptions() =~= old(
                    transaction,
                ).pending_subscriptions()
            },
            Err(e) => fault matches Some(m) && e.0.message == m && *final(transaction) == *old(
                transaction,
            ),
        },
{
    match fault {
        None => {
            let row = TokenRow {
                subscription_token: String::from_str(subscription_token),
                subscriber_id,
            };
            transaction.pending_tokens.push(row);
            Ok(())
        },
        Some(m) => Err(StoreTokenError(InfrastructureError { message: m })),
    }
}

/// Commits the transaction: on `None` every pending row becomes visible in
/// the store, in order; on a fault nothing does (the rollback is
/// effective) and the engine's message comes back.
pub fn commit(
    store: &mut StorageModel,
    transaction: Transaction,
    fault: Option<String>,
) -> (r: Result<(), InfrastructureError>)
    ensures
        match r {
            Ok(_) => {
                &&& fault is None
                &&& final(store).subscriptions@ =~= old(store).subscriptions@
                    + transaction.pending_subscriptions()
                &&& final(store).subscription_tokens@ =~= old(store).subscription_tokens@
                    + transaction.pending_tokens()
            },
            Err(e) => fault matches Some(m) && e.message == m && *final(store) == *old(store),
        },
{
    match fault {
        None => {
            let Transaction { mut pending_subscriptions, mut pending_tokens } = transaction;
            store.subscriptions.append(&mut pending_subscriptions);
            store.subscription_tokens.append(&mut pending_tokens);
            Ok(())
        },
        Some(m) => Err(InfrastructureError { message: m }),
    }
}

} // verus!
