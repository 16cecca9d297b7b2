//! The pipeline that runs one registration attempt:
//! validate the input, open a transaction, insert the subscriber, generate
//! and store a confirmation token, commit, and only then send the
//! confirmation email — mapping every failure into a typed outcome and
//! leaving no partial state visible on any early exit.
//!
//! The answers of the storage engine and of the email transport, one per
//! fallible step, are injected as `StorageFaults`, so the contract of
//! `subscribe` pins the outcome and the visible rows for every behaviour
//! of those collaborators.

use vstd::prelude::*;
use vstd::string::*;

use crate::domain::{valid_email, valid_subscriber_name, NewSubscriber, SubscriberEmail,
    SubscriberName};
use crate::email::{confirmation_link_spec, html_body_spec, send_confirmation_email,
    text_body_spec, EmailRequest};
use crate::errors::SubscribeError;
use crate::store::{begin_transaction, commit, insert_subscriber, store_token, StorageModel,
    SubscriberId, SubscriberStatus};
use crate::token::{all_alphanumeric, generate_subscription_token, TOKEN_LENGTH};

verus! {

/// The two string fields of a form submission, still untrusted.
pub struct FormData {
    pub email: String,
    pub name: String,
}

/// Both fields pass their parsers.
pub open spec fn input_valid(form: FormData) -> bool {
    valid_subscriber_name(form.name@) && valid_email(form.email@)
}

/// Parses both fields of a submission into a validated subscriber; the
/// name is checked first, and the first failing field's reason is
/// returned.
pub fn parse_subscriber(form: FormData) -> (r: Result<NewSubscriber, String>)
    ensures
        match r {
            Ok(ns) => input_valid(form) && ns.name@ == form.name@ && ns.email@ == form.email@,
            Err(e) => !input_valid(form) && if !valid_subscriber_name(form.name@) {
                e@ == form.name@ + " is not a valid subscriber name."@
            } else {
                e@ == form.email@ + " is not a valid subscriber email."@
            },
        },
{
    let name = match SubscriberName::parse(form.name) {
        Ok(n) => n,
        Err(e) => {
            return Err(e);
        },
    };
    let email = match SubscriberEmail::parse(form.email) {
        Ok(m) => m,
        Err(e) => {
            return Err(e);
        },
    };
    Ok(NewSubscriber { email, name })
}

/// The answers of the outside collaborators, one per fallible step:
/// `None` means the step succeeds, `Some(message)` that it fails with
/// that underlying diagnostic.
pub struct StorageFaults {
    pub begin: Option<String>,
    pub insert: Option<String>,
    pub store_token: Option<String>,
    pub commit: Option<String>,
    pub email: Option<String>,
}

impl StorageFaults {
    /// Every storage step (not necessarily the email send) succeeds.
    pub open spec fn storage_ok(&self) -> bool {
        self.begin is None && self.insert is None && self.store_token is None
            && self.commit is None
    }
}

/// What a successful registration attempt produced: the new row's
/// identifier, its confirmation token, and the email request that went
/// out.
#[derive(Debug)]
pub struct SubscriptionReceipt {
    pub subscriber_id: SubscriberId,
    pub token: String,
    pub email: EmailRequest,
}

/// The store gained exactly one subscriber row — pending confirmation,
/// with the given email and name — and exactly one token row referencing
/// it; everything else is untouched.
pub open spec fn storage_extended(
    old_store: StorageModel,
    new_store: StorageModel,
    id: SubscriberId,
    email: Seq<char>,
    name: Seq<char>,
    token: Seq<char>,
) -> bool {
    &&& new_store.subscriptions@.len() == old_store.subscriptions@.len() + 1
    &&& new_store.subscriptions@.drop_last() =~= old_store.subscriptions@
    &&& new_store.subscriptions@.last().id == id
    &&& new_store.subscriptions@.last().email@ == email
    &&& new_store.subscriptions@.last().name@ == name
    &&& new_store.subscriptions@.last().status == SubscriberStatus::PendingConfirmation
    &&& new_store.subscription_tokens@.len() == old_store.subscription_tokens@.len() + 1
    &&& new_store.subscription_tokens@.drop_last() =~= old_store.subscription_tokens@
    &&& new_store.subscription_tokens@.last().subscription_token@ == token
    &&& new_store.subscription_tokens@.last().subscriber_id == id
}

/// Runs one registration attempt against the store.
///
/// Invalid input is rejected before any transaction is opened; a storage
/// fault at any step before commit leaves the store exactly as it was
/// (the rollback is effective); on commit the two rows become visible
/// together; the email is attempted only after a successful commit, and
/// its failure is reported without undoing the commit.
pub fn subscribe(
    store: &mut StorageModel,
    form: FormData,
    base_url: &str,
    faults: StorageFaults,
) -> (r: Result<SubscriptionReceipt, SubscribeError>)
    ensures
        // A rejected name: no transaction is opened, nothing is written.
        !valid_subscriber_name(form.name@) ==> *final(store) == *old(store) && (
        r matches Err(SubscribeError::ValidationError(m)) && m@ == form.name@
            + " is not a valid subscriber name."@),
        // A rejected email, under a well-formed name: likewise.
        valid_subscriber_name(form.name@) && !valid_email(form.email@) ==> *final(store) == *old(store)
            && (r matches Err(SubscribeError::ValidationError(m)) && m@ == form.email@
            + " is not a valid subscriber email."@),
        // Failure to open the transaction.
        input_valid(form) ==> (faults.begin matches Some(cause) ==> *final(store) == *old(store)
            && (r matches Err(SubscribeError::UnexpectedError(chain, ctx)) && ctx@
            == "Failed to acquire a Postgres connection from the pool"@ && chain.deep_view() =~=
        seq![cause@])),
        // Failure at the subscriber insert: rollback, no row of either kind.
        input_valid(form) && faults.begin is None ==> (faults.insert matches Some(cause)
            ==> *final(store) == *old(store)
            && (r matches Err(SubscribeError::UnexpectedError(chain, ctx)) && ctx@
            == "Failed to insert new subscriber in the database."@ && chain.deep_view() =~= seq![
            cause@,
        ])),
        // Failure at the token store: rollback, the subscriber row is not
        // visible either; the token sub-kind heads the causal chain.
        input_valid(form) && faults.begin is None && faults.insert is None ==> (
        faults.store_token matches Some(cause) ==> *final(store) == *old(store) && (
        r matches Err(SubscribeError::UnexpectedError(chain, ctx)) && ctx@
            == "Failed to store confirmation token for a new subscriber."@ && chain.deep_view()
            =~= seq![
            "A database error occurred while trying to store the subscription token."@,
            cause@,
        ])),
        // Failure at commit: rollback.
        input_valid(form) && faults.begin is None && faults.insert is None && faults.store_token
            is None ==> (faults.commit matches Some(cause) ==> *final(store) == *old(store) && (
        r matches Err(SubscribeError::UnexpectedError(chain, ctx)) && ctx@
            == "Failed to commit SQL transaction to store a new subscriber."@ && chain.deep_view()
            =~= seq![cause@])),
        // Every storage step succeeded: exactly one subscriber row, pending
        // confirmation, and exactly one token row referencing it are
        // committed — whatever the email transport then does.
        input_valid(form) && faults.storage_ok() ==> exists|id: SubscriberId, token: Seq<char>|
            #[trigger] storage_extended(*old(store), *final(store), id, form.email@, form.name@, token)
                && token.len() == TOKEN_LENGTH && all_alphanumeric(token),
        // The email send fails only after the commit; the committed rows
        // stay, and the failure is reported with its cause.
        input_valid(form) && faults.storage_ok() ==> (faults.email matches Some(cause) ==> (
        r matches Err(SubscribeError::UnexpectedError(chain, ctx)) && ctx@
            == "Failed to send a confirmation email."@ && chain.deep_view() =~= seq![cause@])),
        // Full success: the receipt names the committed rows and the email
        // request that went out, both bodies carrying the confirmation link.
        input_valid(form) && faults.storage_ok() && faults.email is None ==> (
        r matches Ok(receipt) && {
            &&& storage_extended(
                *old(store),
                *final(store),
                receipt.subscriber_id,
                form.email@,
                form.name@,
                receipt.token@,
            )
            &&& receipt.token@.len() == TOKEN_LENGTH
            &&& all_alphanumeric(receipt.token@)
            &&& receipt.email.recipient@ == form.email@
            &&& receipt.email.subject@ == "Welcome!"@
            &&& receipt.email.html_body@ == html_body_spec(
                confirmation_link_spec(base_url@, receipt.token@),
            )
            &&& receipt.email.text_body@ == text_body_spec(
                confirmation_link_spec(base_url@, receipt.token@),
            )
        }),
        // The store changes only when every storage step succeeded on valid
        // input: no email attempt can precede the commit.
        !(input_valid(form) && faults.storage_ok()) ==> *final(store) == *old(store),
{
    let StorageFaults {
        begin: f_begin,
        insert: f_insert,
        store_token: f_store,
        commit: f_commit,
        email: f_email,
    } = faults;

    let new_subscriber = match parse_subscriber(form) {
        Ok(ns) => ns,
        Err(e) => {
            return Err(SubscribeError::ValidationError(e));
        },
    };

    let mut transaction = match begin_transaction(f_begin) {
        Ok(tx) => tx,
        Err(e) => {
            return Err(
                SubscribeError::from_infrastructure(
                    e,
                    String::from_str("Failed to acquire a Postgres connection from the pool"),
                ),
            );
        },
    };

    let subscriber_id = match insert_subscriber(&mut transaction, &new_subscriber, f_insert) {
        Ok(id) => id,
        Err(e) => {
            return Err(
                SubscribeError::from_infrastructure(
                    e,
                    String::from_str("Failed to insert new subscriber in the database."),
                ),
            );
        },
    };

    let subscription_token = generate_subscription_token();

    match store_token(&mut transaction, subscriber_id, subscription_token.as_str(), f_store) {
        Ok(_) => (),
        Err(e) => {
            return Err(
                SubscribeError::from_store_token(
                    e,
                    String::from_str("Failed to store confirmation token for a new subscriber."),
                ),
            );
        },
    }

    match commit(store, transaction, f_commit) {
        Ok(_) => (),
        Err(e) => {
            return Err(
                SubscribeError::from_infrastructure(
                    e,
                    String::from_str("Failed to commit SQL transaction to store a new subscriber."),
                ),
            );
        },
    }

    proof {
        assert(storage_extended(
            *old(store),
            *store,
            subscriber_id,
            new_subscriber.email@,
            new_subscriber.name@,
            subscription_token@,
        ));
    }

    let email = match send_confirmation_email(
        &new_subscriber,
        base_url,
        subscription_token.as_str(),
        f_email,
    ) {
        Ok(req) => req,
        Err(e) => {
            return Err(
                SubscribeError::from_email_delivery(
                    e,
                    String::from_str("Failed to send a confirmation email."),
                ),
            );
        },
    };

    Ok(SubscriptionReceipt { subscriber_id, token: subscription_token, email })
}

} // verus!
