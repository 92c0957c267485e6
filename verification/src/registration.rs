//! The registration workflow: validate the submission, persist the
//! subscriber row and its token row in one atomic unit of work, and only
//! after the commit attempt the confirmation email. Every failure
//! short-circuits the remaining steps and surfaces as its own error kind.
use crate::domain::{FormData, NewSubscriber, is_valid_email, is_valid_name};
use crate::email::{EmailClient, EmailRequest, email_unchanged};
use crate::errors::{StoreTokenError, SubscribeError};
use crate::store::{
    lemma_unchanged_preserves_wf, Store, SubscriberRow, SubscriberStatus, Transaction,
    store_unchanged, store_wf, token_bound, txn_same_faults, TokenRow,
};
use crate::token::{generate_subscription_token, is_token};
use vstd::prelude::*;

verus! {

/// Relies on `uuid::Uuid::new_v4`: a freshly drawn random identifier.
/// Nothing is assumed of the value.
#[verifier::external_body]
fn new_subscriber_id() -> (id: u128)
{
    uuid::Uuid::new_v4().as_u128()
}

/// Relies on `chrono::Utc::now`: the current time as milliseconds since the
/// Unix epoch. Nothing is assumed of the value.
#[verifier::external_body]
fn now_timestamp_millis() -> (t: i64)
{
    chrono::Utc::now().timestamp_millis()
}

/// Saving new subscriber details in the database: appends one pending row
/// carrying the validated email and name, a fresh identifier, the capture
/// time and the pending status, or fails exactly when the insert step fails,
/// leaving the transaction as it was.
pub fn insert_subscriber(transaction: &mut Transaction, new_subscriber: &NewSubscriber) -> (r:
    Result<u128, String>)
    ensures
        txn_same_faults(*old(transaction), *final(transaction)),
        final(transaction).pending_tokens@ == old(transaction).pending_tokens@,
        match r {
            Ok(id) => !old(transaction).fail_insert_subscriber && ({
                let row = final(transaction).pending_subscribers@.last();
                &&& final(transaction).pending_subscribers@ == old(
                    transaction
                ).pending_subscribers@.push(row)
                &&& row.id == id
                &&& row.email@ == new_subscriber.email@
                &&& row.name@ == new_subscriber.name@
                &&& row.status is PendingConfirmation
            }),
            Err(m) => old(transaction).fail_insert_subscriber && final(
                transaction
            ).pending_subscribers@ == old(transaction).pending_subscribers@ && m@
                == "database error while inserting the subscriber"@,
        },
{
    if transaction.fail_insert_subscriber {
        return Err(String::from_str("database error while inserting the subscriber"));
    }
    let subscriber_id = new_subscriber_id();
    let row = SubscriberRow {
        id: subscriber_id,
        email: String::from_str(new_subscriber.email.as_ref()),
        name: String::from_str(new_subscriber.name.as_ref()),
        subscribed_at_millis: now_timestamp_millis(),
        status: SubscriberStatus::PendingConfirmation,
    };
    transaction.pending_subscribers.push(row);
    Ok(subscriber_id)
}

/// Store subscription token in the database: appends one pending token row
/// bound to the given subscriber, or fails exactly when the token-insert step
/// fails, wrapping the storage error as the cause and leaving the transaction
/// as it was.
pub fn store_token(
    transaction: &mut Transaction,
    subscriber_id: u128,
    subscription_token: &str,
) -> (r: Result<(), StoreTokenError>)
    ensures
        txn_same_faults(*old(transaction), *final(transaction)),
        final(transaction).pending_subscribers@ == old(transaction).pending_subscribers@,
        match r {
            Ok(()) => !old(transaction).fail_store_token && ({
                let row = final(transaction).pending_tokens@.last();
                &&& final(transaction).pending_tokens@ == old(transaction).pending_tokens@.push(
                    row,
                )
                &&& row.subscription_token@ == subscription_token@
                &&& row.subscriber_id == subscriber_id
            }),
            Err(e) => old(transaction).fail_store_token && final(transaction).pending_tokens@
                == old(transaction).pending_tokens@ && e.cause@
                == "database error while storing the token"@,
        },
{
    if transaction.fail_store_token {
        return Err(
            StoreTokenError { cause: String::from_str("database error while storing the token") },
        );
    }
    let row = TokenRow {
        subscription_token: String::from_str(subscription_token),
        subscriber_id,
    };
    transaction.pending_tokens.push(row);
    Ok(())
}

/// Exactly one registration was committed on top of `pre`: one subscriber
/// row carrying the given email and name with status pending, and one token
/// row bound to it by id holding a well-formed token; nothing else changed.
pub open spec fn registration_committed(
    pre: Store,
    post: Store,
    email: Seq<char>,
    name: Seq<char>,
) -> bool {
    let row = post.subscribers@.last();
    let tok = post.tokens@.last();
    &&& post.subscribers@ == pre.subscribers@.push(row)
    &&& post.tokens@ == pre.tokens@.push(tok)
    &&& row.email@ == email
    &&& row.name@ == name
    &&& row.status is PendingConfirmation
    &&& tok.subscriber_id == row.id
    &&& is_token(tok.subscription_token@)
}

/// The confirmation link: the base URL, the fixed confirmation path, and the
/// token as a query parameter.
pub open spec fn spec_confirmation_link(base_url: Seq<char>, token: Seq<char>) -> Seq<char> {
    base_url + "/subscriptions/confirm?subscription_token="@ + token
}

/// The HTML body of the confirmation email around the given link.
pub open spec fn spec_html_body(link: Seq<char>) -> Seq<char> {
    "Welcome to our newsletter!<br />Click <a href=\""@ + link
        + "\">here</a> to confirm your subscription."@
}

/// The plain-text body of the confirmation email around the given link.
pub open spec fn spec_text_body(link: Seq<char>) -> Seq<char> {
    "Welcome to our newsletter!\nVisit "@ + link + " to confirm your subscription."@
}

/// Exactly one confirmation email was delivered on top of `pre`: addressed
/// to the subscriber, with the fixed subject, and both bodies built around
/// the confirmation link for the given token.
pub open spec fn confirmation_email_sent(
    pre: EmailClient,
    post: EmailClient,
    email: Seq<char>,
    base_url: Seq<char>,
    token: Seq<char>,
) -> bool {
    let req = post.sent@.last();
    &&& post.sent@ == pre.sent@.push(req)
    &&& req.recipient@ == email
    &&& req.subject@ == "Welcome!"@
    &&& req.html_body@ == spec_html_body(spec_confirmation_link(base_url, token))
    &&& req.text_body@ == spec_text_body(spec_confirmation_link(base_url, token))
}

/// Builds the confirmation email for a new subscriber: the confirmation link
/// from the base URL and the token, and the HTML and plain-text bodies
/// around it.
pub fn build_confirmation_email(
    new_subscriber: &NewSubscriber,
    base_url: &str,
    subscription_token: &str,
) -> (req: EmailRequest)
    ensures
        req.recipient@ == new_subscriber.email@,
        req.subject@ == "Welcome!"@,
        req.html_body@ == spec_html_body(spec_confirmation_link(base_url@, subscription_token@)),
        req.text_body@ == spec_text_body(spec_confirmation_link(base_url@, subscription_token@)),
{
    let mut confirmation_link = String::from_str(base_url);
    confirmation_link.append("/subscriptions/confirm?subscription_token=");
    confirmation_link.append(subscription_token);
    let mut html_body = String::from_str("Welcome to our newsletter!<br />Click <a href=\"");
    html_body.append(confirmation_link.as_str());
    html_body.append("\">here</a> to confirm your subscription.");
    let mut text_body = String::from_str("Welcome to our newsletter!\nVisit ");
    text_body.append(confirmation_link.as_str());
    text_body.append(" to confirm your subscription.");
    EmailRequest {
        recipient: String::from_str(new_subscriber.email.as_ref()),
        subject: String::from_str("Welcome!"),
        html_body,
        text_body,
    }
}

/// Send a confirmation email to a new subscriber: builds the confirmation
/// link and both bodies and hands them to the email collaborator; fails
/// exactly when the transport fails, delivering nothing.
pub fn send_confirmation_email(
    email_client: &mut EmailClient,
    new_subscriber: NewSubscriber,
    base_url: &str,
    subscription_token: &str,
) -> (r: Result<(), String>)
    ensures
        final(email_client).fail_send == old(email_client).fail_send,
        match r {
            Ok(()) => !old(email_client).fail_send && confirmation_email_sent(
                *old(email_client),
                *final(email_client),
                new_subscriber.email@,
                base_url@,
                subscription_token@,
            ),
            Err(m) => old(email_client).fail_send && email_unchanged(
                *old(email_client),
                *final(email_client),
            ) && m@ == "the email transport refused the request"@,
        },
{
    let req = build_confirmation_email(&new_subscriber, base_url, subscription_token);
    email_client.send_email(
        &new_subscriber.email,
        "Welcome!",
        req.html_body.as_str(),
        req.text_body.as_str(),
    )
}

/// Registration is not idempotent: two committed registrations of the same
/// email and name on top of each other leave two independent subscriber
/// rows, each carrying that email and name, with two token rows.
pub proof fn lemma_double_submission_two_rows(
    s0: Store,
    s1: Store,
    s2: Store,
    email: Seq<char>,
    name: Seq<char>,
)
    requires
        registration_committed(s0, s1, email, name),
        registration_committed(s1, s2, email, name),
    ensures
        s2.subscribers@.len() == s0.subscribers@.len() + 2,
        s2.tokens@.len() == s0.tokens@.len() + 2,
        s2.subscribers@[s0.subscribers@.len() as int].email@ == email,
        s2.subscribers@[s0.subscribers@.len() as int + 1].email@ == email,
        s2.subscribers@[s0.subscribers@.len() as int].name@ == name,
        s2.subscribers@[s0.subscribers@.len() as int + 1].name@ == name,
{
}

/// A committed registration preserves the cross-entity invariant: when every
/// token row of the store was bound to a committed subscriber row, the same
/// holds after the registration, its new token row being bound to its new
/// subscriber row.
pub proof fn lemma_registration_preserves_wf(
    pre: Store,
    post: Store,
    email: Seq<char>,
    name: Seq<char>,
)
    requires
        store_wf(pre),
        registration_committed(pre, post, email, name),
    ensures
        store_wf(post),
{
    assert forall|i: int| 0 <= i < post.tokens@.len() implies #[trigger] token_bound(
        post,
        i,
    ) by {
        if i < pre.tokens@.len() {
            assert(post.tokens@[i] == pre.tokens@[i]);
            assert(token_bound(pre, i));
            let j = choose|j: int|
                0 <= j < pre.subscribers@.len() && pre.subscribers@[j].id
                    == pre.tokens@[i].subscriber_id;
            assert(post.subscribers@[j].id == post.tokens@[i].subscriber_id);
        } else {
            let j = post.subscribers@.len() - 1;
            assert(post.subscribers@[j].id == post.tokens@[i].subscriber_id);
        }
    }
}

/// Adding a new subscriber: the whole pipeline. Validation fails fast with a
/// client error; then subscriber row, fresh token row and commit form one
/// atomic unit of work, each failure surfacing as its own kind with the
/// store left unchanged; only after a successful commit is the confirmation
/// email attempted, and its failure leaves the committed rows in place.
pub fn subscribe(
    store: &mut Store,
    email_client: &mut EmailClient,
    form: FormData,
    base_url: &str,
) -> (r: Result<(), SubscribeError>)
    ensures
        final(store).faults == old(store).faults,
        final(email_client).fail_send == old(email_client).fail_send,
        store_wf(*old(store)) ==> store_wf(*final(store)),
        match r {
            Ok(()) => {
                &&& is_valid_name(form.name@)
                &&& is_valid_email(form.email@)
                &&& !old(store).faults.fail_begin
                &&& !old(store).faults.fail_insert_subscriber
                &&& !old(store).faults.fail_store_token
                &&& !old(store).faults.fail_commit
                &&& !old(email_client).fail_send
                &&& registration_committed(*old(store), *final(store), form.email@, form.name@)
                &&& confirmation_email_sent(
                    *old(email_client),
                    *final(email_client),
                    form.email@,
                    base_url@,
                    final(store).tokens@.last().subscription_token@,
                )
            },
            Err(e) => match e {
                SubscribeError::ValidationError(m) => {
                    &&& (!is_valid_name(form.name@) || !is_valid_email(form.email@))
                    &&& (if !is_valid_name(form.name@) {
                        m@ == form.name@ + " is not a valid subscriber name."@
                    } else {
                        m@ == form.email@ + " is not a valid subscriber email."@
                    })
                    &&& store_unchanged(*old(store), *final(store))
                    &&& email_unchanged(*old(email_client), *final(email_client))
                },
                SubscribeError::PoolError(_) => {
                    &&& is_valid_name(form.name@)
                    &&& is_valid_email(form.email@)
                    &&& old(store).faults.fail_begin
                    &&& store_unchanged(*old(store), *final(store))
                    &&& email_unchanged(*old(email_client), *final(email_client))
                },
                SubscribeError::InsertSubscriberError(_) => {
                    &&& is_valid_name(form.name@)
                    &&& is_valid_email(form.email@)
                    &&& !old(store).faults.fail_begin
                    &&& old(store).faults.fail_insert_subscriber
                    &&& store_unchanged(*old(store), *final(store))
                    &&& email_unchanged(*old(email_client), *final(email_client))
                },
                SubscribeError::StoreTokenError(_) => {
                    &&& is_valid_name(form.name@)
                    &&& is_valid_email(form.email@)
                    &&& !old(store).faults.fail_begin
                    &&& !old(store).faults.fail_insert_subscriber
                    &&& old(store).faults.fail_store_token
                    &&& store_unchanged(*old(store), *final(store))
                    &&& email_unchanged(*old(email_client), *final(email_client))
                },
                SubscribeError::TransactionCommitError(_) => {
                    &&& is_valid_name(form.name@)
                    &&& is_valid_email(form.email@)
                    &&& !old(store).faults.fail_begin
                    &&& !old(store).faults.fail_insert_subscriber
                    &&& !old(store).faults.fail_store_token
                    &&& old(store).faults.fail_commit
                    &&& store_unchanged(*old(store), *final(store))
                    &&& email_unchanged(*old(email_client), *final(email_client))
                },
                SubscribeError::SendEmailError(_) => {
                    &&& is_valid_name(form.name@)
                    &&& is_valid_email(form.email@)
                    &&& !old(store).faults.fail_begin
                    &&& !old(store).faults.fail_insert_subscriber
                    &&& !old(store).faults.fail_store_token
                    &&& !old(store).faults.fail_commit
                    &&& old(email_client).fail_send
                    &&& registration_committed(*old(store), *final(store), form.email@, form.name@)
                    &&& email_unchanged(*old(email_client), *final(email_client))
                },
            },
        },
{
    let new_subscriber = match NewSubscriber::try_from(form) {
        Ok(n) => n,
        Err(m) => {
            return Err(SubscribeError::ValidationError(m));
        },
    };
    let mut transaction = match store.begin() {
        Ok(t) => t,
        Err(m) => {
            return Err(SubscribeError::PoolError(m));
        },
    };
    let subscriber_id = match insert_subscriber(&mut transaction, &new_subscriber) {
        Ok(id) => id,
        Err(m) => {
            return Err(SubscribeError::InsertSubscriberError(m));
        },
    };
    let subscription_token = generate_subscription_token();
    match store_token(&mut transaction, subscriber_id, subscription_token.as_str()) {
        Ok(()) => {},
        Err(e) => {
            return Err(SubscribeError::StoreTokenError(e));
        },
    };
    match transaction.commit(store) {
        Ok(()) => {},
        Err(m) => {
            proof {
                if store_wf(*old(store)) {
                    lemma_unchanged_preserves_wf(*old(store), *store);
                }
            }
            return Err(SubscribeError::TransactionCommitError(m));
        },
    };
    proof {
        assert(store.subscribers@ =~= old(store).subscribers@.push(store.subscribers@.last()));
        assert(store.tokens@ =~= old(store).tokens@.push(store.tokens@.last()));
        if store_wf(*old(store)) {
            lemma_registration_preserves_wf(
                *old(store),
                *store,
                new_subscriber.email@,
                new_subscriber.name@,
            );
        }
    }
    match send_confirmation_email(
        email_client,
        new_subscriber,
        base_url,
        subscription_token.as_str(),
    ) {
        Ok(()) => Ok(()),
        Err(m) => Err(SubscribeError::SendEmailError(m)),
    }
}

} // verus!
