use newsletter::domain::FormData;
use newsletter::email::EmailClient;
use newsletter::errors::{error_chain_fmt, StoreTokenError, SubscribeError};
use newsletter::registration::subscribe;
use newsletter::store::{StorageFaults, Store, SubscriberStatus};

const BASE_URL: &str = "https://newsletter.example";

fn valid_form() -> FormData {
    FormData {
        email: "ursula_le_guin@gmail.com".to_string(),
        name: "Ursula Le Guin".to_string(),
    }
}

fn reliable_store() -> Store {
    Store::new(StorageFaults::none())
}

fn store_with(faults: StorageFaults) -> Store {
    Store::new(faults)
}

#[test]
fn valid_input_commits_both_rows_and_sends_the_confirmation_email() {
    let mut store = reliable_store();
    let mut email_client = EmailClient::new(false);

    let outcome = subscribe(&mut store, &mut email_client, valid_form(), BASE_URL);

    assert!(outcome.is_ok());
    assert_eq!(store.subscribers.len(), 1);
    assert_eq!(store.tokens.len(), 1);
    let row = &store.subscribers[0];
    assert_eq!(row.email, "ursula_le_guin@gmail.com");
    assert_eq!(row.name, "Ursula Le Guin");
    assert!(matches!(row.status, SubscriberStatus::PendingConfirmation));
    let token_row = &store.tokens[0];
    assert_eq!(token_row.subscriber_id, row.id);
    assert_eq!(token_row.subscription_token.chars().count(), 25);
    assert!(token_row.subscription_token.chars().all(|c| c.is_ascii_alphanumeric()));

    assert_eq!(email_client.sent.len(), 1);
    let sent = &email_client.sent[0];
    assert_eq!(sent.recipient, "ursula_le_guin@gmail.com");
    assert_eq!(sent.subject, "Welcome!");
    let link = format!(
        "{}/subscriptions/confirm?subscription_token={}",
        BASE_URL, token_row.subscription_token
    );
    assert!(sent.html_body.contains(&link));
    assert!(sent.text_body.contains(&link));
}

#[test]
fn an_invalid_name_fails_before_any_write_or_email() {
    let mut store = reliable_store();
    let mut email_client = EmailClient::new(false);
    let form = FormData { email: "valid@example.com".to_string(), name: String::new() };

    let outcome = subscribe(&mut store, &mut email_client, form, BASE_URL);

    assert!(matches!(outcome, Err(SubscribeError::ValidationError(_))));
    assert_eq!(store.subscribers.len(), 0);
    assert_eq!(store.tokens.len(), 0);
    assert_eq!(email_client.sent.len(), 0);
}

#[test]
fn an_invalid_email_fails_before_any_write_or_email() {
    let mut store = reliable_store();
    let mut email_client = EmailClient::new(false);
    let form = FormData { email: "not-an-email".to_string(), name: "Bob".to_string() };

    let outcome = subscribe(&mut store, &mut email_client, form, BASE_URL);

    match outcome {
        Err(SubscribeError::ValidationError(m)) => {
            assert_eq!(m, "not-an-email is not a valid subscriber email.");
        }
        _ => panic!("expected a validation error"),
    }
    assert_eq!(store.subscribers.len(), 0);
    assert_eq!(store.tokens.len(), 0);
    assert_eq!(email_client.sent.len(), 0);
}

#[test]
fn a_pool_failure_surfaces_as_a_pool_error_with_nothing_written() {
    let mut store = store_with(StorageFaults {
        fail_begin: true,
        fail_insert_subscriber: false,
        fail_store_token: false,
        fail_commit: false,
    });
    let mut email_client = EmailClient::new(false);

    let outcome = subscribe(&mut store, &mut email_client, valid_form(), BASE_URL);

    assert!(matches!(outcome, Err(SubscribeError::PoolError(_))));
    assert_eq!(store.subscribers.len(), 0);
    assert_eq!(store.tokens.len(), 0);
    assert_eq!(email_client.sent.len(), 0);
}

#[test]
fn a_subscriber_insert_failure_leaves_the_store_unchanged() {
    let mut store = store_with(StorageFaults {
        fail_begin: false,
        fail_insert_subscriber: true,
        fail_store_token: false,
        fail_commit: false,
    });
    let mut email_client = EmailClient::new(false);

    let outcome = subscribe(&mut store, &mut email_client, valid_form(), BASE_URL);

    assert!(matches!(outcome, Err(SubscribeError::InsertSubscriberError(_))));
    assert_eq!(store.subscribers.len(), 0);
    assert_eq!(store.tokens.len(), 0);
    assert_eq!(email_client.sent.len(), 0);
}

#[test]
fn a_token_insert_failure_rolls_back_the_subscriber_row() {
    let mut store = store_with(StorageFaults {
        fail_begin: false,
        fail_insert_subscriber: false,
        fail_store_token: true,
        fail_commit: false,
    });
    let mut email_client = EmailClient::new(false);

    let outcome = subscribe(&mut store, &mut email_client, valid_form(), BASE_URL);

    assert!(matches!(outcome, Err(SubscribeError::StoreTokenError(_))));
    // No subscriber row is observable by an independent reader.
    assert_eq!(store.subscribers.len(), 0);
    assert_eq!(store.tokens.len(), 0);
    assert_eq!(email_client.sent.len(), 0);
}

#[test]
fn a_commit_failure_makes_neither_row_visible_and_sends_no_email() {
    let mut store = store_with(StorageFaults {
        fail_begin: false,
        fail_insert_subscriber: false,
        fail_store_token: false,
        fail_commit: true,
    });
    let mut email_client = EmailClient::new(false);

    let outcome = subscribe(&mut store, &mut email_client, valid_form(), BASE_URL);

    assert!(matches!(outcome, Err(SubscribeError::TransactionCommitError(_))));
    assert_eq!(store.subscribers.len(), 0);
    assert_eq!(store.tokens.len(), 0);
    assert_eq!(email_client.sent.len(), 0);
}

#[test]
fn an_email_failure_is_reported_but_the_committed_rows_remain() {
    let mut store = reliable_store();
    let mut email_client = EmailClient::new(true);

    let outcome = subscribe(&mut store, &mut email_client, valid_form(), BASE_URL);

    assert!(matches!(outcome, Err(SubscribeError::SendEmailError(_))));
    assert_eq!(store.subscribers.len(), 1);
    assert_eq!(store.tokens.len(), 1);
    assert_eq!(store.tokens[0].subscriber_id, store.subscribers[0].id);
    assert_eq!(email_client.sent.len(), 0);
}

#[test]
fn submitting_the_same_email_twice_creates_two_independent_rows() {
    let mut store = reliable_store();
    let mut email_client = EmailClient::new(false);

    assert!(subscribe(&mut store, &mut email_client, valid_form(), BASE_URL).is_ok());
    assert!(subscribe(&mut store, &mut email_client, valid_form(), BASE_URL).is_ok());

    assert_eq!(store.subscribers.len(), 2);
    assert_eq!(store.tokens.len(), 2);
    assert_eq!(store.subscribers[0].email, "ursula_le_guin@gmail.com");
    assert_eq!(store.subscribers[1].email, "ursula_le_guin@gmail.com");
    assert_eq!(email_client.sent.len(), 2);
}

#[test]
fn validation_errors_are_client_errors_and_the_rest_are_server_errors() {
    let validation = SubscribeError::ValidationError("bad".to_string());
    assert_eq!(validation.status_code(), 400);
    let pool = SubscribeError::PoolError("down".to_string());
    assert_eq!(pool.status_code(), 500);
    let insert = SubscribeError::InsertSubscriberError("down".to_string());
    assert_eq!(insert.status_code(), 500);
    let token = SubscribeError::StoreTokenError(StoreTokenError { cause: "down".to_string() });
    assert_eq!(token.status_code(), 500);
    let commit = SubscribeError::TransactionCommitError("down".to_string());
    assert_eq!(commit.status_code(), 500);
    let email = SubscribeError::SendEmailError("down".to_string());
    assert_eq!(email.status_code(), 500);
}

#[test]
fn the_diagnostic_report_walks_the_cause_chain_top_to_bottom() {
    let e = SubscribeError::StoreTokenError(StoreTokenError {
        cause: "unique constraint violated".to_string(),
    });
    let report = error_chain_fmt(&e);
    assert_eq!(
        report,
        "Failed to store the confirmation token for a new subscriber.\n\n\
         Caused by:\n\tA database error was encountered while trying to store a subscription token.\n\
         Caused by:\n\tunique constraint violated\n"
    );

    let v = SubscribeError::ValidationError("nope".to_string());
    assert_eq!(error_chain_fmt(&v), "nope\n\n");

    let p = SubscribeError::PoolError("pool exhausted".to_string());
    assert_eq!(
        error_chain_fmt(&p),
        "Failed to acquire a Postgres connection from the pool\n\nCaused by:\n\tpool exhausted\n"
    );
}

#[test]
fn conversions_wrap_the_cause_in_the_matching_kind() {
    let from_token: SubscribeError =
        StoreTokenError { cause: "io".to_string() }.into();
    assert!(matches!(from_token, SubscribeError::StoreTokenError(_)));
    let from_message: SubscribeError = "bad input".to_string().into();
    assert!(matches!(from_message, SubscribeError::ValidationError(_)));
}

#[test]
fn the_cause_accessor_exposes_the_underlying_failure() {
    let v = SubscribeError::ValidationError("nope".to_string());
    assert!(v.source().is_none());
    let e = SubscribeError::StoreTokenError(StoreTokenError { cause: "io".to_string() });
    assert_eq!(e.source().unwrap(), "io");
    let p = SubscribeError::PoolError("down".to_string());
    assert_eq!(p.source().unwrap(), "down");
}
