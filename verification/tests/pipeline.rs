use zero2prod::email::build_confirmation_link;
use zero2prod::pipeline::{parse_subscriber, subscribe, FormData, StorageFaults};
use zero2prod::store::{StorageModel, SubscriberStatus};
use zero2prod::errors::SubscribeError;

fn ursula() -> FormData {
    FormData {
        email: "ursula@domain.com".to_string(),
        name: "Ursula Le Guin".to_string(),
    }
}

fn no_faults() -> StorageFaults {
    StorageFaults { begin: None, insert: None, store_token: None, commit: None, email: None }
}

#[test]
fn parse_subscriber_accepts_valid_input() {
    let ns = parse_subscriber(ursula()).unwrap();
    assert_eq!(ns.name.as_str(), "Ursula Le Guin");
    assert_eq!(ns.email.as_str(), "ursula@domain.com");
}

#[test]
fn parse_subscriber_reports_the_failing_field() {
    let bad_name = FormData { email: "ursula@domain.com".to_string(), name: "".to_string() };
    assert_eq!(parse_subscriber(bad_name).unwrap_err(), " is not a valid subscriber name.");
    let bad_email = FormData { email: "not-an-email".to_string(), name: "Ursula".to_string() };
    assert_eq!(
        parse_subscriber(bad_email).unwrap_err(),
        "not-an-email is not a valid subscriber email."
    );
}

#[test]
fn confirmation_link_has_the_agreed_shape() {
    assert_eq!(
        build_confirmation_link("https://api.example.com", "abc123"),
        "https://api.example.com/subscriptions/confirm?subscription_token=abc123"
    );
}

#[test]
fn successful_run_commits_one_subscriber_and_one_token() {
    let mut store = StorageModel::new();
    let receipt = subscribe(&mut store, ursula(), "https://api.example.com", no_faults()).unwrap();

    assert_eq!(store.subscriptions.len(), 1);
    let row = &store.subscriptions[0];
    assert_eq!(row.email, "ursula@domain.com");
    assert_eq!(row.name, "Ursula Le Guin");
    assert!(row.status == SubscriberStatus::PendingConfirmation);

    assert_eq!(store.subscription_tokens.len(), 1);
    let token_row = &store.subscription_tokens[0];
    assert!(token_row.subscriber_id == row.id);
    assert_eq!(token_row.subscription_token, receipt.token);
    assert_eq!(receipt.token.chars().count(), 25);
    assert!(receipt.token.chars().all(|c| c.is_ascii_alphanumeric()));

    let link = format!(
        "https://api.example.com/subscriptions/confirm?subscription_token={}",
        receipt.token
    );
    assert_eq!(receipt.email.recipient, "ursula@domain.com");
    assert_eq!(receipt.email.subject, "Welcome!");
    assert!(receipt.email.html_body.contains(&link));
    assert!(receipt.email.text_body.contains(&link));
}

#[test]
fn empty_name_yields_validation_failure_and_no_rows() {
    let mut store = StorageModel::new();
    let form = FormData { email: "ursula@domain.com".to_string(), name: "".to_string() };
    let err = subscribe(&mut store, form, "https://api.example.com", no_faults()).unwrap_err();
    assert!(matches!(&err, SubscribeError::ValidationError(_)));
    assert_eq!(err.status_code(), 400);
    assert_eq!(store.subscriptions.len(), 0);
    assert_eq!(store.subscription_tokens.len(), 0);
}

#[test]
fn invalid_email_yields_validation_failure_and_no_rows() {
    let mut store = StorageModel::new();
    let form = FormData { email: "not-an-email".to_string(), name: "Ursula".to_string() };
    let err = subscribe(&mut store, form, "https://api.example.com", no_faults()).unwrap_err();
    assert!(
        matches!(err, SubscribeError::ValidationError(m) if m == "not-an-email is not a valid subscriber email.")
    );
    assert_eq!(store.subscriptions.len(), 0);
    assert_eq!(store.subscription_tokens.len(), 0);
}

#[test]
fn begin_failure_is_unexpected_and_writes_nothing() {
    let mut store = StorageModel::new();
    let faults = StorageFaults { begin: Some("pool exhausted".to_string()), ..no_faults() };
    let err = subscribe(&mut store, ursula(), "https://api.example.com", faults).unwrap_err();
    match &err {
        SubscribeError::UnexpectedError(chain, ctx) => {
            assert_eq!(ctx, "Failed to acquire a Postgres connection from the pool");
            assert_eq!(chain, &vec!["pool exhausted".to_string()]);
        }
        _ => panic!("expected an unexpected failure"),
    }
    assert_eq!(err.status_code(), 500);
    assert_eq!(store.subscriptions.len(), 0);
    assert_eq!(store.subscription_tokens.len(), 0);
}

#[test]
fn insert_failure_rolls_back_everything() {
    let mut store = StorageModel::new();
    let faults = StorageFaults { insert: Some("unique violation".to_string()), ..no_faults() };
    let err = subscribe(&mut store, ursula(), "https://api.example.com", faults).unwrap_err();
    match &err {
        SubscribeError::UnexpectedError(chain, ctx) => {
            assert_eq!(ctx, "Failed to insert new subscriber in the database.");
            assert_eq!(chain, &vec!["unique violation".to_string()]);
        }
        _ => panic!("expected an unexpected failure"),
    }
    assert_eq!(store.subscriptions.len(), 0);
    assert_eq!(store.subscription_tokens.len(), 0);
}

#[test]
fn token_store_failure_rolls_back_the_subscriber_row_too() {
    let mut store = StorageModel::new();
    let faults = StorageFaults { store_token: Some("fk violation".to_string()), ..no_faults() };
    let err = subscribe(&mut store, ursula(), "https://api.example.com", faults).unwrap_err();
    match &err {
        SubscribeError::UnexpectedError(chain, ctx) => {
            assert_eq!(ctx, "Failed to store confirmation token for a new subscriber.");
            assert_eq!(
                chain,
                &vec![
                    "A database error occurred while trying to store the subscription token."
                        .to_string(),
                    "fk violation".to_string()
                ]
            );
        }
        _ => panic!("expected an unexpected failure"),
    }
    assert_eq!(store.subscriptions.len(), 0);
    assert_eq!(store.subscription_tokens.len(), 0);
}

#[test]
fn commit_failure_writes_nothing() {
    let mut store = StorageModel::new();
    let faults = StorageFaults { commit: Some("connection lost".to_string()), ..no_faults() };
    let err = subscribe(&mut store, ursula(), "https://api.example.com", faults).unwrap_err();
    match &err {
        SubscribeError::UnexpectedError(_, ctx) => {
            assert_eq!(ctx, "Failed to commit SQL transaction to store a new subscriber.");
        }
        _ => panic!("expected an unexpected failure"),
    }
    assert_eq!(store.subscriptions.len(), 0);
    assert_eq!(store.subscription_tokens.len(), 0);
}

#[test]
fn email_failure_after_commit_keeps_both_rows() {
    let mut store = StorageModel::new();
    let faults = StorageFaults { email: Some("smtp timeout".to_string()), ..no_faults() };
    let err = subscribe(&mut store, ursula(), "https://api.example.com", faults).unwrap_err();
    match &err {
        SubscribeError::UnexpectedError(chain, ctx) => {
            assert_eq!(ctx, "Failed to send a confirmation email.");
            assert_eq!(chain, &vec!["smtp timeout".to_string()]);
        }
        _ => panic!("expected an unexpected failure"),
    }
    assert_eq!(store.subscriptions.len(), 1);
    assert_eq!(store.subscription_tokens.len(), 1);
    assert!(store.subscription_tokens[0].subscriber_id == store.subscriptions[0].id);
    assert!(store.subscriptions[0].status == SubscriberStatus::PendingConfirmation);
}

#[test]
fn two_successful_runs_keep_both_registrations() {
    let mut store = StorageModel::new();
    subscribe(&mut store, ursula(), "https://api.example.com", no_faults()).unwrap();
    let second = FormData {
        email: "octavia@domain.com".to_string(),
        name: "Octavia Butler".to_string(),
    };
    subscribe(&mut store, second, "https://api.example.com", no_faults()).unwrap();
    assert_eq!(store.subscriptions.len(), 2);
    assert_eq!(store.subscription_tokens.len(), 2);
    assert_eq!(store.subscriptions[0].email, "ursula@domain.com");
    assert_eq!(store.subscriptions[1].email, "octavia@domain.com");
    assert!(store.subscriptions[0].id != store.subscriptions[1].id);
}
