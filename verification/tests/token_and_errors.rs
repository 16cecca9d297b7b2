use std::collections::HashSet;

use zero2prod::errors::{error_chain_fmt, InfrastructureError, StoreTokenError, SubscribeError};
use zero2prod::token::generate_subscription_token;

#[test]
fn token_is_25_alphanumeric_characters() {
    let token = generate_subscription_token();
    assert_eq!(token.chars().count(), 25);
    assert!(token.chars().all(|c| c.is_ascii_alphanumeric()));
}

#[test]
fn tokens_are_pairwise_distinct() {
    let mut seen: HashSet<String> = HashSet::new();
    for _ in 0..200 {
        assert!(seen.insert(generate_subscription_token()));
    }
}

#[test]
fn chain_fmt_prints_message_then_causes() {
    let causes = vec!["first cause".to_string(), "second cause".to_string()];
    let report = error_chain_fmt("it broke", &causes);
    assert_eq!(
        report,
        "it broke\n\nCaused by:\n\tfirst cause\nCaused by:\n\tsecond cause\n"
    );
}

#[test]
fn chain_fmt_without_causes_is_just_the_message() {
    let report = error_chain_fmt("it broke", &Vec::new());
    assert_eq!(report, "it broke\n\n");
}

#[test]
fn validation_error_maps_to_client_error() {
    let e = SubscribeError::ValidationError("bad input".to_string());
    assert_eq!(e.status_code(), 400);
    assert_eq!(e.message(), "bad input");
    assert_eq!(e.chain_report(), "bad input\n\n");
}

#[test]
fn unexpected_error_maps_to_server_error() {
    let e = SubscribeError::from_infrastructure(
        InfrastructureError { message: "connection reset".to_string() },
        "Failed to acquire a Postgres connection from the pool".to_string(),
    );
    assert_eq!(e.status_code(), 500);
    assert_eq!(e.message(), "Failed to acquire a Postgres connection from the pool");
    assert_eq!(
        e.chain_report(),
        "Failed to acquire a Postgres connection from the pool\n\nCaused by:\n\tconnection reset\n"
    );
}

#[test]
fn store_token_error_preserves_the_underlying_cause() {
    let e = StoreTokenError(InfrastructureError { message: "disk full".to_string() });
    assert_eq!(
        e.message(),
        "A database error occurred while trying to store the subscription token."
    );
    assert_eq!(e.source().message, "disk full");
    assert_eq!(
        e.chain_report(),
        "A database error occurred while trying to store the subscription token.\n\n\
         Caused by:\n\tdisk full\n"
    );
}

#[test]
fn a_bare_string_converts_to_a_validation_error() {
    let e = SubscribeError::from("nope".to_string());
    assert!(matches!(e, SubscribeError::ValidationError(m) if m == "nope"));
}
