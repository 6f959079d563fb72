use newsletter::email_client::EmailMessage;
use newsletter::errors::{error_chain_fmt, StoreTokenError, SubscribeError};
use newsletter::store::{StoreModel, SubscriptionStatus};
use newsletter::subscriptions::{subscribe, FaultPlan, FormData};

fn le_guin_form() -> FormData {
    FormData { name: "le guin".to_string(), email: "ursula_le_guin@gmail.com".to_string() }
}

const BASE_URL: &str = "https://newsletter.example";

#[test]
fn valid_subscription_stores_pending_row_token_and_sends_confirmation() {
    let mut store = StoreModel::new();
    let mut outbox: Vec<EmailMessage> = Vec::new();
    let result = subscribe(le_guin_form(), BASE_URL, &mut store, &mut outbox, &FaultPlan::none());
    assert!(result.is_ok());

    assert_eq!(store.subscriptions.len(), 1);
    let row = &store.subscriptions[0];
    assert_eq!(row.email, "ursula_le_guin@gmail.com");
    assert_eq!(row.name, "le guin");
    assert!(row.status == SubscriptionStatus::PendingConfirmation);

    assert_eq!(store.tokens.len(), 1);
    let token_row = &store.tokens[0];
    assert_eq!(token_row.subscriber_id, row.id);
    assert_eq!(token_row.subscription_token.chars().count(), 25);
    assert!(token_row.subscription_token.chars().all(|c| c.is_ascii_alphanumeric()));

    assert_eq!(outbox.len(), 1);
    let mail = &outbox[0];
    assert_eq!(mail.to, "ursula_le_guin@gmail.com");
    assert_eq!(mail.subject, "Welcome!");
    let link = format!(
        "{}/subscriptions/confirm?subscription_token={}",
        BASE_URL, token_row.subscription_token
    );
    assert!(mail.html_body.contains(&link));
    assert!(mail.text_body.contains(&link));
    assert_eq!(
        mail.text_body,
        format!("Welcome to our newsletter!\nVisit {} to confirm your subscription.", link)
    );
    assert_eq!(
        mail.html_body,
        format!(
            "Welcome to our newsletter!<br />Click <a href=\"{}\">here</a> to confirm your subscription.",
            link
        )
    );
}

#[test]
fn invalid_email_is_a_validation_failure_with_no_side_effects() {
    let mut store = StoreModel::new();
    let mut outbox: Vec<EmailMessage> = Vec::new();
    let form = FormData {
        name: "le guin".to_string(),
        email: "definitely-not-an-email".to_string(),
    };
    let err = subscribe(form, BASE_URL, &mut store, &mut outbox, &FaultPlan::none())
        .unwrap_err();
    assert_eq!(err.status_code(), 400);
    assert!(matches!(&err, SubscribeError::ValidationError(_)));
    assert_eq!(err.message(), "definitely-not-an-email is not a valid subscriber email.");
    assert_eq!(store.subscriptions.len(), 0);
    assert_eq!(store.tokens.len(), 0);
    assert_eq!(outbox.len(), 0);
}

#[test]
fn connection_failure_is_classified_and_leaves_nothing_behind() {
    let mut store = StoreModel::new();
    let mut outbox: Vec<EmailMessage> = Vec::new();
    let faults = FaultPlan {
        begin: Some("pool exhausted".to_string()),
        insert: None,
        store_token: None,
        commit: None,
        send_email: None,
    };
    let err = subscribe(le_guin_form(), BASE_URL, &mut store, &mut outbox, &faults)
        .unwrap_err();
    assert_eq!(err.status_code(), 500);
    assert_eq!(err.message(), "Failed to acquire a Postgres connection from the pool");
    assert_eq!(store.subscriptions.len(), 0);
    assert_eq!(outbox.len(), 0);
}

#[test]
fn insert_failure_is_classified_and_leaves_nothing_behind() {
    let mut store = StoreModel::new();
    let mut outbox: Vec<EmailMessage> = Vec::new();
    let faults = FaultPlan {
        begin: None,
        insert: Some("unique constraint violated".to_string()),
        store_token: None,
        commit: None,
        send_email: None,
    };
    let err = subscribe(le_guin_form(), BASE_URL, &mut store, &mut outbox, &faults)
        .unwrap_err();
    assert_eq!(err.status_code(), 500);
    assert_eq!(err.message(), "Failed to insert new subscriber in the database.");
    assert_eq!(store.subscriptions.len(), 0);
    assert_eq!(store.tokens.len(), 0);
    assert_eq!(outbox.len(), 0);
}

#[test]
fn token_storage_failure_rolls_back_the_subscriber_insert() {
    let mut store = StoreModel::new();
    let mut outbox: Vec<EmailMessage> = Vec::new();
    let faults = FaultPlan {
        begin: None,
        insert: None,
        store_token: Some("disk full".to_string()),
        commit: None,
        send_email: None,
    };
    let err = subscribe(le_guin_form(), BASE_URL, &mut store, &mut outbox, &faults)
        .unwrap_err();
    assert_eq!(err.status_code(), 500);
    assert_eq!(err.message(), "Failed to store the confirmation token for a new subscriber.");
    // The causal chain keeps both the wrapper's description and the root cause.
    let report = err.debug_report();
    assert!(report.contains(
        "A database error was encountered while trying to store a subscription token."
    ));
    assert!(report.contains("disk full"));
    // Rollback law: no subscriber row is durably visible afterwards.
    assert_eq!(store.subscriptions.len(), 0);
    assert_eq!(store.tokens.len(), 0);
    assert_eq!(outbox.len(), 0);
}

#[test]
fn commit_failure_means_nothing_durable_and_no_email() {
    let mut store = StoreModel::new();
    let mut outbox: Vec<EmailMessage> = Vec::new();
    let faults = FaultPlan {
        begin: None,
        insert: None,
        store_token: None,
        commit: Some("simulated commit failure".to_string()),
        send_email: None,
    };
    let err = subscribe(le_guin_form(), BASE_URL, &mut store, &mut outbox, &faults)
        .unwrap_err();
    assert_eq!(err.status_code(), 500);
    assert_eq!(err.message(), "Failed to commit SQL transaction to store a new subscriber.");
    assert_eq!(store.subscriptions.len(), 0);
    assert_eq!(store.tokens.len(), 0);
    // Ordering law: zero dispatch calls when the commit never succeeded.
    assert_eq!(outbox.len(), 0);
}

#[test]
fn email_failure_after_commit_keeps_the_committed_rows() {
    let mut store = StoreModel::new();
    let mut outbox: Vec<EmailMessage> = Vec::new();
    let faults = FaultPlan {
        begin: None,
        insert: None,
        store_token: None,
        commit: None,
        send_email: Some("transport refused".to_string()),
    };
    let err = subscribe(le_guin_form(), BASE_URL, &mut store, &mut outbox, &faults)
        .unwrap_err();
    assert_eq!(err.status_code(), 500);
    assert_eq!(err.message(), "Failed to send a confirmation email.");
    // The store is not rolled back on e-mail failure: the inconsistency
    // window is deliberate.
    assert_eq!(store.subscriptions.len(), 1);
    assert_eq!(store.tokens.len(), 1);
    assert_eq!(outbox.len(), 0);
}

#[test]
fn error_chain_fmt_renders_message_then_every_cause() {
    let causes = vec!["middle layer gave up".to_string(), "root cause".to_string()];
    let report = error_chain_fmt("outer failure", &causes);
    assert_eq!(
        report,
        "outer failure\n\nCaused by: \n\tmiddle layer gave up\nCaused by: \n\troot cause\n"
    );
}

#[test]
fn store_token_error_keeps_its_root_cause() {
    let err = StoreTokenError("connection reset".to_string());
    assert_eq!(
        err.message(),
        "A database error was encountered while trying to store a subscription token."
    );
    assert_eq!(err.source().as_str(), "connection reset");
    assert_eq!(
        err.debug_report(),
        "A database error was encountered while trying to store a subscription token.\n\n\
         Caused by: \n\tconnection reset\n"
    );
}
