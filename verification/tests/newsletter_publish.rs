use newsletter::email_client::EmailMessage;
use newsletter::errors::PublishError;
use newsletter::newsletter::{get_confirmed_subscribers, publish_newsletter, BodyData, Content};
use newsletter::store::{StoreModel, SubscriptionRow, SubscriptionStatus};

fn row(id: u128, email: &str, status: SubscriptionStatus) -> SubscriptionRow {
    SubscriptionRow {
        id,
        email: email.to_string(),
        name: "reader".to_string(),
        subscribed_at: 0,
        status,
    }
}

/// Three confirmed subscribers, one with a malformed stored address, plus a
/// pending row that must never receive an issue.
fn seeded_store() -> StoreModel {
    let mut store = StoreModel::new();
    store.subscriptions.push(row(1, "first@example.com", SubscriptionStatus::Confirmed));
    store.subscriptions.push(row(2, "not-an-email", SubscriptionStatus::Confirmed));
    store.subscriptions.push(row(3, "third@example.com", SubscriptionStatus::Confirmed));
    store.subscriptions.push(row(
        4,
        "pending@example.com",
        SubscriptionStatus::PendingConfirmation,
    ));
    store
}

fn issue() -> BodyData {
    BodyData {
        title: "Newsletter title".to_string(),
        content: Content {
            html: "<p>Newsletter body as HTML</p>".to_string(),
            text: "Newsletter body as plain text".to_string(),
        },
    }
}

#[test]
fn malformed_stored_email_is_skipped_not_fatal() {
    let store = seeded_store();
    let mut outbox: Vec<EmailMessage> = Vec::new();
    let no_faults: Vec<Option<String>> = Vec::new();
    let result = publish_newsletter(&issue(), &store, &mut outbox, &no_faults);
    assert!(result.is_ok());
    // Exactly the two well-formed confirmed recipients, in table order.
    assert_eq!(outbox.len(), 2);
    assert_eq!(outbox[0].to, "first@example.com");
    assert_eq!(outbox[1].to, "third@example.com");
    assert_eq!(outbox[0].subject, "Newsletter title");
    assert_eq!(outbox[0].html_body, "<p>Newsletter body as HTML</p>");
    assert_eq!(outbox[0].text_body, "Newsletter body as plain text");
    // Exactly one skip is recorded while loading.
    let loaded = get_confirmed_subscribers(&store);
    assert_eq!(loaded.len(), 3);
    let skipped: Vec<&String> = loaded.iter().filter_map(|e| e.as_ref().err()).collect();
    assert_eq!(skipped.len(), 1);
    assert_eq!(skipped[0].as_str(), "not-an-email is not a valid subscriber email.");
}

#[test]
fn first_dispatch_failure_aborts_the_whole_publish() {
    let store = seeded_store();
    let mut outbox: Vec<EmailMessage> = Vec::new();
    let outcomes: Vec<Option<String>> = vec![None, Some("transport refused".to_string())];
    let err = publish_newsletter(&issue(), &store, &mut outbox, &outcomes).unwrap_err();
    assert_eq!(err.status_code(), 500);
    assert_eq!(err.message(), "Failed to send newsletter issue to third@example.com");
    let report = err.debug_report();
    assert!(report.contains("transport refused"));
    // The send already in flight was the last one: nothing further went out.
    assert_eq!(outbox.len(), 1);
    assert_eq!(outbox[0].to, "first@example.com");
}

#[test]
fn failure_on_the_first_send_delivers_nothing() {
    let store = seeded_store();
    let mut outbox: Vec<EmailMessage> = Vec::new();
    let outcomes: Vec<Option<String>> = vec![Some("connection dropped".to_string())];
    let err = publish_newsletter(&issue(), &store, &mut outbox, &outcomes).unwrap_err();
    assert!(matches!(&err, PublishError::UnexpectedError(_, _)));
    assert_eq!(err.message(), "Failed to send newsletter issue to first@example.com");
    assert_eq!(outbox.len(), 0);
}

#[test]
fn publish_with_no_confirmed_subscribers_sends_nothing() {
    let mut store = StoreModel::new();
    store.subscriptions.push(row(
        9,
        "pending@example.com",
        SubscriptionStatus::PendingConfirmation,
    ));
    let mut outbox: Vec<EmailMessage> = Vec::new();
    let no_faults: Vec<Option<String>> = Vec::new();
    let result = publish_newsletter(&issue(), &store, &mut outbox, &no_faults);
    assert!(result.is_ok());
    assert_eq!(outbox.len(), 0);
}
