//! The subscription intake workflow: validation, the atomic two-row write,
//! and the post-commit confirmation e-mail.

use vstd::prelude::*;
use vstd::string::StringExecFns;
use crate::domain::{email_ok, name_ok, NewSubscriber, SubscriberEmail, SubscriberName};
use crate::email_client::{send_email, EmailMessage};
use crate::errors::{StoreTokenError, SubscribeError};
use crate::store::{StoreModel, StoreTransaction, SubscriptionRow, SubscriptionStatus, TokenRow};
use crate::token::{all_token_chars, generate_subscription_token};

verus! {

/// The raw form fields of a subscription request, before validation.
pub struct FormData {
    pub name: String,
    pub email: String,
}

/// Whether both form fields pass the domain validators.
pub open spec fn valid_form(form: FormData) -> bool {
    name_ok(form.name@) && email_ok(form.email@)
}

impl NewSubscriber {
    /// Validate a raw form into a `NewSubscriber`: the name first, then the
    /// e-mail address, reporting the first rejection.
    pub fn try_from(value: FormData) -> (r: Result<NewSubscriber, String>)
        ensures
            r is Ok <==> valid_form(value),
            r matches Ok(s) ==> s.name@ == value.name@ && s.email@ == value.email@ && s.wf(),
            !name_ok(value.name@) ==> (r matches Err(m) && m@ == value.name@
                + " is not a valid subscriber name."@),
            name_ok(value.name@) && !email_ok(value.email@) ==> (r matches Err(m) && m@
                == value.email@ + " is not a valid subscriber email."@),
    {
        let name = match SubscriberName::parse(value.name) {
            Ok(n) => n,
            Err(m) => {
                return Err(m);
            },
        };
        let email = match SubscriberEmail::parse(value.email) {
            Ok(e) => e,
            Err(m) => {
                return Err(m);
            },
        };
        Ok(NewSubscriber { email, name })
    }
}

/// Relies on uuid's `Uuid::new_v4`: a freshly drawn random row identifier;
/// nothing is assumed of its value.
#[verifier::external_body]
fn fresh_subscriber_id() -> u128 {
    uuid::Uuid::new_v4().as_u128()
}

/// Relies on chrono's `Utc::now`: the current time, as seconds since the
/// Unix epoch; nothing is assumed of its value.
#[verifier::external_body]
fn now_timestamp() -> i64 {
    chrono::Utc::now().timestamp()
}

/// Stage the new subscriber row, status `pending_confirmation`, inside the
/// open transaction. `outcome` is the store's answer: on `None` the row is
/// staged and its fresh identifier returned; on `Some(cause)` nothing is
/// staged and the cause comes back.
pub fn insert_subscriber(
    transaction: &mut StoreTransaction,
    new_subscriber: &NewSubscriber,
    outcome: &Option<String>,
) -> (r: Result<u128, String>)
    ensures
        r is Ok <==> outcome is None,
        outcome is None ==> (r matches Ok(id) && ({
            let staged = final(transaction).staged_subscriptions@;
            &&& staged.len() == old(transaction).staged_subscriptions@.len() + 1
            &&& staged.drop_last() == old(transaction).staged_subscriptions@
            &&& staged.last().id == id
            &&& staged.last().email@ == new_subscriber.email@
            &&& staged.last().name@ == new_subscriber.name@
            &&& staged.last().status is PendingConfirmation
            &&& final(transaction).staged_tokens@ == old(transaction).staged_tokens@
        })),
        outcome is Some ==> *final(transaction) == *old(transaction),
        r matches Err(c) ==> outcome matches Some(cause) && c@ == cause@,
{
    match outcome {
        None => {
            let subscriber_id = fresh_subscriber_id();
            let row = SubscriptionRow {
                id: subscriber_id,
                email: new_subscriber.email.as_ref().to_owned(),
                name: new_subscriber.name.as_ref().to_owned(),
                subscribed_at: now_timestamp(),
                status: SubscriptionStatus::PendingConfirmation,
            };
            let ghost before = transaction.staged_subscriptions@;
            transaction.staged_subscriptions.push(row);
            proof {
                assert(transaction.staged_subscriptions@.drop_last() =~= before);
            }
            Ok(subscriber_id)
        },
        Some(cause) => Err(cause.clone()),
    }
}

/// Stage the confirmation-token row, tied to the subscriber, inside the same
/// transaction. `outcome` is the store's answer: on `None` the row is staged;
/// on `Some(cause)` nothing is staged and the cause comes back wrapped in a
/// [`StoreTokenError`].
pub fn store_token(
    transaction: &mut StoreTransaction,
    subscriber_id: u128,
    subscription_token: &str,
    outcome: &Option<String>,
) -> (r: Result<(), StoreTokenError>)
    ensures
        r is Ok <==> outcome is None,
        outcome is None ==> ({
            let staged = final(transaction).staged_tokens@;
            &&& staged.len() == old(transaction).staged_tokens@.len() + 1
            &&& staged.drop_last() == old(transaction).staged_tokens@
            &&& staged.last().subscription_token@ == subscription_token@
            &&& staged.last().subscriber_id == subscriber_id
            &&& final(transaction).staged_subscriptions@ == old(
                transaction,
            ).staged_subscriptions@
        }),
        outcome is Some ==> *final(transaction) == *old(transaction),
        r matches Err(e) ==> outcome matches Some(cause) && e.0@ == cause@,
{
    match outcome {
        None => {
            let row = TokenRow {
                subscription_token: subscription_token.to_owned(),
                subscriber_id,
            };
            let ghost before = transaction.staged_tokens@;
            transaction.staged_tokens.push(row);
            proof {
                assert(transaction.staged_tokens@.drop_last() =~= before);
            }
            Ok(())
        },
        Some(cause) => Err(StoreTokenError(cause.clone())),
    }
}

/// The confirmation link the e-mail embeds.
pub open spec fn confirmation_link_text(base_url: Seq<char>, token: Seq<char>) -> Seq<char> {
    base_url + "/subscriptions/confirm?subscription_token="@ + token
}

/// The plain-text body of the confirmation e-mail.
pub open spec fn confirmation_text_body(link: Seq<char>) -> Seq<char> {
    "Welcome to our newsletter!\nVisit "@ + link + " to confirm your subscription."@
}

/// The HTML body of the confirmation e-mail.
pub open spec fn confirmation_html_body(link: Seq<char>) -> Seq<char> {
    "Welcome to our newsletter!<br />Click <a href=\""@ + link
        + "\">here</a> to confirm your subscription."@
}

/// Whether the message is exactly the confirmation e-mail for this
/// recipient, base URL and token.
pub open spec fn is_confirmation_email(
    m: EmailMessage,
    to: Seq<char>,
    base_url: Seq<char>,
    token: Seq<char>,
) -> bool {
    &&& m.to@ == to
    &&& m.subject@ == "Welcome!"@
    &&& m.text_body@ == confirmation_text_body(confirmation_link_text(base_url, token))
    &&& m.html_body@ == confirmation_html_body(confirmation_link_text(base_url, token))
}

/// Build and dispatch the confirmation e-mail whose link embeds the token.
/// `outcome` is the transport's answer: on `None` exactly that message lands
/// in the outbox; on `Some(cause)` nothing is delivered.
pub fn send_confirmation_email(
    outbox: &mut Vec<EmailMessage>,
    new_subscriber: NewSubscriber,
    base_url: &str,
    subscription_token: &str,
    outcome: &Option<String>,
) -> (r: Result<(), String>)
    ensures
        r is Ok <==> outcome is None,
        outcome is None ==> ({
            &&& final(outbox)@.len() == old(outbox)@.len() + 1
            &&& final(outbox)@.drop_last() == old(outbox)@
            &&& is_confirmation_email(
                final(outbox)@.last(),
                new_subscriber.email@,
                base_url@,
                subscription_token@,
            )
        }),
        outcome is Some ==> final(outbox)@ == old(outbox)@,
        r matches Err(c) ==> outcome matches Some(cause) && c@ == cause@,
{
    let mut confirmation_link = base_url.to_owned();
    confirmation_link.append("/subscriptions/confirm?subscription_token=");
    confirmation_link.append(subscription_token);

    let mut plain_body = "Welcome to our newsletter!\nVisit ".to_owned();
    plain_body.append(confirmation_link.as_str());
    plain_body.append(" to confirm your subscription.");

    let mut html_body = "Welcome to our newsletter!<br />Click <a href=\"".to_owned();
    html_body.append(confirmation_link.as_str());
    html_body.append("\">here</a> to confirm your subscription.");

    let message = EmailMessage {
        to: new_subscriber.email.as_ref().to_owned(),
        subject: "Welcome!".to_owned(),
        html_body,
        text_body: plain_body,
    };
    let ghost before = outbox@;
    let r = send_email(outbox, message, outcome);
    proof {
        if outcome is None {
            assert(outbox@.drop_last() =~= before);
        }
    }
    r
}

/// The outcome of every outside operation during one workflow run: `None`
/// means that operation succeeds against the model gateways, `Some(cause)`
/// that it fails with that underlying cause.
pub struct FaultPlan {
    pub begin: Option<String>,
    pub insert: Option<String>,
    pub store_token: Option<String>,
    pub commit: Option<String>,
    pub send_email: Option<String>,
}

impl FaultPlan {
    /// Every outside operation succeeds.
    pub fn none() -> (r: FaultPlan)
        ensures
            r.begin is None,
            r.insert is None,
            r.store_token is None,
            r.commit is None,
            r.send_email is None,
    {
        FaultPlan {
            begin: None,
            insert: None,
            store_token: None,
            commit: None,
            send_email: None,
        }
    }
}

/// Whether a run over this form and these outcomes reaches a successful
/// commit: the form is valid and every store operation up to and including
/// the commit succeeds.
pub open spec fn commits(form: FormData, faults: FaultPlan) -> bool {
    &&& valid_form(form)
    &&& faults.begin is None
    &&& faults.insert is None
    &&& faults.store_token is None
    &&& faults.commit is None
}

fn unexpected_one(cause: String, stage: &str) -> (e: SubscribeError)
    ensures
        e matches SubscribeError::UnexpectedError(causes, m) && causes.deep_view() == seq![cause@]
            && m@ == stage@,
{
    let mut causes: Vec<String> = Vec::new();
    let ghost cause_text = cause@;
    causes.push(cause);
    proof {
        assert(causes.deep_view() =~= seq![cause_text]);
    }
    SubscribeError::UnexpectedError(causes, stage.to_owned())
}

/// The subscription intake workflow: validate the form, then — inside one
/// transaction — insert the subscriber with status `pending_confirmation`
/// and store a fresh 25-character confirmation token, commit, and only then
/// dispatch the confirmation e-mail. The first failure aborts the run; a
/// failure before or at the commit leaves the store exactly as it was, and
/// no e-mail is ever dispatched before the commit has succeeded.
pub fn subscribe(
    form: FormData,
    base_url: &str,
    store: &mut StoreModel,
    outbox: &mut Vec<EmailMessage>,
    faults: &FaultPlan,
) -> (r: Result<(), SubscribeError>)
    ensures
        r is Ok <==> commits(form, *faults) && faults.send_email is None,
        // Atomicity: nothing is durably visible unless the commit succeeded.
        !commits(form, *faults) ==> *final(store) == *old(store),
        // Ordering: no e-mail is delivered unless the commit succeeded.
        !(commits(form, *faults) && faults.send_email is None) ==> final(outbox)@ == old(
            outbox,
        )@,
        // A committed run adds exactly the subscriber row and its token row.
        commits(form, *faults) ==> ({
            let subs = final(store).subscriptions@;
            let toks = final(store).tokens@;
            &&& subs.len() == old(store).subscriptions@.len() + 1
            &&& subs.drop_last() == old(store).subscriptions@
            &&& toks.len() == old(store).tokens@.len() + 1
            &&& toks.drop_last() == old(store).tokens@
            &&& subs.last().email@ == form.email@
            &&& subs.last().name@ == form.name@
            &&& subs.last().status is PendingConfirmation
            &&& toks.last().subscriber_id == subs.last().id
            &&& toks.last().subscription_token@.len() == 25
            &&& all_token_chars(toks.last().subscription_token@)
        }),
        // A fully successful run delivers exactly the confirmation e-mail,
        // carrying the very token that was committed.
        commits(form, *faults) && faults.send_email is None ==> ({
            &&& final(outbox)@.len() == old(outbox)@.len() + 1
            &&& final(outbox)@.drop_last() == old(outbox)@
            &&& is_confirmation_email(
                final(outbox)@.last(),
                form.email@,
                base_url@,
                final(store).tokens@.last().subscription_token@,
            )
        }),
        // Classification of the first failure, stage by stage.
        !valid_form(form) ==> (r matches Err(e) && e matches SubscribeError::ValidationError(m) && (
        !name_ok(form.name@) ==> m@ == form.name@ + " is not a valid subscriber name."@) && (
        name_ok(form.name@) ==> m@ == form.email@ + " is not a valid subscriber email."@)),
        valid_form(form) && faults.begin is Some ==> (r matches Err(e) && e matches
            SubscribeError::UnexpectedError(causes, m) && causes.deep_view() == seq![
            faults.begin->0@] && m@ == "Failed to acquire a Postgres connection from the pool"@),
        valid_form(form) && faults.begin is None && faults.insert is Some ==> (r matches Err(e)
            && e matches SubscribeError::UnexpectedError(causes, m) && causes.deep_view()
            == seq![faults.insert->0@] && m@
            == "Failed to insert new subscriber in the database."@),
        valid_form(form) && faults.begin is None && faults.insert is None && faults.store_token
            is Some ==> (r matches Err(e) && e matches SubscribeError::UnexpectedError(causes, m)
            && causes.deep_view() == seq![
            "A database error was encountered while trying to store a subscription token."@,
            faults.store_token->0@,
        ] && m@ == "Failed to store the confirmation token for a new subscriber."@),
        valid_form(form) && faults.begin is None && faults.insert is None && faults.store_token
            is None && faults.commit is Some ==> (r matches Err(e) && e matches
            SubscribeError::UnexpectedError(causes, m) && causes.deep_view() == seq![
            faults.commit->0@] && m@
            == "Failed to commit SQL transaction to store a new subscriber."@),
        commits(form, *faults) && faults.send_email is Some ==> (r matches Err(e) && e matches
            SubscribeError::UnexpectedError(causes, m) && causes.deep_view() == seq![
            faults.send_email->0@] && m@ == "Failed to send a confirmation email."@),
{
    let new_subscriber = match NewSubscriber::try_from(form) {
        Ok(s) => s,
        Err(m) => {
            return Err(SubscribeError::ValidationError(m));
        },
    };
    let mut transaction = match store.begin(&faults.begin) {
        Ok(t) => t,
        Err(cause) => {
            return Err(
                unexpected_one(cause, "Failed to acquire a Postgres connection from the pool"),
            );
        },
    };
    let subscriber_id = match insert_subscriber(
        &mut transaction,
        &new_subscriber,
        &faults.insert,
    ) {
        Ok(id) => id,
        Err(cause) => {
            return Err(unexpected_one(cause, "Failed to insert new subscriber in the database."));
        },
    };
    let subscription_token = generate_subscription_token();
    match store_token(
        &mut transaction,
        subscriber_id,
        subscription_token.as_str(),
        &faults.store_token,
    ) {
        Ok(_) => {},
        Err(e) => {
            let mut causes: Vec<String> = Vec::new();
            let ghost wrapper_text =
                "A database error was encountered while trying to store a subscription token."@;
            let ghost cause_text = e.0@;
            causes.push(e.message().to_owned());
            causes.push(e.0);
            proof {
                assert(causes.deep_view() =~= seq![wrapper_text, cause_text]);
            }
            return Err(
                SubscribeError::UnexpectedError(
                    causes,
                    "Failed to store the confirmation token for a new subscriber.".to_owned(),
                ),
            );
        },
    }
    match store.commit(transaction, &faults.commit) {
        Ok(_) => {},
        Err(cause) => {
            return Err(
                unexpected_one(cause, "Failed to commit SQL transaction to store a new subscriber."),
            );
        },
    }
    match send_confirmation_email(
        outbox,
        new_subscriber,
        base_url,
        subscription_token.as_str(),
        &faults.send_email,
    ) {
        Ok(_) => {},
        Err(cause) => {
            return Err(unexpected_one(cause, "Failed to send a confirmation email."));
        },
    }
    Ok(())
}

} // verus!
