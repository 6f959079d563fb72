//! The newsletter fan-out publisher: load the confirmed subscribers,
//! re-validate each stored address, and dispatch the issue to every valid
//! recipient in order, tolerating malformed rows and aborting on the first
//! dispatch failure.

use vstd::prelude::*;
use vstd::string::StringExecFns;
use crate::domain::{email_ok, SubscriberEmail};
use crate::email_client::{send_email, EmailMessage};
use crate::errors::PublishError;
use crate::store::{StoreModel, SubscriptionRow};

verus! {

/// A newsletter issue as submitted by the operator.
pub struct BodyData {
    pub title: String,
    pub content: Content,
}

/// The two renderings of the issue's body.
pub struct Content {
    pub html: String,
    pub text: String,
}

/// A subscriber read back from the store, its address re-validated.
pub struct ConfirmedSubscriber {
    pub email: SubscriberEmail,
}

/// The stored e-mail strings of the confirmed rows, in table order.
pub open spec fn confirmed_emails(rows: Seq<SubscriptionRow>) -> Seq<Seq<char>>
    decreases rows.len(),
{
    if rows.len() == 0 {
        Seq::empty()
    } else {
        let prefix = confirmed_emails(rows.drop_last());
        if rows.last().status is Confirmed {
            prefix.push(rows.last().email@)
        } else {
            prefix
        }
    }
}

/// The confirmed rows whose stored address still parses: the issue's
/// recipients, in table order.
pub open spec fn valid_recipients(rows: Seq<SubscriptionRow>) -> Seq<Seq<char>>
    decreases rows.len(),
{
    if rows.len() == 0 {
        Seq::empty()
    } else {
        let prefix = valid_recipients(rows.drop_last());
        if rows.last().status is Confirmed && email_ok(rows.last().email@) {
            prefix.push(rows.last().email@)
        } else {
            prefix
        }
    }
}

/// How one loaded entry must relate to the stored address it came from:
/// re-validation keeps exactly the addresses that still parse and records a
/// diagnostic for each one that does not.
pub open spec fn loaded_entry_ok(
    entry: Result<ConfirmedSubscriber, String>,
    email: Seq<char>,
) -> bool {
    &&& entry is Ok <==> email_ok(email)
    &&& entry matches Ok(s) ==> s.email@ == email
    &&& entry matches Err(m) ==> m@ == email + " is not a valid subscriber email."@
}

/// The addresses of the entries that parsed, in order.
pub open spec fn ok_emails(entries: Seq<Result<ConfirmedSubscriber, String>>) -> Seq<Seq<char>>
    decreases entries.len(),
{
    if entries.len() == 0 {
        Seq::empty()
    } else {
        let prefix = ok_emails(entries.drop_last());
        if entries.last() is Ok {
            prefix.push(entries.last()->Ok_0.email@)
        } else {
            prefix
        }
    }
}

/// Load every stored row with status `confirmed`, re-validating each stored
/// address. A row whose address no longer parses is kept as a diagnostic
/// entry, not dropped and not a failure.
pub fn get_confirmed_subscribers(store: &StoreModel) -> (r: Vec<
    Result<ConfirmedSubscriber, String>,
>)
    ensures
        r@.len() == confirmed_emails(store.subscriptions@).len(),
        forall|i: int|
            0 <= i < r@.len() ==> loaded_entry_ok(
                r@[i],
                confirmed_emails(store.subscriptions@)[i],
            ),
        ok_emails(r@) == valid_recipients(store.subscriptions@),
{
    let rows = &store.subscriptions;
    let ghost all = store.subscriptions@;
    let mut out: Vec<Result<ConfirmedSubscriber, String>> = Vec::new();
    let mut i: usize = 0;
    while i < rows.len()
        invariant
            rows@ == all,
            0 <= i <= all.len(),
            out@.len() == confirmed_emails(all.take(i as int)).len(),
            forall|j: int|
                0 <= j < out@.len() ==> loaded_entry_ok(
                    out@[j],
                    confirmed_emails(all.take(i as int))[j],
                ),
            ok_emails(out@) == valid_recipients(all.take(i as int)),
        decreases all.len() - i,
    {
        let row = &rows[i];
        proof {
            assert(all.take(i + 1).drop_last() =~= all.take(i as int));
            assert(all.take(i + 1).last() == all[i as int]);
        }
        if row.status == crate::store::SubscriptionStatus::Confirmed {
            let ghost out_before = out@;
            match SubscriberEmail::parse(row.email.clone()) {
                Ok(email) => out.push(Ok(ConfirmedSubscriber { email })),
                Err(m) => out.push(Err(m)),
            }
            proof {
                assert(out@.drop_last() =~= out_before);
            }
        }
        i += 1;
    }
    proof {
        assert(all.take(all.len() as int) =~= all);
    }
    out
}

/// Whether the `k`-th dispatch succeeds under these transport outcomes; an
/// attempt past the end of the list succeeds.
pub open spec fn send_ok(outcomes: Seq<Option<String>>, k: int) -> bool {
    k >= outcomes.len() || outcomes[k] is None
}

/// Whether the message is the given issue addressed to the given recipient.
pub open spec fn is_issue_email(m: EmailMessage, body: BodyData, to: Seq<char>) -> bool {
    &&& m.to@ == to
    &&& m.subject@ == body.title@
    &&& m.html_body@ == body.content.html@
    &&& m.text_body@ == body.content.text@
}

/// The addresses of a prefix of the loaded entries that parsed are a prefix
/// of the addresses of all the entries that parsed.
proof fn lemma_ok_emails_take_prefix(
    entries: Seq<Result<ConfirmedSubscriber, String>>,
    j: int,
)
    requires
        0 <= j <= entries.len(),
    ensures
        ok_emails(entries.take(j)).len() <= ok_emails(entries).len(),
        ok_emails(entries.take(j)) == ok_emails(entries).take(
            ok_emails(entries.take(j)).len() as int,
        ),
    decreases entries.len() - j,
{
    if j == entries.len() {
        assert(entries.take(j) =~= entries);
        assert(ok_emails(entries).take(ok_emails(entries).len() as int) =~= ok_emails(entries));
    } else {
        lemma_ok_emails_take_prefix(entries, j + 1);
        let shorter = ok_emails(entries.take(j));
        let longer = ok_emails(entries.take(j + 1));
        assert(entries.take(j + 1).drop_last() =~= entries.take(j));
        assert(entries.take(j + 1).last() == entries[j]);
        if entries[j] is Ok {
            assert(longer == shorter.push(entries[j]->Ok_0.email@));
            assert(shorter =~= longer.take(shorter.len() as int));
            assert(ok_emails(entries).take(shorter.len() as int) =~= longer.take(
                shorter.len() as int,
            ));
        } else {
            assert(longer == shorter);
        }
    }
}

/// Publish one issue: dispatch it to every valid recipient, one send at a
/// time, in table order. A malformed stored address is skipped, never a
/// failure; the first dispatch failure aborts the run with a
/// `PublishError` naming the recipient, and nothing past the failed send is
/// attempted. `send_outcomes` is the transport's answer per attempted send
/// (`None`, or missing, for a delivery; `Some(cause)` for a failure).
#[verifier::loop_isolation(false)]
pub fn publish_newsletter(
    body: &BodyData,
    store: &StoreModel,
    outbox: &mut Vec<EmailMessage>,
    send_outcomes: &Vec<Option<String>>,
) -> (r: Result<(), PublishError>)
    ensures
        ({
            let recipients = valid_recipients(store.subscriptions@);
            let delivered = final(outbox)@.skip(old(outbox)@.len() as int);
            &&& final(outbox)@.len() >= old(outbox)@.len()
            &&& final(outbox)@.take(old(outbox)@.len() as int) == old(outbox)@
            &&& (r is Ok <==> (forall|k: int|
                0 <= k < recipients.len() ==> send_ok(send_outcomes@, k)))
            &&& (r is Ok ==> delivered.len() == recipients.len())
            &&& (forall|k: int|
                0 <= k < delivered.len() ==> is_issue_email(delivered[k], *body, recipients[k]))
            &&& (r matches Err(e) ==> ({
                let k = delivered.len() as int;
                &&& 0 <= k < recipients.len()
                &&& forall|j: int| 0 <= j < k ==> send_ok(send_outcomes@, j)
                &&& !send_ok(send_outcomes@, k)
                &&& e matches PublishError::UnexpectedError(m, causes) && m@
                    == "Failed to send newsletter issue to "@ + recipients[k]
                    && causes.deep_view() == seq![send_outcomes@[k]->0@]
            }))
        }),
{
    let subscribers = get_confirmed_subscribers(store);
    let ghost recipients = valid_recipients(store.subscriptions@);
    let ghost original = outbox@;
    let none_outcome: Option<String> = None;
    let mut attempt: usize = 0;
    let mut i: usize = 0;
    while i < subscribers.len()
        invariant
            ok_emails(subscribers@) == recipients,
            0 <= i <= subscribers@.len(),
            attempt <= i,
            attempt == ok_emails(subscribers@.take(i as int)).len(),
            ok_emails(subscribers@.take(i as int)) == recipients.take(attempt as int),
            attempt <= recipients.len(),
            forall|j: int| 0 <= j < attempt ==> send_ok(send_outcomes@, j),
            outbox@.len() == original.len() + attempt,
            outbox@.take(original.len() as int) == original,
            forall|k: int|
                0 <= k < attempt ==> is_issue_email(
                    outbox@[original.len() + k],
                    *body,
                    recipients[k],
                ),
        decreases subscribers@.len() - i,
    {
        proof {
            lemma_ok_emails_take_prefix(subscribers@, i + 1);
            assert(subscribers@.take(i + 1).drop_last() =~= subscribers@.take(i as int));
            assert(subscribers@.take(i + 1).last() == subscribers@[i as int]);
        }
        match &subscribers[i] {
            Ok(subscriber) => {
                proof {
                    assert(ok_emails(subscribers@.take(i + 1)) == ok_emails(
                        subscribers@.take(i as int),
                    ).push(subscriber.email@));
                    assert(ok_emails(subscribers@.take(i + 1)) == recipients.take(attempt + 1));
                    assert(recipients[attempt as int] == recipients.take(attempt + 1)[
                        attempt as int]);
                    assert(recipients[attempt as int] == subscriber.email@);
                }
                let mut failure_note = "Failed to send newsletter issue to ".to_owned();
                failure_note.append(subscriber.email.as_ref());
                let message = EmailMessage {
                    to: subscriber.email.as_ref().to_owned(),
                    subject: body.title.clone(),
                    html_body: body.content.html.clone(),
                    text_body: body.content.text.clone(),
                };
                let outcome: &Option<String> = if attempt < send_outcomes.len() {
                    &send_outcomes[attempt]
                } else {
                    &none_outcome
                };
                let ghost outbox_before = outbox@;
                match send_email(outbox, message, outcome) {
                    Ok(_) => {
                        proof {
                            assert(outbox@.take(original.len() as int) =~= outbox_before.take(
                                original.len() as int,
                            ));
                            assert forall|k: int|
                                0 <= k < attempt + 1 implies is_issue_email(
                                #[trigger] outbox@[original.len() + k],
                                *body,
                                recipients[k],
                            ) by {
                                if k == attempt {
                                    assert(outbox@[original.len() + k] == message);
                                } else {
                                    assert(outbox@[original.len() + k] == outbox_before[
                                        original.len() + k]);
                                }
                            }
                        }
                        attempt = attempt + 1;
                    },
                    Err(cause) => {
                        let mut causes: Vec<String> = Vec::new();
                        let ghost cause_text = cause@;
                        causes.push(cause);
                        proof {
                            assert(causes.deep_view() =~= seq![cause_text]);
                            let delivered = outbox@.skip(original.len() as int);
                            assert(delivered.len() == attempt);
                            assert forall|k: int|
                                0 <= k < delivered.len() implies is_issue_email(
                                #[trigger] delivered[k],
                                *body,
                                recipients[k],
                            ) by {
                                assert(delivered[k] == outbox@[original.len() + k]);
                            }
                            assert(!send_ok(send_outcomes@, attempt as int));
                        }
                        return Err(PublishError::UnexpectedError(failure_note, causes));
                    },
                }
            },
            Err(_) => {
                proof {
                    assert(ok_emails(subscribers@.take(i + 1)) == ok_emails(
                        subscribers@.take(i as int),
                    ));
                }
            },
        }
        i += 1;
    }
    proof {
        assert(subscribers@.take(subscribers@.len() as int) =~= subscribers@);
        assert(recipients.take(recipients.len() as int) =~= recipients);
    }
    Ok(())
}

} // verus!
