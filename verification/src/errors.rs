//! Error taxonomy: internal failure causes mapped to a small client-facing
//! classification, with the causal chain kept for operator diagnostics.

use vstd::prelude::*;
use vstd::string::StringExecFns;

verus! {

/// One rendered link of a causal chain.
pub open spec fn cause_line(cause: Seq<char>) -> Seq<char> {
    "Caused by: \n\t"@ + cause + "\n"@
}

/// The rendered tail of a causal chain, outermost cause first.
pub open spec fn causes_text(causes: Seq<Seq<char>>) -> Seq<char>
    decreases causes.len(),
{
    if causes.len() == 0 {
        Seq::empty()
    } else {
        causes_text(causes.drop_last()) + cause_line(causes.last())
    }
}

/// The operator-facing rendering of an error: its own message, a blank line,
/// then every wrapped cause on a line of its own.
pub open spec fn chain_text(message: Seq<char>, causes: Seq<Seq<char>>) -> Seq<char> {
    message + "\n\n"@ + causes_text(causes)
}

/// Render an error message together with its whole causal chain, outermost
/// cause first. This diagnostic form is for operator logs only; clients see
/// just the mapped status and the terse message.
pub fn error_chain_fmt(message: &str, causes: &Vec<String>) -> (r: String)
    ensures
        r@ == chain_text(message@, causes.deep_view()),
{
    let ghost all: Seq<Seq<char>> = causes.deep_view();
    let mut out = message.to_owned();
    out.append("\n\n");
    let mut i: usize = 0;
    while i < causes.len()
        invariant
            0 <= i <= causes.len(),
            all == causes.deep_view(),
            all.len() == causes@.len(),
            forall|j: int| 0 <= j < causes@.len() ==> all[j] == causes@[j]@,
            out@ == chain_text(message@, all.take(i as int)),
        decreases causes.len() - i,
    {
        out.append("Caused by: \n\t");
        out.append(causes[i].as_str());
        out.append("\n");
        proof {
            assert(all.take(i + 1).drop_last() =~= all.take(i as int));
            assert(all.take(i + 1).last() == all[i as int]);
            assert(out@ =~= chain_text(message@, all.take(i + 1)));
        }
        i += 1;
    }
    proof {
        assert(all.take(causes@.len() as int) =~= all);
    }
    out
}

/// Wrapper a store failure is carried in while storing a confirmation token,
/// so that the workflow can attach its own message and keep the store's own
/// report as the root cause.
pub struct StoreTokenError(pub String);

impl StoreTokenError {
    /// The terse, client-safe description.
    pub fn message(&self) -> (r: &str)
        ensures
            r@ == "A database error was encountered while trying to store a subscription token."@,
    {
        "A database error was encountered while trying to store a subscription token."
    }

    /// The store's own report: the root cause of this failure.
    pub fn source(&self) -> (r: &String)
        ensures
            r@ == self.0@,
    {
        &self.0
    }

    /// The operator-facing rendering: message, then the root cause.
    pub fn debug_report(&self) -> (r: String)
        ensures
            r@ == chain_text(
                "A database error was encountered while trying to store a subscription token."@,
                seq![self.0@],
            ),
    {
        let mut causes: Vec<String> = Vec::new();
        causes.push(self.0.clone());
        proof {
            assert(causes.deep_view() =~= seq![self.0@]);
        }
        error_chain_fmt(self.message(), &causes)
    }
}

/// Everything that can go wrong while handling a subscription request.
/// `ValidationError` is the caller's fault; `UnexpectedError` carries the
/// causal chain (outermost cause first) and a stage description.
pub enum SubscribeError {
    ValidationError(String),
    UnexpectedError(Vec<String>, String),
}

impl SubscribeError {
    /// The terse message a client may see.
    pub open spec fn spec_message(&self) -> Seq<char> {
        match self {
            SubscribeError::ValidationError(m) => m@,
            SubscribeError::UnexpectedError(_, m) => m@,
        }
    }

    /// The wrapped causal chain, outermost cause first.
    pub open spec fn spec_causes(&self) -> Seq<Seq<char>> {
        match self {
            SubscribeError::ValidationError(_) => Seq::empty(),
            SubscribeError::UnexpectedError(causes, _) => causes.deep_view(),
        }
    }

    /// The terse message a client may see.
    pub fn message(&self) -> (r: &str)
        ensures
            r@ == self.spec_message(),
    {
        match self {
            SubscribeError::ValidationError(m) => m.as_str(),
            SubscribeError::UnexpectedError(_, m) => m.as_str(),
        }
    }

    /// The HTTP status this failure maps to: a validation failure is the
    /// caller's to correct, everything else is opaque to the caller.
    pub fn status_code(&self) -> (r: u16)
        ensures
            self is ValidationError ==> r == 400,
            self is UnexpectedError ==> r == 500,
    {
        match self {
            SubscribeError::ValidationError(_) => 400,
            SubscribeError::UnexpectedError(_, _) => 500,
        }
    }

    /// The operator-facing rendering with the whole causal chain.
    pub fn debug_report(&self) -> (r: String)
        ensures
            r@ == chain_text(self.spec_message(), self.spec_causes()),
    {
        match self {
            SubscribeError::ValidationError(m) => {
                let causes: Vec<String> = Vec::new();
                proof {
                    assert(causes.deep_view() =~= Seq::<Seq<char>>::empty());
                }
                error_chain_fmt(m.as_str(), &causes)
            },
            SubscribeError::UnexpectedError(causes, m) => error_chain_fmt(m.as_str(), causes),
        }
    }
}

/// Everything that can go wrong while publishing a newsletter issue. The one
/// kind wraps a dispatch (or read) failure: a message and the causal chain,
/// outermost cause first.
pub enum PublishError {
    UnexpectedError(String, Vec<String>),
}

impl PublishError {
    /// The terse message a client may see.
    pub open spec fn spec_message(&self) -> Seq<char> {
        match self {
            PublishError::UnexpectedError(m, _) => m@,
        }
    }

    /// The wrapped causal chain, outermost cause first.
    pub open spec fn spec_causes(&self) -> Seq<Seq<char>> {
        match self {
            PublishError::UnexpectedError(_, causes) => causes.deep_view(),
        }
    }

    /// The terse message a client may see.
    pub fn message(&self) -> (r: &str)
        ensures
            r@ == self.spec_message(),
    {
        match self {
            PublishError::UnexpectedError(m, _) => m.as_str(),
        }
    }

    /// The HTTP status this failure maps to; nothing here is the caller's
    /// fault.
    pub fn status_code(&self) -> (r: u16)
        ensures
            r == 500,
    {
        match self {
            PublishError::UnexpectedError(_, _) => 500,
        }
    }

    /// The operator-facing rendering with the whole causal chain.
    pub fn debug_report(&self) -> (r: String)
        ensures
            r@ == chain_text(self.spec_message(), self.spec_causes()),
    {
        match self {
            PublishError::UnexpectedError(m, causes) => error_chain_fmt(m.as_str(), causes),
        }
    }
}

} // verus!
