//! Domain validators: untrusted strings become validated value types.

use vstd::prelude::*;
use vstd::string::StringExecFns;
use vstd::string::StrSliceExecFns;
use validator::ValidateEmail;

verus! {

/// Whether the string is a well-formed e-mail address in the eyes of the
/// outside validator. The full rule set (an HTML5-style shape check) is the
/// validator's own; the library relies on it by name only.
pub uninterp spec fn email_ok(s: Seq<char>) -> bool;

/// Relies on validator's `ValidateEmail` for `str`: the verdict depends on the
/// characters alone, and the empty string, a string without `'@'`, a string
/// whose local part (before the last `'@'`) is empty, and a string whose
/// domain part (after the last `'@'`) is empty are all rejected.
#[verifier::external_body]
fn email_is_valid(s: &str) -> (r: bool)
    ensures
        r == email_ok(s@),
        s@.len() == 0 ==> !r,
        (forall|i: int| 0 <= i < s@.len() ==> s@[i] != '@') ==> !r,
        s@.len() > 0 && s@[s@.len() - 1] == '@' ==> !r,
        s@.len() > 0 && s@[0] == '@' && (forall|i: int|
            1 <= i < s@.len() ==> s@[i] != '@') ==> !r,
{
    s.validate_email()
}

/// A validated subscriber e-mail address. Construction goes through
/// [`SubscriberEmail::parse`] alone, so a value of this type always satisfies
/// [`email_ok`].
#[derive(Debug)]
pub struct SubscriberEmail(String);

impl View for SubscriberEmail {
    type V = Seq<char>;

    closed spec fn view(&self) -> Seq<char> {
        self.0@
    }
}

impl SubscriberEmail {
    /// The type's invariant: the wrapped string passed validation.
    pub closed spec fn wf(&self) -> bool {
        email_ok(self.0@)
    }

    /// Turns a raw string into a validated e-mail address, or reports why it
    /// was rejected. Succeeds exactly on the strings the outside validator
    /// accepts; in particular every string without an `'@'`, or with an empty
    /// local or domain part, is rejected.
    pub fn parse(s: String) -> (r: Result<SubscriberEmail, String>)
        ensures
            r is Ok <==> email_ok(s@),
            r matches Ok(e) ==> e@ == s@ && e.wf(),
            r matches Err(m) ==> m@ == s@ + " is not a valid subscriber email."@,
            s@.len() == 0 ==> r is Err,
            (forall|i: int| 0 <= i < s@.len() ==> s@[i] != '@') ==> r is Err,
            s@.len() > 0 && s@[s@.len() - 1] == '@' ==> r is Err,
            s@.len() > 0 && s@[0] == '@' && (forall|i: int|
                1 <= i < s@.len() ==> s@[i] != '@') ==> r is Err,
    {
        if email_is_valid(s.as_str()) {
            Ok(SubscriberEmail(s))
        } else {
            let mut message = s;
            message.append(" is not a valid subscriber email.");
            Err(message)
        }
    }

    /// The wrapped string, unchanged since validation.
    pub fn as_ref(&self) -> (r: &str)
        ensures
            r@ == self@,
    {
        self.0.as_str()
    }
}

/// Characters counted as blank when deciding whether a name is visible.
pub open spec fn is_blank_char(c: char) -> bool {
    c == ' ' || c == '\t' || c == '\n' || c == '\r'
}

/// Characters a display name may never contain.
pub open spec fn is_forbidden_name_char(c: char) -> bool {
    ||| c == '/'
    ||| c == '('
    ||| c == ')'
    ||| c == '"'
    ||| c == '<'
    ||| c == '>'
    ||| c == '\\'
    ||| c == '{'
    ||| c == '}'
}

/// Whether the string is acceptable as a subscriber's display name: at most
/// 256 characters, at least one of them not blank, none of them forbidden.
pub open spec fn name_ok(s: Seq<char>) -> bool {
    &&& s.len() <= 256
    &&& exists|i: int| 0 <= i < s.len() && !is_blank_char(s[i])
    &&& forall|i: int| 0 <= i < s.len() ==> !is_forbidden_name_char(s[i])
}

fn is_blank(c: char) -> (r: bool)
    ensures
        r == is_blank_char(c),
{
    c == ' ' || c == '\t' || c == '\n' || c == '\r'
}

fn is_forbidden(c: char) -> (r: bool)
    ensures
        r == is_forbidden_name_char(c),
{
    c == '/' || c == '(' || c == ')' || c == '"' || c == '<' || c == '>' || c == '\\'
        || c == '{' || c == '}'
}

fn name_error(s: String) -> (r: String)
    ensures
        r@ == s@ + " is not a valid subscriber name."@,
{
    let mut message = s;
    message.append(" is not a valid subscriber name.");
    message
}

/// A validated subscriber display name. Construction goes through
/// [`SubscriberName::parse`] alone, so a value of this type always satisfies
/// [`name_ok`].
#[derive(Debug)]
pub struct SubscriberName(String);

impl View for SubscriberName {
    type V = Seq<char>;

    closed spec fn view(&self) -> Seq<char> {
        self.0@
    }
}

impl SubscriberName {
    /// The type's invariant: the wrapped string passed validation.
    pub closed spec fn wf(&self) -> bool {
        name_ok(self.0@)
    }

    /// Turns a raw string into a validated display name, or reports why it
    /// was rejected: empty or blank-only input, more than 256 characters, or
    /// a forbidden character.
    pub fn parse(s: String) -> (r: Result<SubscriberName, String>)
        ensures
            r is Ok <==> name_ok(s@),
            r matches Ok(n) ==> n@ == s@ && n.wf(),
            r matches Err(m) ==> m@ == s@ + " is not a valid subscriber name."@,
    {
        let len = s.as_str().unicode_len();
        if len > 256 {
            return Err(name_error(s));
        }
        let mut has_visible = false;
        let mut i: usize = 0;
        while i < len
            invariant
                len == s@.len(),
                len <= 256,
                0 <= i <= len,
                has_visible <==> exists|j: int| 0 <= j < i && !is_blank_char(s@[j]),
                forall|j: int| 0 <= j < i ==> !is_forbidden_name_char(s@[j]),
            decreases len - i,
        {
            let c = s.as_str().get_char(i);
            if is_forbidden(c) {
                return Err(name_error(s));
            }
            if !is_blank(c) {
                has_visible = true;
            }
            i += 1;
        }
        if !has_visible {
            return Err(name_error(s));
        }
        Ok(SubscriberName(s))
    }

    /// The wrapped string, unchanged since validation.
    pub fn as_ref(&self) -> (r: &str)
        ensures
            r@ == self@,
    {
        self.0.as_str()
    }
}

/// A subscription request whose fields both passed validation. Never built
/// from unchecked strings.
#[derive(Debug)]
pub struct NewSubscriber {
    pub email: SubscriberEmail,
    pub name: SubscriberName,
}

impl NewSubscriber {
    /// Both fields satisfy their validators.
    pub open spec fn wf(&self) -> bool {
        self.email.wf() && self.name.wf()
    }
}

} // verus!
