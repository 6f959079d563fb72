//! Confirmation-token generation.

use vstd::prelude::*;
use rand::RngExt;

verus! {

/// The alphabet a confirmation token is drawn from: ASCII letters and digits,
/// case-sensitive.
pub open spec fn is_token_char(c: char) -> bool {
    ||| 'a' <= c <= 'z'
    ||| 'A' <= c <= 'Z'
    ||| '0' <= c <= '9'
}

/// A whole string over the token alphabet.
pub open spec fn all_token_chars(s: Seq<char>) -> bool {
    forall|i: int| 0 <= i < s.len() ==> is_token_char(s[i])
}

/// Relies on rand's `Alphanumeric` distribution: every sample is one of the
/// 62 ASCII letters or digits, drawn uniformly.
#[verifier::external_body]
fn sample_alphanumeric() -> (c: char)
    ensures
        is_token_char(c),
{
    let b: u8 = rand::rng().sample(rand::distr::Alphanumeric);
    b as char
}

/// Relies on `String::push`: appends exactly the given character.
#[verifier::external_body]
fn push_char(s: &mut String, c: char)
    ensures
        final(s)@ == old(s)@.push(c),
{
    s.push(c);
}

/// Generate a random 25-character case-sensitive alphanumeric subscription
/// token. Never fails.
pub fn generate_subscription_token() -> (r: String)
    ensures
        r@.len() == 25,
        all_token_chars(r@),
{
    let mut token = String::new();
    let mut i: usize = 0;
    while i < 25
        invariant
            0 <= i <= 25,
            token@.len() == i,
            all_token_chars(token@),
        decreases 25 - i,
    {
        let c = sample_alphanumeric();
        push_char(&mut token, c);
        i += 1;
    }
    token
}

} // verus!
