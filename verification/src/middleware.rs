//! The request guard: finding the bearer token of a request's
//! `Authorization` header, and what the guard answers once the token has
//! been validated.

use vstd::prelude::*;
use vstd::string::*;
use crate::claims::Claims;
use crate::config::opt_view;
use crate::text::{has_prefix, starts_with_text};

verus! {

/// The scheme prefix of a bearer `Authorization` header.
pub open spec fn bearer_prefix() -> Seq<char> {
    "Bearer "@
}

/// The token an `Authorization` header carries: what follows `Bearer ` when
/// the header starts with it; none when the header is absent or has another
/// form.
pub open spec fn spec_bearer_token(header: Option<Seq<char>>) -> Option<Seq<char>> {
    match header {
        Some(h) => if has_prefix(h, bearer_prefix()) {
            Some(h.skip(bearer_prefix().len() as int))
        } else {
            None
        },
        None => None,
    }
}

/// The text of the refusal of a request without a bearer token.
pub open spec fn missing_token_message() -> Seq<char> {
    "Token not provided"@
}

/// The text of the refusal of a request whose token did not validate, for
/// the validation error `e`.
pub open spec fn spec_invalid_token_message(e: Seq<char>) -> Seq<char> {
    "Invalid token: "@ + e
}

/// The token of an `Authorization` header value, if it is a bearer header.
pub fn bearer_token(header: Option<&str>) -> (r: Option<&str>)
    ensures
        opt_view(r) == spec_bearer_token(opt_view(header)),
{
    proof { reveal_strlit("Bearer "); }
    match header {
        Some(h) => {
            if starts_with_text(h, "Bearer ") {
                let n: usize = h.unicode_len();
                Some(h.substring_char(7, n))
            } else {
                None
            }
        },
        None => None,
    }
}

/// The token a request must be validated with, or the refusal of a request
/// without a bearer token.
pub fn authorization_token(header: Option<&str>) -> (r: Result<&str, String>)
    ensures
        match r {
            Ok(t) => spec_bearer_token(opt_view(header)) == Some(t@),
            Err(m) => spec_bearer_token(opt_view(header)) is None && m@ == missing_token_message(),
        },
{
    match bearer_token(header) {
        Some(t) => Ok(t),
        None => Err(String::from_str("Token not provided")),
    }
}

/// The refusal text for the validation error `e`.
pub fn invalid_token_message(e: &str) -> (r: String)
    ensures
        r@ == spec_invalid_token_message(e@),
{
    let mut m = String::from_str("Invalid token: ");
    m.append(e);
    m
}

/// What the guard does with a request.
pub enum AuthOutcome {
    /// Let the request through, with these claims bound to its scope.
    Proceed(Claims),
    /// Answer with an error carrying this text.
    Reject(String),
}

/// What the guard does once the request's token has been validated: let the
/// request through with the claims, or refuse it with the validation error.
pub fn auth_outcome(validation: Result<Claims, String>) -> (r: AuthOutcome)
    ensures
        match validation {
            Ok(c) => r == AuthOutcome::Proceed(c),
            Err(e) => r matches AuthOutcome::Reject(m) && m@ == spec_invalid_token_message(e@),
        },
{
    match validation {
        Ok(c) => AuthOutcome::Proceed(c),
        Err(e) => AuthOutcome::Reject(invalid_token_message(e.as_str())),
    }
}

/// A bearer header carries exactly the text after its `Bearer ` prefix, so
/// the guard validates the token the client sent.
pub proof fn lemma_bearer_header_carries_its_token(t: Seq<char>)
    ensures
        spec_bearer_token(Some(bearer_prefix() + t)) == Some(t),
{
    reveal_strlit("Bearer ");
    let h = bearer_prefix() + t;
    assert(h.subrange(0, 7) =~= bearer_prefix());
    assert(h.skip(7) =~= t);
}

} // verus!
