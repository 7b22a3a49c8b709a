//! Signing claims into a JSON Web Token and decoding a token back into its
//! claims text, through the `jsonwebtoken` crate.

use vstd::prelude::*;
use vstd::string::*;
use crate::config::JwtAlgorithm;
use crate::claims::{claims_text, well_formed_claims_text};

verus! {

/// The error type of the `jsonwebtoken` crate.
#[verifier::external_type_specification]
#[verifier::external_body]
pub struct ExJwtError(jsonwebtoken::errors::Error);

/// The token that `jsonwebtoken::encode` makes, with the header
/// `Header::new(alg)` of the algorithm named `alg`, from the claims whose
/// JSON text is `claims_json`, under an HMAC key made of the UTF-8 bytes of
/// `secret`; `None` when encoding fails.
pub uninterp spec fn signed_token(alg: Seq<char>, claims_json: Seq<char>, secret: Seq<char>) -> Option<
    Seq<char>,
>;

/// Whether `s` starts with `{` and ends with `}`, so that it has no
/// whitespace around it.
pub open spec fn is_braced(s: Seq<char>) -> bool {
    s.len() >= 2 && s[0] == '{' && s.last() == '}'
}

/// Signs the claims whose JSON text is `claims_json`.
///
/// Calls `jsonwebtoken::encode` with `Header::new(alg)`, the claims passed as
/// a `serde_json` raw value made from `claims_json` (so that they are written
/// as they stand), and `EncodingKey::from_secret(secret.as_bytes())`. The
/// contract claims that the outcome is the one named by `signed_token` for
/// these arguments: encoding depends on nothing else (the header and the
/// HMAC are deterministic). It also claims that well-formed claims text is
/// signed, and that the token then passes the signature check of
/// `verify_payload` with the same algorithm and secret, giving back the
/// text: the raw value takes JSON text and is written as it stands, HMAC
/// signing takes a key of any length, and that check re-signs the same
/// message, reads the payload (whose only timestamp-like members are
/// integers of `i64`, and whose `iss` and `sub` are strings) without fault
/// and, with no claim required or checked, gives the raw value of the
/// decoded payload, braced text that it keeps verbatim.
#[verifier::external_body]
pub(crate) fn encode_token(alg: JwtAlgorithm, claims_json: &str, secret: &str) -> (r: Result<
    String,
    jsonwebtoken::errors::Error,
>)
    ensures
        match r {
            Ok(t) => {
                &&& signed_token(alg.spec_name(), claims_json@, secret@) == Some(t@)
                &&& well_formed_claims_text(claims_json@) ==> signature_payload(
                    t@,
                    alg.spec_name(),
                    secret@,
                ) == Some(claims_json@)
            },
            Err(_) => {
                &&& signed_token(alg.spec_name(), claims_json@, secret@) is None
                &&& !well_formed_claims_text(claims_json@)
            },
        },
{
    let claims = serde_json::value::RawValue::from_string(claims_json.to_string())?;
    let alg = match alg {
        JwtAlgorithm::HS256 => jsonwebtoken::Algorithm::HS256,
        JwtAlgorithm::HS384 => jsonwebtoken::Algorithm::HS384,
        JwtAlgorithm::HS512 => jsonwebtoken::Algorithm::HS512,
    };
    let key = jsonwebtoken::EncodingKey::from_secret(secret.as_bytes());
    jsonwebtoken::encode(&jsonwebtoken::Header::new(alg), &claims, &key)
}

/// Whether `decoded` is consistent with having decoded `token` with the
/// algorithm named `alg` and `secret`: when the token is one that
/// `jsonwebtoken::encode` made from braced claims text with the same
/// algorithm and secret, a successful decoding gives back exactly that text.
pub open spec fn decoding_consistent(
    token: Seq<char>,
    alg: Seq<char>,
    secret: Seq<char>,
    decoded: Option<Seq<char>>,
) -> bool {
    forall|j: Seq<char>|
        #[trigger] signed_token(alg, j, secret) == Some(token) && is_braced(j) ==> (
        decoded matches Some(x) ==> x == j)
}

/// Whether `token` is one that `jsonwebtoken::encode` made with a header
/// naming an algorithm other than `alg` (with any claims and secret).
pub open spec fn signed_with_other_algorithm(token: Seq<char>, alg: JwtAlgorithm) -> bool {
    exists|a: JwtAlgorithm, j: Seq<char>, s: Seq<char>|
        a != alg && #[trigger] signed_token(a.spec_name(), j, s) == Some(token)
}

/// Whether `token` is one that `jsonwebtoken::encode` made, with the
/// algorithm named `alg` and `secret`, from claims text whose timestamps fit
/// in an `i64` and whose expiry lies before the Unix epoch: a token that has
/// expired whatever the clock reads.
pub open spec fn signed_with_expiry_before_epoch(token: Seq<char>, alg: Seq<char>, secret: Seq<char>) -> bool {
    exists|iss: Seq<char>, sub: Seq<char>, iat: int, exp: int, nbf: int, jti: Seq<char>, user_data: Seq<char>|
        {
            &&& i64::MIN <= iat <= i64::MAX
            &&& i64::MIN <= exp < 0
            &&& i64::MIN <= nbf <= i64::MAX
            &&& #[trigger] signed_token(alg, claims_text(iss, sub, iat, exp, nbf, jti, user_data), secret)
                == Some(token)
        }
}

/// What `jsonwebtoken::decode` gives for `token` with the algorithm named
/// `alg`, an HMAC key made of the UTF-8 bytes of `secret`, and only the
/// signature checked (no claim required or checked): the JSON text of the
/// claims, or `None` when decoding fails.
pub uninterp spec fn signature_payload(token: Seq<char>, alg: Seq<char>, secret: Seq<char>) -> Option<
    Seq<char>,
>;

/// Checks the signature of `token`, giving the JSON text of its claims.
///
/// Calls `jsonwebtoken::decode` into a `serde_json` raw value with
/// `DecodingKey::from_secret(secret.as_bytes())` and `Validation::new(alg)`
/// with the expiry and audience checks turned off and no claim required, so
/// that only the token's form, its header's algorithm and its signature are
/// checked, and the payload is read as JSON. That outcome depends on the
/// arguments alone and is named by `signature_payload`. The contract also
/// claims two facts of the source: a token `encode_token` made from braced
/// claims text with the same algorithm and secret gives back that text when
/// it decodes, and a token whose header names another algorithm is refused
/// (`decode` checks the header's algorithm against the allowed one before
/// anything else of the token). Which error comes is left unsaid.
#[verifier::external_body]
pub(crate) fn verify_payload(token: &str, secret: &str, alg: JwtAlgorithm) -> (r: Result<
    String,
    jsonwebtoken::errors::Error,
>)
    ensures
        match r {
            Ok(x) => signature_payload(token@, alg.spec_name(), secret@) == Some(x@),
            Err(_) => signature_payload(token@, alg.spec_name(), secret@) is None,
        },
        decoding_consistent(
            token@,
            alg.spec_name(),
            secret@,
            match r {
                Ok(x) => Some(x@),
                Err(_) => None,
            },
        ),
        signed_with_other_algorithm(token@, alg) ==> r is Err,
{
    let alg = match alg {
        JwtAlgorithm::HS256 => jsonwebtoken::Algorithm::HS256,
        JwtAlgorithm::HS384 => jsonwebtoken::Algorithm::HS384,
        JwtAlgorithm::HS512 => jsonwebtoken::Algorithm::HS512,
    };
    let mut validation = jsonwebtoken::Validation::new(alg);
    validation.validate_exp = false;
    validation.validate_aud = false;
    validation.required_spec_claims.clear();
    let key = jsonwebtoken::DecodingKey::from_secret(secret.as_bytes());
    let data = jsonwebtoken::decode::<Box<serde_json::value::RawValue>>(token, &key, &validation)?;
    Ok(data.claims.get().to_string())
}

/// Decodes and validates `token`, giving the JSON text of its claims.
///
/// Calls `jsonwebtoken::decode` into a `serde_json` raw value with
/// `DecodingKey::from_secret(secret.as_bytes())` and `Validation::new(alg)`
/// (signature checked, `exp` required and checked against the current time
/// with 60 seconds of leeway). The outcome depends on the clock, so no name
/// is given to it; the contract claims that a token made by
/// `encode_token` with the same algorithm and secret from braced claims text
/// decodes, when it decodes, to that very text (the payload is the base64 of
/// the text and the raw value keeps it verbatim), that a token whose header
/// names another algorithm is refused, and that a token that decodes passes
/// the signature check of `verify_payload` with the same text (that check
/// takes the same steps with fewer claim checks). It also claims that a
/// token signed from claims text with an expiry before the epoch is
/// refused: `exp` is a required claim that must read as a `u64`, and a
/// negative integer reads as missing, before the clock is consulted.
/// Whether a token with a later expiry decodes rests on the clock and is
/// left unsaid, as is which error comes.
#[verifier::external_body]
pub(crate) fn decode_token(token: &str, secret: &str, alg: JwtAlgorithm) -> (r: Result<
    String,
    jsonwebtoken::errors::Error,
>)
    ensures
        decoding_consistent(
            token@,
            alg.spec_name(),
            secret@,
            match r {
                Ok(x) => Some(x@),
                Err(_) => None,
            },
        ),
        signed_with_other_algorithm(token@, alg) ==> r is Err,
        r matches Ok(x) ==> signature_payload(token@, alg.spec_name(), secret@) == Some(x@),
        signed_with_expiry_before_epoch(token@, alg.spec_name(), secret@) ==> r is Err,
{
    let alg = match alg {
        JwtAlgorithm::HS256 => jsonwebtoken::Algorithm::HS256,
        JwtAlgorithm::HS384 => jsonwebtoken::Algorithm::HS384,
        JwtAlgorithm::HS512 => jsonwebtoken::Algorithm::HS512,
    };
    let key = jsonwebtoken::DecodingKey::from_secret(secret.as_bytes());
    let validation = jsonwebtoken::Validation::new(alg);
    let data = jsonwebtoken::decode::<Box<serde_json::value::RawValue>>(token, &key, &validation)?;
    Ok(data.claims.get().to_string())
}

/// The text of a `jsonwebtoken` error.
///
/// Calls the error's `Display` through `to_string()`. Nothing is claimed of
/// the text.
#[verifier::external_body]
pub(crate) fn jwt_error_message(e: &jsonwebtoken::errors::Error) -> String {
    e.to_string()
}

/// Why a token could not be made.
pub enum TokenError {
    /// `jsonwebtoken` refused to encode the claims.
    Jwt(jsonwebtoken::errors::Error),
    /// The expiry would fall outside the range of a UTC date-time.
    LifetimeOutOfRange,
    /// The custom data is not JSON text.
    InvalidUserData,
}

/// The text reported for a lifetime that leaves the range of a UTC date-time.
pub open spec fn lifetime_out_of_range_message() -> Seq<char> {
    "Token lifetime out of range"@
}

/// The text reported for custom data that is not JSON text.
pub open spec fn invalid_user_data_message() -> Seq<char> {
    "Custom data is not JSON"@
}

impl TokenError {
    /// The error's text: `jsonwebtoken`'s own text for its errors.
    pub fn message(&self) -> (r: String)
        ensures
            self is LifetimeOutOfRange ==> r@ == lifetime_out_of_range_message(),
            self is InvalidUserData ==> r@ == invalid_user_data_message(),
    {
        match self {
            TokenError::Jwt(e) => jwt_error_message(e),
            TokenError::LifetimeOutOfRange => String::from_str("Token lifetime out of range"),
            TokenError::InvalidUserData => String::from_str("Custom data is not JSON"),
        }
    }
}

} // verus!
