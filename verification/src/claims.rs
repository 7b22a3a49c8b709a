//! The claims a token carries, how they are issued, and their JSON text.

use vstd::prelude::*;
use vstd::string::*;
use crate::json::{int_text, json_string, json_value, write_i64, write_json_string};

verus! {

/// The claims of a token. `user_data` holds the custom data (name, roles,
/// ...) as JSON text.
pub struct Claims {
    /// Issuer.
    pub iss: String,
    /// Subject: the user id.
    pub sub: String,
    /// Issued at, in seconds since the Unix epoch.
    pub iat: i64,
    /// Expiration time, in seconds since the Unix epoch.
    pub exp: i64,
    /// Not before, in seconds since the Unix epoch.
    pub nbf: i64,
    /// Token id.
    pub jti: String,
    /// Custom data, as JSON text.
    pub user_data: String,
}

/// The issuer named in every token this package issues.
pub open spec fn issuer() -> Seq<char> {
    "rustbasic"@
}

/// The earliest instant a UTC date-time can hold, in seconds since the Unix
/// epoch (January 1 of the year 262144 BCE, 00:00:00).
pub const MIN_TIMESTAMP: i64 = -8334601228800;

/// The latest whole second a UTC date-time can hold, in seconds since the
/// Unix epoch (December 31 of the year 262142, 23:59:59).
pub const MAX_TIMESTAMP: i64 = 8210266876799;

/// Whether a token issued at `now` with a lifetime of `minutes` minutes
/// expires at an instant that a UTC date-time can hold.
pub open spec fn lifetime_in_range(now: int, minutes: int) -> bool {
    MIN_TIMESTAMP <= now + 60 * minutes <= MAX_TIMESTAMP
}

/// Whether `c` is a lower-case hex digit.
pub open spec fn is_lower_hex(c: char) -> bool {
    ('0' <= c && c <= '9') || ('a' <= c && c <= 'f')
}

/// Whether `s` is the hyphenated lower-case text of a random (version 4,
/// RFC 4122 variant) UUID.
pub open spec fn is_uuid_v4_text(s: Seq<char>) -> bool {
    &&& s.len() == 36
    &&& forall|i: int|
        0 <= i < 36 ==> if i == 8 || i == 13 || i == 18 || i == 23 {
            s[i] == '-'
        } else {
            is_lower_hex(#[trigger] s[i])
        }
    &&& s[14] == '4'
    &&& (s[19] == '8' || s[19] == '9' || s[19] == 'a' || s[19] == 'b')
}

/// The current time, as whole seconds since the Unix epoch.
///
/// Calls `chrono::Utc::now()` and then `timestamp()`. The contract claims only
/// that the value is not before the epoch (chrono panics on a system clock
/// set before it) and not after the last second a UTC date-time can hold;
/// which instant it is, is the clock's.
#[verifier::external_body]
pub(crate) fn current_timestamp() -> (t: i64)
    ensures
        0 <= t <= MAX_TIMESTAMP,
{
    chrono::Utc::now().timestamp()
}

/// A fresh token id.
///
/// Calls `uuid::Uuid::new_v4()` and renders it with `to_string()`. The
/// contract claims the shape of the text that uuid's `Display` writes for a
/// random UUID (version nibble 4, variant bits `10`); the random bits
/// themselves are left unsaid.
#[verifier::external_body]
pub(crate) fn new_token_id() -> (id: String)
    ensures
        is_uuid_v4_text(id@),
{
    uuid::Uuid::new_v4().to_string()
}

/// The JSON object text of claims with these field values, fields in
/// declaration order, with no whitespace; `user_data` is inserted as it
/// stands.
pub open spec fn claims_text(
    iss: Seq<char>,
    sub: Seq<char>,
    iat: int,
    exp: int,
    nbf: int,
    jti: Seq<char>,
    user_data: Seq<char>,
) -> Seq<char> {
    "{\"iss\":"@ + json_string(iss) + ",\"sub\":"@ + json_string(sub) + ",\"iat\":"@ + int_text(iat)
        + ",\"exp\":"@ + int_text(exp) + ",\"nbf\":"@ + int_text(nbf) + ",\"jti\":"@ + json_string(jti)
        + ",\"user_data\":"@ + user_data + "}"@
}

/// Whether `j` is the JSON object text of claims whose timestamps fit in an
/// `i64` and whose custom data is JSON text: the claims text that can be
/// signed and read back.
pub open spec fn well_formed_claims_text(j: Seq<char>) -> bool {
    exists|iss: Seq<char>, sub: Seq<char>, iat: int, exp: int, nbf: int, jti: Seq<char>, user_data: Seq<char>|
        {
            &&& i64::MIN <= iat <= i64::MAX
            &&& i64::MIN <= exp <= i64::MAX
            &&& i64::MIN <= nbf <= i64::MAX
            &&& json_value(user_data)
            &&& j == #[trigger] claims_text(iss, sub, iat, exp, nbf, jti, user_data)
        }
}

/// The JSON object text of claims.
pub open spec fn claims_json(c: Claims) -> Seq<char> {
    claims_text(c.iss@, c.sub@, c.iat as int, c.exp as int, c.nbf as int, c.jti@, c.user_data@)
}

/// Whether a token issued at `now` with a lifetime of `minutes` minutes
/// expires within the range of a UTC date-time.
pub fn lifetime_fits(now: i64, minutes: i64) -> (r: bool)
    requires
        0 <= now <= MAX_TIMESTAMP,
    ensures
        r == lifetime_in_range(now as int, minutes as int),
{
    if minutes < -300_000_000_000 || minutes > 300_000_000_000 {
        return false;
    }
    let exp: i64 = now + minutes * 60;
    MIN_TIMESTAMP <= exp && exp <= MAX_TIMESTAMP
}

/// The JSON text of the claims issued at `now` for `sub` with `user_data`,
/// a lifetime of `minutes` minutes and token id `jti`.
pub open spec fn issued_claims_json(
    sub: Seq<char>,
    user_data: Seq<char>,
    minutes: int,
    now: int,
    jti: Seq<char>,
) -> Seq<char> {
    claims_text(issuer(), sub, now, now + 60 * minutes, now, jti, user_data)
}

/// Issued claims have the JSON text of their issue.
pub proof fn lemma_issued_claims_json(
    c: Claims,
    sub: Seq<char>,
    user_data: Seq<char>,
    minutes: int,
    now: int,
    jti: Seq<char>,
)
    requires
        c.is_issued(sub, user_data, minutes, now, jti),
    ensures
        claims_json(c) == issued_claims_json(sub, user_data, minutes, now, jti),
{
}

impl Claims {
    /// Whether `self` are the claims issued at `now` for subject `sub` with
    /// custom data `user_data`, a lifetime of `minutes` minutes and token id
    /// `jti`.
    pub open spec fn is_issued(
        self,
        sub: Seq<char>,
        user_data: Seq<char>,
        minutes: int,
        now: int,
        jti: Seq<char>,
    ) -> bool {
        &&& self.iss@ == issuer()
        &&& self.sub@ == sub
        &&& self.user_data@ == user_data
        &&& self.iat == now
        &&& self.nbf == now
        &&& self.exp == now + 60 * minutes
        &&& self.jti@ == jti
    }

    /// The claims issued at `now` (seconds since the epoch) for `sub`, expiring
    /// `expires_in_minutes` minutes later.
    pub fn issue(
        sub: String,
        user_data: String,
        expires_in_minutes: i64,
        now: i64,
        jti: String,
    ) -> (c: Claims)
        requires
            0 <= now <= MAX_TIMESTAMP,
            lifetime_in_range(now as int, expires_in_minutes as int),
        ensures
            c.is_issued(sub@, user_data@, expires_in_minutes as int, now as int, jti@),
    {
        let exp: i64 = now + expires_in_minutes * 60;
        Claims {
            iss: String::from_str("rustbasic"),
            sub,
            iat: now,
            exp,
            nbf: now,
            jti,
            user_data,
        }
    }

    /// Issues claims for `sub` at the current time, expiring
    /// `expires_in_minutes` minutes later, with a fresh random token id.
    /// Gives `None` when the expiry would fall outside the range of a UTC
    /// date-time.
    pub fn new(sub: String, user_data: String, expires_in_minutes: i64) -> (r: Option<Claims>)
        ensures
            match r {
                Some(c) => {
                    &&& 0 <= c.iat <= MAX_TIMESTAMP
                    &&& lifetime_in_range(c.iat as int, expires_in_minutes as int)
                    &&& c.is_issued(sub@, user_data@, expires_in_minutes as int, c.iat as int, c.jti@)
                    &&& is_uuid_v4_text(c.jti@)
                },
                None => exists|now: int|
                    0 <= now <= MAX_TIMESTAMP && !lifetime_in_range(now, expires_in_minutes as int),
            },
    {
        let now: i64 = current_timestamp();
        if !lifetime_fits(now, expires_in_minutes) {
            return None;
        }
        let jti = new_token_id();
        Some(Claims::issue(sub, user_data, expires_in_minutes, now, jti))
    }

    /// The JSON object text of these claims.
    pub fn to_json(&self) -> (r: String)
        ensures
            r@ == claims_json(*self),
    {
        let mut out = String::new();
        out.append("{\"iss\":");
        write_json_string(&mut out, self.iss.as_str());
        out.append(",\"sub\":");
        write_json_string(&mut out, self.sub.as_str());
        out.append(",\"iat\":");
        write_i64(&mut out, self.iat);
        out.append(",\"exp\":");
        write_i64(&mut out, self.exp);
        out.append(",\"nbf\":");
        write_i64(&mut out, self.nbf);
        out.append(",\"jti\":");
        write_json_string(&mut out, self.jti.as_str());
        out.append(",\"user_data\":");
        out.append(self.user_data.as_str());
        out.append("}");
        assert(out@ =~= claims_json(*self));
        out
    }
}

} // verus!
