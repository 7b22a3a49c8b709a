//! The JWT service: its secret and optional database, issuing and signing
//! tokens, decoding them, and the blacklist decisions behind validation,
//! logout (invalidation) and refresh. The database calls themselves are made
//! by the caller; the service says when to make them and what their answers
//! mean.

use vstd::prelude::*;
use vstd::string::*;
use crate::claims::{
    Claims,
    MAX_TIMESTAMP,
    claims_json,
    claims_text,
    issuer,
    current_timestamp,
    is_uuid_v4_text,
    issued_claims_json,
    lemma_issued_claims_json,
    lifetime_fits,
    lifetime_in_range,
    new_token_id,
    well_formed_claims_text,
};
use crate::json::{is_json_value, json_value};
use crate::config::{
    JwtAlgorithm,
    algorithm_from_setting,
    opt_string_view,
    opt_view,
    secret_from_setting,
    spec_algorithm_from_setting,
    spec_secret_from_setting,
    spec_ttl_from_setting,
    ttl_from_setting,
};
use crate::token::{
    TokenError,
    decode_token,
    decoding_consistent,
    is_braced,
    encode_token,
    signature_payload,
    signed_with_other_algorithm,
    signed_with_expiry_before_epoch,
    verify_payload,
    jwt_error_message,
    lifetime_out_of_range_message,
    invalid_user_data_message,
    signed_token,
};

verus! {

/// The database connection type of `sea_orm`.
#[verifier::external_type_specification]
#[verifier::external_body]
pub struct ExDatabaseConnection(sea_orm::DatabaseConnection);

/// The row that blacklists a token: its id and its expiry.
pub struct BlacklistEntry {
    pub jti: String,
    pub exp: i64,
}

/// Issues and checks tokens with one secret, and, when it has a database,
/// keeps a blacklist of invalidated tokens there.
pub struct JwtService {
    secret: String,
    db: Option<sea_orm::DatabaseConnection>,
}

/// The text of the refusal of a blacklisted token.
pub open spec fn blacklisted_message() -> Seq<char> {
    "Token is blacklisted"@
}

/// The text of the refusal to invalidate without a database.
pub open spec fn no_database_message() -> Seq<char> {
    "Database connection required for invalidation"@
}

/// What validation concludes from the blacklist lookup of a token's id:
/// the claims when the id is not listed, the refusal of a blacklisted token
/// when it is, and the lookup's own error when the lookup failed.
pub open spec fn spec_blacklist_verdict(claims: Claims, listed: Result<bool, String>) -> Result<
    Claims,
    Seq<char>,
> {
    match listed {
        Ok(true) => Err(blacklisted_message()),
        Ok(false) => Ok(claims),
        Err(e) => Err(e@),
    }
}

/// The view of a validation result.
pub open spec fn verdict_view(r: Result<Claims, String>) -> Result<Claims, Seq<char>> {
    match r {
        Ok(c) => Ok(c),
        Err(e) => Err(e@),
    }
}

impl JwtService {
    /// The secret the service signs and checks with.
    pub closed spec fn spec_secret(&self) -> Seq<char> {
        self.secret@
    }

    /// The database the service keeps its blacklist in, if any.
    pub closed spec fn spec_db(&self) -> Option<sea_orm::DatabaseConnection> {
        self.db
    }

    /// Whether the service has a database.
    pub open spec fn has_db(&self) -> bool {
        self.spec_db() is Some
    }

    /// A service with the secret that the raw secret setting selects (the
    /// default secret when it is absent), and no database.
    pub fn new(secret_setting: Option<String>) -> (s: Self)
        ensures
            s.spec_secret() == spec_secret_from_setting(opt_string_view(secret_setting)),
            secret_setting matches Some(text) ==> s.spec_secret() == text@,
            s.spec_db() is None,
    {

        JwtService { secret: secret_from_setting(secret_setting), db: None }
    }

    /// The same service, keeping its blacklist in `db`.
    pub fn with_db(self, db: sea_orm::DatabaseConnection) -> (s: Self)
        ensures
            s.spec_secret() == self.spec_secret(),
            s.spec_db() == Some(db),
    {
        JwtService { secret: self.secret, db: Some(db) }
    }

    /// The secret the service signs and checks with.
    pub fn secret(&self) -> (r: &str)
        ensures
            r@ == self.spec_secret(),
    {
        self.secret.as_str()
    }

    /// The service's database, if any.
    pub fn db(&self) -> (r: Option<&sea_orm::DatabaseConnection>)
        ensures
            match r {
                Some(d) => self.spec_db() == Some(*d),
                None => self.spec_db() is None,
            },
    {
        match &self.db {
            Some(d) => Some(d),
            None => None,
        }
    }

    /// Signs `claims` with `alg` and the service's secret.
    pub fn sign_claims(&self, claims: &Claims, alg: JwtAlgorithm) -> (r: Result<String, TokenError>)
        ensures
            match r {
                Ok(t) => signed_token(alg.spec_name(), claims_json(*claims), self.spec_secret())
                    == Some(t@),
                Err(e) => e is Jwt && signed_token(
                    alg.spec_name(),
                    claims_json(*claims),
                    self.spec_secret(),
                ) is None,
            },
            json_value(claims.user_data@) ==> (r matches Ok(t) && signature_payload(
                t@,
                alg.spec_name(),
                self.spec_secret(),
            ) == Some(claims_json(*claims))),
    {
        proof {
            lemma_claims_json_well_formed(*claims);
        }
        let json = claims.to_json();
        match encode_token(alg, json.as_str(), self.secret.as_str()) {
            Ok(t) => Ok(t),
            Err(e) => Err(TokenError::Jwt(e)),
        }
    }

    /// Whether `t` is the token `jsonwebtoken` makes, with `alg` and the
    /// service's secret, of the claims issued at `now` with token id `jti`
    /// for `sub` carrying `user_data` with a lifetime of `minutes` minutes,
    /// and the signature check with the same algorithm and secret gives
    /// those claims back.
    pub open spec fn is_issued_token(
        &self,
        t: Seq<char>,
        sub: Seq<char>,
        user_data: Seq<char>,
        minutes: int,
        alg: JwtAlgorithm,
        now: int,
        jti: Seq<char>,
    ) -> bool {
        let j = issued_claims_json(sub, user_data, minutes, now, jti);
        &&& signed_token(alg.spec_name(), j, self.spec_secret()) == Some(t)
        &&& signature_payload(t, alg.spec_name(), self.spec_secret()) == Some(j)
    }

    /// Whether `r` is the outcome of issuing, at `now` and with token id
    /// `jti`, a token for `sub` carrying `user_data` with a lifetime of
    /// `minutes` minutes, signed with `alg`: the refusal of the lifetime
    /// when the expiry lies outside the range of a UTC date-time; else the
    /// refusal of the custom data when it is not JSON text; else the issued
    /// token.
    pub open spec fn issue_outcome(
        &self,
        r: Result<String, TokenError>,
        sub: Seq<char>,
        user_data: Seq<char>,
        minutes: int,
        alg: JwtAlgorithm,
        now: int,
        jti: Seq<char>,
    ) -> bool {
        if !lifetime_in_range(now, minutes) {
            r matches Err(TokenError::LifetimeOutOfRange)
        } else if !json_value(user_data) {
            r matches Err(TokenError::InvalidUserData)
        } else {
            r matches Ok(t) && self.is_issued_token(t@, sub, user_data, minutes, alg, now, jti)
        }
    }

    /// Issues, at `now` (seconds since the epoch) and with token id `jti`, a
    /// token for `user_id` carrying `user_data` (JSON text) with a lifetime of
    /// `ttl` minutes, signed with `alg`.
    pub fn issue_token(
        &self,
        user_id: String,
        user_data: String,
        ttl: i64,
        alg: JwtAlgorithm,
        now: i64,
        jti: String,
    ) -> (r: Result<String, TokenError>)
        requires
            0 <= now <= MAX_TIMESTAMP,
        ensures
            self.issue_outcome(r, user_id@, user_data@, ttl as int, alg, now as int, jti@),
    {
        if !lifetime_fits(now, ttl) {
            return Err(TokenError::LifetimeOutOfRange);
        }
        if !is_json_value(user_data.as_str()) {
            return Err(TokenError::InvalidUserData);
        }
        let claims = Claims::issue(user_id, user_data, ttl, now, jti);
        proof {
            lemma_issued_claims_json(claims, user_id@, user_data@, ttl as int, now as int, jti@);
        }
        self.sign_claims(&claims, alg)
    }

    /// Issues a token for `user_id` carrying `user_data` (JSON text): claims
    /// issued now, with a fresh random token id and the lifetime the raw
    /// lifetime setting selects, signed with the algorithm the raw algorithm
    /// setting selects.
    pub fn generate_token(
        &self,
        user_id: String,
        user_data: String,
        ttl_setting: Option<&str>,
        algo_setting: Option<&str>,
    ) -> (r: Result<String, TokenError>)
        ensures
            exists|now: int, jti: Seq<char>|
                0 <= now <= MAX_TIMESTAMP && is_uuid_v4_text(jti) && #[trigger] self.issue_outcome(
                    r,
                    user_id@,
                    user_data@,
                    spec_ttl_from_setting(opt_view(ttl_setting)) as int,
                    spec_algorithm_from_setting(opt_view(algo_setting)),
                    now,
                    jti,
                ),
    {
        let ttl: i64 = ttl_from_setting(ttl_setting);
        let alg = algorithm_from_setting(algo_setting);
        let now: i64 = current_timestamp();
        let jti = new_token_id();
        let ghost jti_view = jti@;
        let r = self.issue_token(user_id, user_data, ttl, alg, now, jti);
        assert(self.issue_outcome(r, user_id@, user_data@, ttl as int, alg, now as int, jti_view));
        r
    }

    /// Decodes `token` with the algorithm the raw algorithm setting selects,
    /// giving the JSON text of its claims, or the text of the error.
    pub fn decode_token(&self, token: &str, algo_setting: Option<&str>) -> (r: Result<String, String>)
        ensures
            decoding_consistent(
                token@,
                spec_algorithm_from_setting(opt_view(algo_setting)).spec_name(),
                self.spec_secret(),
                match r {
                    Ok(x) => Some(x@),
                    Err(_) => None,
                },
            ),
            signed_with_other_algorithm(token@, spec_algorithm_from_setting(opt_view(algo_setting)))
                ==> r is Err,
            r matches Ok(x) ==> signature_payload(
                token@,
                spec_algorithm_from_setting(opt_view(algo_setting)).spec_name(),
                self.spec_secret(),
            ) == Some(x@),
            signed_with_expiry_before_epoch(
                token@,
                spec_algorithm_from_setting(opt_view(algo_setting)).spec_name(),
                self.spec_secret(),
            ) ==> r is Err,
    {
        let alg = algorithm_from_setting(algo_setting);
        Self::decoding_result(decode_token(token, self.secret.as_str(), alg))
    }

    /// Checks the signature of `token` with the algorithm the raw algorithm
    /// setting selects, giving the JSON text of its claims, or the text of
    /// the error. No claim is checked here: the claims are read before they
    /// are validated, as decoding into claims does.
    pub fn verify_token(&self, token: &str, algo_setting: Option<&str>) -> (r: Result<String, String>)
        ensures
            ({
                let alg = spec_algorithm_from_setting(opt_view(algo_setting));
                &&& match r {
                    Ok(x) => signature_payload(token@, alg.spec_name(), self.spec_secret()) == Some(x@),
                    Err(_) => signature_payload(token@, alg.spec_name(), self.spec_secret()) is None,
                }
                &&& decoding_consistent(
                    token@,
                    alg.spec_name(),
                    self.spec_secret(),
                    match r {
                        Ok(x) => Some(x@),
                        Err(_) => None,
                    },
                )
                &&& signed_with_other_algorithm(token@, alg) ==> r is Err
            }),
    {
        let alg = algorithm_from_setting(algo_setting);
        Self::decoding_result(verify_payload(token, self.secret.as_str(), alg))
    }

    /// What decoding reports for the outcome of `jsonwebtoken`'s decoding:
    /// the claims text as decoded, or the text of the decoding error.
    pub fn decoding_result(decoded: Result<String, jsonwebtoken::errors::Error>) -> (r: Result<
        String,
        String,
    >)
        ensures
            match decoded {
                Ok(x) => r matches Ok(y) && y@ == x@,
                Err(_) => r is Err,
            },
    {
        match decoded {
            Ok(json) => Ok(json),
            Err(e) => Err(jwt_error_message(&e)),
        }
    }

    /// The token id to look up in the blacklist once a token's claims are
    /// decoded: that of the claims when the service has a database, none
    /// otherwise (the token is then accepted as decoded).
    pub fn blacklist_query(&self, claims: &Claims) -> (r: Option<String>)
        ensures
            r is Some <==> self.has_db(),
            r matches Some(jti) ==> jti@ == claims.jti@,
    {
        if self.db.is_some() {
            Some(claims.jti.clone())
        } else {
            None
        }
    }

    /// Concludes validation from the answer of the blacklist lookup: whether
    /// the token's id is listed, or the lookup's error text.
    pub fn blacklist_verdict(claims: Claims, listed: Result<bool, String>) -> (r: Result<
        Claims,
        String,
    >)
        ensures
            verdict_view(r) == spec_blacklist_verdict(claims, listed),
    {
        match listed {
            Ok(true) => Err(String::from_str("Token is blacklisted")),
            Ok(false) => Ok(claims),
            Err(e) => Err(e),
        }
    }

    /// The blacklist row (token id, expiry) that invalidating validated
    /// `claims` writes, or the refusal to invalidate when there is no
    /// database.
    pub open spec fn spec_blacklist_entry(&self, claims: Claims) -> Result<(Seq<char>, i64), Seq<char>> {
        if self.has_db() {
            Ok((claims.jti@, claims.exp))
        } else {
            Err(no_database_message())
        }
    }

    /// What validating decoded `claims` concludes when the blacklist holds
    /// the token ids in `blacklist`: with a database, the verdict of looking
    /// the claims' id up; without one, the claims.
    pub open spec fn spec_validation(&self, claims: Claims, blacklist: Set<Seq<char>>) -> Result<
        Claims,
        Seq<char>,
    > {
        if self.has_db() {
            spec_blacklist_verdict(claims, Ok(blacklist.contains(claims.jti@)))
        } else {
            Ok(claims)
        }
    }

    /// Invalidating the token of decoded `claims` against `blacklist`: the
    /// token is validated, then its row is written; the outcome, and the
    /// blacklist after it (with the row's id when the row is written).
    pub open spec fn spec_invalidation(&self, claims: Claims, blacklist: Set<Seq<char>>) -> (
        Result<(), Seq<char>>,
        Set<Seq<char>>,
    ) {
        match self.spec_validation(claims, blacklist) {
            Err(e) => (Err(e), blacklist),
            Ok(c) => match self.spec_blacklist_entry(c) {
                Ok(row) => (Ok(()), blacklist.insert(row.0)),
                Err(e) => (Err(e), blacklist),
            },
        }
    }

    /// What refreshing the token of decoded `claims` does to `blacklist`
    /// before a new token is issued: the old token is validated and then
    /// invalidated; a new token is issued only when both succeed.
    pub open spec fn spec_refresh_exchange(&self, claims: Claims, blacklist: Set<Seq<char>>) -> (
        Result<(), Seq<char>>,
        Set<Seq<char>>,
    ) {
        match self.spec_validation(claims, blacklist) {
            Err(e) => (Err(e), blacklist),
            Ok(c) => self.spec_invalidation(c, blacklist),
        }
    }

    /// The blacklist row that invalidates a token with these (validated)
    /// claims, or the refusal to invalidate when there is no database.
    pub fn blacklist_entry(&self, claims: &Claims) -> (r: Result<BlacklistEntry, String>)
        ensures
            match r {
                Ok(e) => self.spec_blacklist_entry(*claims) == Ok::<(Seq<char>, i64), Seq<char>>(
                    (e.jti@, e.exp),
                ),
                Err(m) => self.spec_blacklist_entry(*claims) == Err::<(Seq<char>, i64), Seq<char>>(
                    m@,
                ),
            },
    {
        if self.db.is_some() {
            Ok(BlacklistEntry { jti: claims.jti.clone(), exp: claims.exp })
        } else {
            Err(String::from_str("Database connection required for invalidation"))
        }
    }

    /// Whether `r` is the outcome of refreshing into a token issued at
    /// `now` with token id `jti` for `sub` and `user_data`: as for issuing,
    /// with the refusals reported as their texts.
    pub open spec fn refresh_outcome(
        &self,
        r: Result<String, String>,
        sub: Seq<char>,
        user_data: Seq<char>,
        minutes: int,
        alg: JwtAlgorithm,
        now: int,
        jti: Seq<char>,
    ) -> bool {
        if !lifetime_in_range(now, minutes) {
            r matches Err(m) && m@ == lifetime_out_of_range_message()
        } else if !json_value(user_data) {
            r matches Err(m) && m@ == invalid_user_data_message()
        } else {
            r matches Ok(t) && self.is_issued_token(t@, sub, user_data, minutes, alg, now, jti)
        }
    }

    /// A new token for the subject and custom data of validated `claims`,
    /// issued now with the lifetime and algorithm the raw settings select,
    /// once the old token has been invalidated (`invalidated`); when the
    /// invalidation failed, its error, and no new token. On failure, the
    /// error's text.
    pub fn refresh_token(
        &self,
        claims: &Claims,
        invalidated: Result<(), String>,
        ttl_setting: Option<&str>,
        algo_setting: Option<&str>,
    ) -> (r: Result<String, String>)
        ensures
            match invalidated {
                Err(e) => r matches Err(m) && m@ == e@,
                Ok(_) => exists|now: int, jti: Seq<char>|
                    0 <= now <= MAX_TIMESTAMP && is_uuid_v4_text(jti) && #[trigger] self.refresh_outcome(
                        r,
                        claims.sub@,
                        claims.user_data@,
                        spec_ttl_from_setting(opt_view(ttl_setting)) as int,
                        spec_algorithm_from_setting(opt_view(algo_setting)),
                        now,
                        jti,
                    ),
            },
    {
        match invalidated {
            Err(e) => {
                return Err(e);
            },
            Ok(_) => {},
        }
        let g = self.generate_token(claims.sub.clone(), claims.user_data.clone(), ttl_setting, algo_setting);
        let ghost ttl = spec_ttl_from_setting(opt_view(ttl_setting)) as int;
        let ghost alg = spec_algorithm_from_setting(opt_view(algo_setting));
        let ghost (now, jti) = choose|now: int, jti: Seq<char>|
            0 <= now <= MAX_TIMESTAMP && is_uuid_v4_text(jti) && #[trigger] self.issue_outcome(
                g,
                claims.sub@,
                claims.user_data@,
                ttl,
                alg,
                now,
                jti,
            );
        let r = match g {
            Ok(t) => Ok(t),
            Err(e) => Err(e.message()),
        };
        assert(self.refresh_outcome(r, claims.sub@, claims.user_data@, ttl, alg, now, jti));
        r
    }
}

/// The text of claims whose custom data is JSON text is well-formed claims
/// text.
pub proof fn lemma_claims_json_well_formed(c: Claims)
    ensures
        json_value(c.user_data@) ==> well_formed_claims_text(claims_json(c)),
{
    let iat = c.iat as int;
    let exp = c.exp as int;
    let nbf = c.nbf as int;
    assert(claims_json(c) == claims_text(c.iss@, c.sub@, iat, exp, nbf, c.jti@, c.user_data@));
}

/// The claims text this package writes has no whitespace around it.
pub proof fn lemma_claims_text_is_braced(
    iss: Seq<char>,
    sub: Seq<char>,
    iat: int,
    exp: int,
    nbf: int,
    jti: Seq<char>,
    user_data: Seq<char>,
)
    ensures
        is_braced(claims_text(iss, sub, iat, exp, nbf, jti, user_data)),
{
    reveal_strlit("{\"iss\":");
    reveal_strlit("}");
    let j = claims_text(iss, sub, iat, exp, nbf, jti, user_data);
    let head = "{\"iss\":"@;
    assert(j =~= head + j.skip(head.len() as int));
    assert(j[0] == head[0]);
    let last = "}"@;
    assert(j =~= j.take(j.len() - 1) + last);
    assert(j.last() == last[0]);
}

/// A token signed over claims decodes, with the algorithm and secret it was
/// signed with, to exactly the text of those claims: a token is read back as
/// it was issued.
pub proof fn lemma_signed_claims_decode_to_themselves(
    service: JwtService,
    claims: Claims,
    alg: JwtAlgorithm,
    token: Seq<char>,
    decoded: Option<Seq<char>>,
)
    requires
        signed_token(alg.spec_name(), claims_json(claims), service.spec_secret()) == Some(token),
        decoding_consistent(token, alg.spec_name(), service.spec_secret(), decoded),
    ensures
        decoded matches Some(x) ==> x == claims_json(claims),
{
    lemma_claims_text_is_braced(
        claims.iss@,
        claims.sub@,
        claims.iat as int,
        claims.exp as int,
        claims.nbf as int,
        claims.jti@,
        claims.user_data@,
    );
}

/// A token the service issued decodes, with the algorithm and secret it was
/// issued with, to exactly the text of the claims it was issued with: what
/// validation reads back is what issuing wrote.
pub proof fn lemma_issued_token_decodes_to_its_claims(
    service: JwtService,
    token: String,
    sub: Seq<char>,
    user_data: Seq<char>,
    minutes: int,
    alg: JwtAlgorithm,
    now: int,
    jti: Seq<char>,
    decoded: Option<Seq<char>>,
)
    requires
        service.issue_outcome(Ok(token), sub, user_data, minutes, alg, now, jti),
        decoding_consistent(token@, alg.spec_name(), service.spec_secret(), decoded),
    ensures
        decoded matches Some(x) ==> x == issued_claims_json(sub, user_data, minutes, now, jti),
{
    lemma_claims_text_is_braced(issuer(), sub, now, now + 60 * minutes, now, jti, user_data);
}

/// A token the service issued passes the signature check of every service
/// with the same secret, under the algorithm it was issued with, and gives
/// back exactly the claims it was issued with.
pub proof fn lemma_issued_token_passes_the_signature_check(
    service: JwtService,
    checker: JwtService,
    token: String,
    sub: Seq<char>,
    user_data: Seq<char>,
    minutes: int,
    alg: JwtAlgorithm,
    now: int,
    jti: Seq<char>,
)
    requires
        service.issue_outcome(Ok(token), sub, user_data, minutes, alg, now, jti),
        checker.spec_secret() == service.spec_secret(),
    ensures
        signature_payload(token@, alg.spec_name(), checker.spec_secret()) == Some(
            issued_claims_json(sub, user_data, minutes, now, jti),
        ),
{
}

/// A token the service issued with an expiry before the Unix epoch is
/// refused by decoding, under every algorithm, while its signature alone
/// still checks out: decoding refuses expired tokens, and the signature
/// check does not look at the expiry.
pub proof fn lemma_token_expired_before_the_epoch_is_refused(
    service: JwtService,
    token: String,
    sub: Seq<char>,
    user_data: Seq<char>,
    minutes: int,
    alg: JwtAlgorithm,
    now: int,
    jti: Seq<char>,
)
    requires
        service.issue_outcome(Ok(token), sub, user_data, minutes, alg, now, jti),
        0 <= now <= MAX_TIMESTAMP,
        now + 60 * minutes < 0,
    ensures
        signed_with_expiry_before_epoch(token@, alg.spec_name(), service.spec_secret()),
        signature_payload(token@, alg.spec_name(), service.spec_secret()) == Some(
            issued_claims_json(sub, user_data, minutes, now, jti),
        ),
{
    let exp = now + 60 * minutes;
    assert(signed_token(
        alg.spec_name(),
        claims_text(issuer(), sub, now, exp, now, jti, user_data),
        service.spec_secret(),
    ) == Some(token@));
}

/// Issuing succeeds exactly when the expiry lies within the range of a UTC
/// date-time and the custom data is JSON text, and the token it gives then
/// passes the signature check with the claims it was issued with.
pub proof fn lemma_issuing_succeeds_on_valid_input(
    service: JwtService,
    r: Result<String, TokenError>,
    sub: Seq<char>,
    user_data: Seq<char>,
    minutes: int,
    alg: JwtAlgorithm,
    now: int,
    jti: Seq<char>,
)
    requires
        service.issue_outcome(r, sub, user_data, minutes, alg, now, jti),
    ensures
        r is Ok <==> lifetime_in_range(now, minutes) && json_value(user_data),
        r matches Ok(t) ==> signature_payload(t@, alg.spec_name(), service.spec_secret()) == Some(
            issued_claims_json(sub, user_data, minutes, now, jti),
        ),
{
}

/// With a database, refreshing a token whose id is not blacklisted
/// invalidates it and gives a token that carries the old token's subject
/// and custom data: the new token passes the signature check with its
/// issued claims, the old token is refused from then on, and the new one is
/// accepted by the blacklist as long as its id differs from the old one and
/// was not listed before.
pub proof fn lemma_refresh_gives_an_accepted_token(
    service: JwtService,
    old: Claims,
    token: String,
    minutes: int,
    alg: JwtAlgorithm,
    now: int,
    jti: Seq<char>,
    new: Claims,
    blacklist: Set<Seq<char>>,
)
    requires
        service.has_db(),
        !blacklist.contains(old.jti@),
        service.refresh_outcome(Ok(token), old.sub@, old.user_data@, minutes, alg, now, jti),
        new.is_issued(old.sub@, old.user_data@, minutes, now, jti),
    ensures
        service.spec_refresh_exchange(old, blacklist) == (Ok::<(), Seq<char>>(()), blacklist.insert(
            old.jti@,
        )),
        signature_payload(token@, alg.spec_name(), service.spec_secret()) == Some(claims_json(new)),
        service.spec_validation(old, blacklist.insert(old.jti@)) == Err::<Claims, Seq<char>>(
            blacklisted_message(),
        ),
        jti != old.jti@ && !blacklist.contains(jti) ==> service.spec_validation(
            new,
            blacklist.insert(old.jti@),
        ) == Ok::<Claims, Seq<char>>(new),
{
    lemma_issued_claims_json(new, old.sub@, old.user_data@, minutes, now, jti);
    lemma_refresh_exchanges_the_token(service, old, new, blacklist);
}

/// Once the blacklist holds the id that invalidating a token writes, the
/// token is refused as blacklisted; a token whose id the blacklist does not
/// hold is accepted with its claims.
pub proof fn lemma_invalidated_token_is_refused(
    claims: Claims,
    entry_jti: Seq<char>,
    blacklist: Set<Seq<char>>,
)
    requires
        entry_jti == claims.jti@,
    ensures
        spec_blacklist_verdict(claims, Ok(blacklist.insert(entry_jti).contains(claims.jti@)))
            == Err::<Claims, Seq<char>>(blacklisted_message()),
        !blacklist.contains(claims.jti@) ==> spec_blacklist_verdict(
            claims,
            Ok(blacklist.contains(claims.jti@)),
        ) == Ok::<Claims, Seq<char>>(claims),
{
}

/// A token issued with one algorithm is refused when it is checked or
/// decoded with another, whatever the secret: only tokens whose header
/// names the configured algorithm are accepted.
pub proof fn lemma_token_refused_under_other_algorithm(
    service: JwtService,
    token: String,
    sub: Seq<char>,
    user_data: Seq<char>,
    minutes: int,
    alg: JwtAlgorithm,
    now: int,
    jti: Seq<char>,
    other: JwtAlgorithm,
)
    requires
        service.issue_outcome(Ok(token), sub, user_data, minutes, alg, now, jti),
        other != alg,
    ensures
        signed_with_other_algorithm(token@, other),
{
    let j = issued_claims_json(sub, user_data, minutes, now, jti);
    assert(signed_token(alg.spec_name(), j, service.spec_secret()) == Some(token@));
}

/// Invalidating a token twice has the effect of invalidating it once: the
/// second invalidation is refused as blacklisted and leaves the blacklist
/// as the first left it.
pub proof fn lemma_invalidating_twice_is_invalidating_once(
    service: JwtService,
    claims: Claims,
    blacklist: Set<Seq<char>>,
)
    ensures
        service.spec_invalidation(claims, blacklist).0 is Ok ==> service.spec_invalidation(
            claims,
            service.spec_invalidation(claims, blacklist).1,
        ) == (
            Err::<(), Seq<char>>(blacklisted_message()),
            service.spec_invalidation(claims, blacklist).1,
        ),
{
}

/// With a database, refreshing a token whose id is not blacklisted
/// succeeds in invalidating it: the blacklist gains exactly its id, the old
/// token is refused from then on, and a token with another id not on the
/// blacklist is still accepted.
pub proof fn lemma_refresh_exchanges_the_token(
    service: JwtService,
    old: Claims,
    new: Claims,
    blacklist: Set<Seq<char>>,
)
    requires
        service.has_db(),
        !blacklist.contains(old.jti@),
    ensures
        service.spec_refresh_exchange(old, blacklist) == (Ok::<(), Seq<char>>(()), blacklist.insert(
            old.jti@,
        )),
        service.spec_validation(old, blacklist.insert(old.jti@)) == Err::<Claims, Seq<char>>(
            blacklisted_message(),
        ),
        new.jti@ != old.jti@ && !blacklist.contains(new.jti@) ==> service.spec_validation(
            new,
            blacklist.insert(old.jti@),
        ) == Ok::<Claims, Seq<char>>(new),
{
    assert(blacklist.insert(old.jti@).contains(old.jti@));
}

/// An old token is exchanged for a new one at most once: once a refresh
/// has invalidated it, every later refresh of it is refused as
/// blacklisted.
pub proof fn lemma_token_refreshed_at_most_once(
    service: JwtService,
    claims: Claims,
    blacklist: Set<Seq<char>>,
    later: Set<Seq<char>>,
)
    requires
        service.spec_refresh_exchange(claims, blacklist).0 is Ok,
        service.spec_refresh_exchange(claims, blacklist).1.subset_of(later),
    ensures
        service.spec_refresh_exchange(claims, later) == (
            Err::<(), Seq<char>>(blacklisted_message()),
            later,
        ),
{
    assert(service.spec_refresh_exchange(claims, blacklist).1.contains(claims.jti@));
    assert(later.contains(claims.jti@));
}

/// Without a database a token can be neither invalidated nor refreshed:
/// both are refused for want of a database, and nothing is blacklisted.
pub proof fn lemma_refresh_needs_a_database(service: JwtService, claims: Claims, blacklist: Set<Seq<char>>)
    requires
        !service.has_db(),
    ensures
        service.spec_invalidation(claims, blacklist) == (
            Err::<(), Seq<char>>(no_database_message()),
            blacklist,
        ),
        service.spec_refresh_exchange(claims, blacklist) == (
            Err::<(), Seq<char>>(no_database_message()),
            blacklist,
        ),
{
}

} // verus!
