//! Session tokens: HS256-signed claims tokens with an expiry, issued for a
//! verified user and validated on later requests.
use vstd::prelude::*;
use vstd::utf8::*;
use jsonwebtoken::errors::ErrorKind;
use jsonwebtoken::{Algorithm, DecodingKey, EncodingKey, Header, Validation};

verus! {

/// The claims a session token carries.
#[derive(Debug, Clone)]
pub struct Claims {
    /// The local user identifier.
    pub sub: String,
    /// The provider's identifier of the user.
    pub telegram_id: i64,
    /// Expiry, as a Unix timestamp.
    pub exp: i64,
    /// Time of issue, as a Unix timestamp.
    pub iat: i64,
}

#[derive(Debug, Clone, Copy, PartialEq, Eq, Structural)]
pub enum TokenError {
    /// The token is not a well-formed signed claims token.
    Malformed,
    /// The token's signature does not match the server's secret.
    InvalidSignature,
    /// The token's expiry is at or before the time of validation.
    Expired,
}

/// Default lifetime of a session token: 24 hours, in seconds.
pub const DEFAULT_TTL: i64 = 86400;

/// Claims as plain values: subject, provider id, time of issue, expiry.
pub type ClaimsData = (Seq<char>, i64, i64, i64);

pub open spec fn claims_data(c: Claims) -> ClaimsData {
    (c.sub@, c.telegram_id, c.iat, c.exp)
}

pub open spec fn outcome_data(r: Result<Claims, TokenError>) -> Result<ClaimsData, TokenError> {
    match r {
        Ok(c) => Ok(claims_data(c)),
        Err(e) => Err(e),
    }
}

/// The token that HS256 signing under `secret` gives for the claims
/// `{sub, telegram_id, iat, exp}` with the default header.
pub uninterp spec fn hs256_token_of(secret: Seq<u8>, sub: Seq<char>, telegram_id: i64, iat: i64, exp: i64) -> Seq<char>;

/// What HS256 decoding under `secret`, without time checks, gives for `token`:
/// its claims, or why it was refused.
pub uninterp spec fn hs256_decode_of(secret: Seq<u8>, token: Seq<char>) -> Result<ClaimsData, TokenError>;

/// The number of `.` separators in `s`.
pub open spec fn dot_count(s: Seq<char>) -> nat {
    s.filter(|c: char| c == '.').len()
}

pub open spec fn decoded_data(r: Result<(String, i64, i64, i64), TokenError>) -> Result<ClaimsData, TokenError> {
    match r {
        Ok(c) => Ok((c.0@, c.1, c.2, c.3)),
        Err(e) => Err(e),
    }
}

/// A token whose expiry is at or before `now` is expired.
pub open spec fn token_expired(exp: i64, now: i64) -> bool {
    exp <= now
}

/// What validation at time `now` answers, given what decoding gave.
pub open spec fn validation_outcome(d: Result<ClaimsData, TokenError>, now: i64) -> Result<ClaimsData, TokenError> {
    match d {
        Ok(c) => genuine_token_outcome(c.0, c.1, c.2, c.3, now),
        Err(e) => Err(e),
    }
}

/// What validation at time `now` answers for a genuine token carrying these claims.
pub open spec fn genuine_token_outcome(sub: Seq<char>, telegram_id: i64, iat: i64, exp: i64, now: i64) -> Result<
    ClaimsData,
    TokenError,
> {
    if token_expired(exp, now) {
        Err(TokenError::Expired)
    } else {
        Ok((sub, telegram_id, iat, exp))
    }
}

/// Relies on jsonwebtoken's `encode` with `Header::default()` (HS256) and an
/// HMAC key: the claims map serialises with sorted keys and HMAC signing cannot
/// fail, so the call always returns the token, a function of its inputs; and
/// jsonwebtoken's `decode` under the same secret gives the claims back.
#[verifier::external_body]
fn encode_hs256(secret: &[u8], sub: &str, telegram_id: i64, iat: i64, exp: i64) -> (r: String)
    ensures
        r@ == hs256_token_of(secret@, sub@, telegram_id, iat, exp),
        hs256_decode_of(secret@, r@) is Ok && hs256_decode_of(secret@, r@)->Ok_0 == (sub@, telegram_id, iat, exp),
{
    let claims = std::collections::BTreeMap::from([
        ("sub", serde_json::Value::from(sub)),
        ("telegram_id", serde_json::Value::from(telegram_id)),
        ("iat", serde_json::Value::from(iat)),
        ("exp", serde_json::Value::from(exp)),
    ]);
    let key = EncodingKey::from_secret(secret);
    jsonwebtoken::encode(&Header::default(), &claims, &key).expect("HMAC signing does not fail")
}

/// `r` holds the claims `c`.
pub open spec fn decoded_as(r: Result<(String, i64, i64, i64), TokenError>, c: ClaimsData) -> bool {
    r is Ok && r->Ok_0.0@ == c.0 && r->Ok_0.1 == c.1 && r->Ok_0.2 == c.2 && r->Ok_0.3 == c.3
}

/// Relies on jsonwebtoken's `decode` (HS256 only, no expiry or required-claim
/// checks, which the caller makes): it reads no clock, so its answer depends on
/// the secret and the token alone; a token that `encode` made under the same
/// secret gives back the claims it was made from; a token with fewer than two
/// `.` separators is refused as malformed.
#[verifier::external_body]
fn decode_hs256(secret: &[u8], token: &str) -> (r: Result<(String, i64, i64, i64), TokenError>)
    ensures
        decoded_data(r) == hs256_decode_of(secret@, token@),
        forall|c: ClaimsData|
            token@ == #[trigger] hs256_token_of(secret@, c.0, c.1, c.2, c.3) ==> decoded_as(r, c),
        dot_count(token@) < 2 ==> r is Err && r->Err_0 == TokenError::Malformed,
        r is Err ==> r->Err_0 != TokenError::Expired,
{
    let mut rules = Validation::new(Algorithm::HS256);
    rules.validate_exp = false;
    rules.required_spec_claims.clear();
    let c = match jsonwebtoken::decode::<serde_json::Value>(token, &DecodingKey::from_secret(secret), &rules) {
        Ok(data) => data.claims,
        Err(e) if matches!(e.kind(), ErrorKind::InvalidSignature) => return Err(TokenError::InvalidSignature),
        Err(_) => return Err(TokenError::Malformed),
    };
    match (c["sub"].as_str(), c["telegram_id"].as_i64(), c["iat"].as_i64(), c["exp"].as_i64()) {
        (Some(s), Some(p), Some(i), Some(x)) => Ok((s.to_string(), p, i, x)),
        _ => Err(TokenError::Malformed),
    }
}

/// The expiry check of validation: `claims` back when they have not expired at `now`.
pub fn check_claims(claims: Claims, now: i64) -> (r: Result<Claims, TokenError>)
    ensures
        r == (if token_expired(claims.exp, now) {
            Err(TokenError::Expired)
        } else {
            Ok(claims)
        }),
{
    if claims.exp <= now {
        Err(TokenError::Expired)
    } else {
        Ok(claims)
    }
}

/// Issues and validates session tokens under one server secret.
pub struct JwtService {
    pub secret: Vec<u8>,
    /// Lifetime of the tokens issued, in seconds.
    pub ttl: i64,
}

impl JwtService {
    /// A service signing with `secret`, issuing tokens that last 24 hours.
    pub fn new(secret: &str) -> (r: JwtService)
        ensures
            r.secret@ == encode_utf8(secret@),
            r.ttl == DEFAULT_TTL,
    {
        JwtService { secret: vstd::slice::slice_to_vec(secret.as_bytes()), ttl: DEFAULT_TTL }
    }

    /// A service signing with `secret`, issuing tokens that last `ttl` seconds.
    pub fn with_ttl(secret: &str, ttl: i64) -> (r: JwtService)
        ensures
            r.secret@ == encode_utf8(secret@),
            r.ttl == ttl,
    {
        JwtService { secret: vstd::slice::slice_to_vec(secret.as_bytes()), ttl }
    }

    /// Issues a token for user `user_id` at time `now`; returns it with its expiry.
    pub fn generate_token(&self, user_id: &str, telegram_id: i64, now: i64) -> (r: (String, i64))
        requires
            i64::MIN <= now + self.ttl <= i64::MAX,
        ensures
            r.1 == now + self.ttl,
            r.0@ == hs256_token_of(self.secret@, user_id@, telegram_id, now, r.1),
            hs256_decode_of(self.secret@, r.0@) == Ok::<ClaimsData, TokenError>(
                (user_id@, telegram_id, now, r.1),
            ),
    {
        let exp = now + self.ttl;
        let token = encode_hs256(self.secret.as_slice(), user_id, telegram_id, now, exp);
        (token, exp)
    }

    /// Validates `token` at time `now` and returns the claims it carries.
    pub fn verify_token(&self, token: &str, now: i64) -> (r: Result<Claims, TokenError>)
        ensures
            forall|c: ClaimsData|
                token@ == #[trigger] hs256_token_of(self.secret@, c.0, c.1, c.2, c.3)
                    ==> outcome_data(r) == genuine_token_outcome(c.0, c.1, c.2, c.3, now),
            outcome_data(r) == validation_outcome(hs256_decode_of(self.secret@, token@), now),
            dot_count(token@) < 2 ==> r is Err && r->Err_0 == TokenError::Malformed,
            r is Ok ==> !token_expired(r->Ok_0.exp, now),
    {
        match decode_hs256(self.secret.as_slice(), token) {
            Ok((sub, telegram_id, iat, exp)) => {
                let r = check_claims(Claims { sub, telegram_id, exp, iat }, now);
                r
            },
            Err(e) => Err(e),
        }
    }
}

/// A token issued at `t0` for `sub` and `telegram_id` with lifetime `ttl` (as
/// `generate_token` states of the token it returns) validates at any `now`
/// before its expiry to that subject and provider id.
pub proof fn lemma_issue_then_validate(
    secret: Seq<u8>,
    token: Seq<char>,
    sub: Seq<char>,
    telegram_id: i64,
    t0: i64,
    ttl: i64,
    now: i64,
)
    requires
        t0 + ttl <= i64::MAX,
        hs256_decode_of(secret, token) == Ok::<ClaimsData, TokenError>(
            (sub, telegram_id, t0, (t0 + ttl) as i64),
        ),
        t0 <= now < t0 + ttl,
    ensures
        validation_outcome(hs256_decode_of(secret, token), now) == Ok::<ClaimsData, TokenError>(
            (sub, telegram_id, t0, (t0 + ttl) as i64),
        ),
{
}

/// A token is accepted right after it is issued with a positive lifetime, and
/// gives back the subject and provider id it was issued for.
pub proof fn lemma_issued_token_accepted(sub: Seq<char>, telegram_id: i64, now: i64, ttl: i64)
    requires
        ttl > 0,
        now + ttl <= i64::MAX,
    ensures
        genuine_token_outcome(sub, telegram_id, now, (now + ttl) as i64, now) == Ok::<
            ClaimsData,
            TokenError,
        >((sub, telegram_id, now, (now + ttl) as i64)),
{
}

/// A token validated once its expiry has passed fails with `Expired`; one
/// validated a second before its expiry does not.
pub proof fn lemma_expiry_boundary(sub: Seq<char>, telegram_id: i64, iat: i64, exp: i64, now: i64)
    requires
        exp > i64::MIN,
    ensures
        now >= exp ==> genuine_token_outcome(sub, telegram_id, iat, exp, now) == Err::<
            ClaimsData,
            TokenError,
        >(TokenError::Expired),
        genuine_token_outcome(sub, telegram_id, iat, exp, (exp - 1) as i64) == Ok::<
            ClaimsData,
            TokenError,
        >((sub, telegram_id, iat, exp)),
{
}

} // verus!
