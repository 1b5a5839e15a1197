//! Session token codec: signed, self-contained bearer tokens carrying
//! identity claims and an expiry.

use vstd::prelude::*;

verus! {

use crate::errors::AuthError;

/// Number of seconds in the seven-day validity window of a session token.
pub const SESSION_LIFETIME_SECS: i64 = 604800;

/// The claims carried by a session token: subject (the account email), expiry
/// (epoch seconds) and display name. Tokens are never persisted; possession of
/// a token that is signed and unexpired is the sole proof of identity.
pub struct Claims {
    pub sub: String,
    pub exp: i64,
    pub name: String,
}

/// The token produced by signing the claims `(sub, name, exp)` under `secret`
/// with HMAC-SHA256. The result is a function of these four values alone; no
/// contract states its value on concrete inputs.
pub uninterp spec fn token_of(secret: Seq<char>, sub: Seq<char>, name: Seq<char>, exp: int) -> Seq<char>;

/// The claims `(sub, name, exp)` that expiry-blind HS256 decoding extracts
/// from `token` under `secret`, or `None` when the token is rejected. With
/// expiry checking turned off no clock is read, so this is a function of the
/// secret and the token alone. Acceptance means the presented bytes carry a
/// valid signature under the secret; it is not limited to the one canonical
/// serialization that signing produces.
pub uninterp spec fn decoded_claims(secret: Seq<char>, token: Seq<char>) -> Option<(Seq<char>, Seq<char>, int)>;

/// Relies on jsonwebtoken's `encode` with `Algorithm::HS256`: the returned
/// compact token is a deterministic function of the signing secret and the
/// claims. With the HMAC provider compiled in, no step can fail: the key
/// families match, a string-keyed JSON object always serializes, and HMAC
/// accepts a key of any length, so the call always returns a token.
#[verifier::external_body]
fn hs256_sign(secret: &str, sub: &str, name: &str, exp: i64) -> (r: Result<String, ()>)
    ensures
        r is Ok,
        r matches Ok(t) ==> t@ == token_of(secret@, sub@, name@, exp as int),
{
    let mut claims = serde_json::Map::new();
    claims.insert("sub".to_string(), serde_json::Value::from(sub));
    claims.insert("name".to_string(), serde_json::Value::from(name));
    claims.insert("exp".to_string(), serde_json::Value::from(exp));
    let header = jsonwebtoken::Header::new(jsonwebtoken::Algorithm::HS256);
    let key = jsonwebtoken::EncodingKey::from_secret(secret.as_bytes());
    match jsonwebtoken::encode(&header, &serde_json::Value::Object(claims), &key) {
        Ok(t) => Ok(t),
        Err(_) => Err(()),
    }
}

/// Whether `r` is an outcome of expiry-blind decoding of `token` under
/// `secret` that honours every signature made by signing: claims signed into
/// `token` with an expiry in signing's own range come back unchanged, while a
/// signed token whose expiry is negative is rejected (validation demands an
/// expiry claim that parses as an unsigned 64-bit number).
pub open spec fn decodes_all_signed(secret: Seq<char>, token: Seq<char>, r: Option<Claims>) -> bool {
    forall|sub: Seq<char>, name: Seq<char>, exp: int|
        token == #[trigger] token_of(secret, sub, name, exp) ==> {
            &&& 0 <= exp <= i64::MAX ==> (r matches Some(c) && c.sub@ == sub && c.name@ == name
                && c.exp == exp)
            &&& exp < 0 ==> r is None
        }
}

/// Relies on jsonwebtoken's `decode` with `Algorithm::HS256` and expiry
/// checking turned off, so that no clock is read and the outcome is the
/// function of the secret and the token that `decoded_claims` names. A token
/// produced by signing comes back with its claims unchanged when its expiry
/// is nonnegative, and is rejected when it is negative (the required `exp`
/// claim must parse as an unsigned 64-bit number). Nothing here pins an
/// accepted token to the canonical signing output: any presented serialization
/// whose signature verifies under the secret is accepted.
#[verifier::external_body]
fn hs256_decode(secret: &str, token: &str) -> (r: Option<Claims>)
    ensures
        r is Some <==> decoded_claims(secret@, token@) is Some,
        r matches Some(c) ==> decoded_claims(secret@, token@) == Some(
            (c.sub@, c.name@, c.exp as int),
        ),
        decodes_all_signed(secret@, token@, r),
{
    let key = jsonwebtoken::DecodingKey::from_secret(secret.as_bytes());
    let mut validation = jsonwebtoken::Validation::new(jsonwebtoken::Algorithm::HS256);
    validation.validate_exp = false;
    let data = jsonwebtoken::decode::<serde_json::Value>(token, &key, &validation).ok()?.claims;
    let sub = data.get("sub")?.as_str()?.to_string();
    let name = data.get("name")?.as_str()?.to_string();
    let exp = data.get("exp")?.as_i64()?;
    Some(Claims { sub, exp, name })
}

/// Relies on chrono's `Utc::now` (epoch seconds): reads the system clock;
/// nothing is promised of the value.
#[verifier::external_body]
fn unix_now_secs() -> i64 {
    chrono::Utc::now().timestamp()
}

/// Whether `token` is accepted at time `now_secs`: its signature verifies
/// under `secret` and its expiry claim lies strictly in the future.
pub open spec fn token_accepted(secret: Seq<char>, token: Seq<char>, now_secs: int) -> bool {
    decoded_claims(secret, token) matches Some(c) && c.2 > now_secs
}

/// Signs a session token for `email` issued at `now_secs`, expiring seven
/// days later. Signing cannot fail.
pub fn create_token_at(secret: &str, email: &str, name: &str, now_secs: i64) -> (r: Result<String, AuthError>)
    requires
        now_secs <= i64::MAX - SESSION_LIFETIME_SECS,
    ensures
        r is Ok,
        r matches Ok(t) ==> t@ == token_of(secret@, email@, name@, now_secs + SESSION_LIFETIME_SECS),
{
    let exp = now_secs + SESSION_LIFETIME_SECS;
    match hs256_sign(secret, email, name, exp) {
        Ok(t) => Ok(t),
        Err(_) => Err(AuthError::InternalError),
    }
}

/// Signs a session token for `email` issued at the current clock reading,
/// which always succeeds. A clock reading within seven days of `i64::MAX`
/// cannot occur in any real run; the issuing time is clamped so that the
/// expiry arithmetic stays in range even then.
pub fn create_token(secret: &str, email: &str, name: &str) -> (r: Result<String, AuthError>)
    ensures
        r is Ok,
        r matches Ok(t) ==> exists|issued: int|
            t@ == #[trigger] token_of(secret@, email@, name@, issued + SESSION_LIFETIME_SECS),
{
    let now = unix_now_secs();
    let issued = if now <= i64::MAX - SESSION_LIFETIME_SECS {
        now
    } else {
        i64::MAX - SESSION_LIFETIME_SECS
    };
    let r = create_token_at(secret, email, name, issued);
    proof {
        if r is Ok {
            assert(r->Ok_0@ == token_of(secret@, email@, name@, issued as int + SESSION_LIFETIME_SECS));
        }
    }
    r
}

/// Whether `r` is the correct validation outcome at `now_secs` for every
/// reading of `token` as a signing output under `secret`: claims signed with
/// an in-range expiry in the future are returned as they were signed, and
/// claims whose expiry is not in the future are rejected as invalid.
pub open spec fn validates_signed_claims(
    secret: Seq<char>,
    token: Seq<char>,
    now_secs: int,
    r: Result<Claims, AuthError>,
) -> bool {
    forall|sub: Seq<char>, name: Seq<char>, exp: int|
        token == #[trigger] token_of(secret, sub, name, exp) ==> {
            &&& (0 <= exp <= i64::MAX && exp > now_secs) ==> (r matches Ok(c) && c.sub@ == sub
                && c.name@ == name && c.exp == exp)
            &&& exp <= now_secs ==> r == Err::<Claims, AuthError>(AuthError::InvalidTokenError)
        }
}

/// Validates a bearer token at time `now_secs`: checks the signature and that
/// the expiry claim lies strictly in the future, and returns the claims.
pub fn decode_token(secret: &str, token: &str, now_secs: i64) -> (r: Result<Claims, AuthError>)
    ensures
        r is Ok <==> token_accepted(secret@, token@, now_secs as int),
        r matches Ok(c) ==> decoded_claims(secret@, token@) == Some(
            (c.sub@, c.name@, c.exp as int),
        ) && c.exp > now_secs,
        validates_signed_claims(secret@, token@, now_secs as int, r),
        r is Err ==> r == Err::<Claims, AuthError>(AuthError::InvalidTokenError),
{
    match hs256_decode(secret, token) {
        Some(c) => {
            if c.exp > now_secs {
                Ok(c)
            } else {
                Err(AuthError::InvalidTokenError)
            }
        },
        None => Err(AuthError::InvalidTokenError),
    }
}

/// Law: a token issued at a nonnegative time is accepted by validation at
/// that same time, with its claims intact (its expiry lies seven days in the
/// future), whatever outcome the validator's contract allows for it.
pub proof fn lemma_fresh_token_validates(
    secret: Seq<char>,
    sub: Seq<char>,
    name: Seq<char>,
    now_secs: int,
    r: Result<Claims, AuthError>,
)
    ensures
        (0 <= now_secs && now_secs + SESSION_LIFETIME_SECS <= i64::MAX && validates_signed_claims(
            secret,
            token_of(secret, sub, name, now_secs + SESSION_LIFETIME_SECS),
            now_secs,
            r,
        )) ==> (r matches Ok(c) && c.sub@ == sub && c.name@ == name && c.exp == now_secs
            + SESSION_LIFETIME_SECS),
{
}

/// Law: a token whose expiry is not strictly in the future is rejected by
/// validation, however valid its signature.
pub proof fn lemma_expired_token_rejected(
    secret: Seq<char>,
    sub: Seq<char>,
    name: Seq<char>,
    exp: int,
    now_secs: int,
    r: Result<Claims, AuthError>,
)
    ensures
        (exp <= now_secs && validates_signed_claims(
            secret,
            token_of(secret, sub, name, exp),
            now_secs,
            r,
        )) ==> r == Err::<Claims, AuthError>(AuthError::InvalidTokenError),
{
}

} // verus!
