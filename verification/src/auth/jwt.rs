//! Access tokens: HS256-signed JSON Web Tokens that name a user for 24 hours.
use vstd::prelude::*;
use jsonwebtoken::{decode, encode, DecodingKey, EncodingKey, Header, Validation};
use serde_json::Value;
use crate::clock::{now_seconds, LATEST_SECOND};
use crate::ids::{uuid_parsed, uuid_text, uuid_to_string};

verus! {

/// How long an access token stays valid after it is issued: 24 hours, in seconds.
pub const TOKEN_LIFETIME: i64 = 86_400;

/// The claims an access token carries: the user's identifier as text
/// (`sub`), the user's email, the expiry and the issue time (seconds since
/// the Unix epoch).
#[derive(Debug, Clone, PartialEq, Eq)]
pub struct Claims {
    pub sub: String,
    pub email: String,
    pub exp: i64,
    pub iat: i64,
}

/// The error type of `jsonwebtoken`, carried through unopened.
#[verifier::external_type_specification]
#[verifier::external_body]
pub struct ExJwtError(jsonwebtoken::errors::Error);

/// Why a token was not accepted.
#[derive(Debug)]
pub enum TokenError {
    /// `jsonwebtoken` refused it: bad format, bad signature, wrong
    /// algorithm, expired, or a payload that is not a JSON object.
    Rejected(jsonwebtoken::errors::Error),
    /// Its payload lacks one of the four claims, or holds it with the wrong type.
    MissingClaims,
}

/// The compact JWT that `jsonwebtoken::encode` makes with the default
/// header (HS256) from the JSON object `{"sub", "email", "exp", "iat"}`
/// (in that order) and the HMAC secret.
pub uninterp spec fn hs256_token(
    sub: Seq<char>,
    email: Seq<char>,
    exp: i64,
    iat: i64,
    secret: Seq<char>,
) -> Seq<char>;

/// The claims `(sub, email, exp, iat)` that `jsonwebtoken::decode` reads
/// from `token` with this HMAC secret when the clock plays no part: the
/// token's header names HS256, its signature is valid for the secret, and
/// its payload is a JSON object holding `sub` and `email` as strings and
/// `exp` and `iat` as integers that fit in an `i64`. `None` otherwise.
pub uninterp spec fn hs256_claims(token: Seq<char>, secret: Seq<char>) -> Option<
    (Seq<char>, Seq<char>, i64, i64),
>;

/// The HS256 signature that `jsonwebtoken` computes over a token's signed
/// part `message` (its text before the last `.`) with this HMAC secret: the
/// unpadded base64url text of HMAC-SHA256 keyed by the secret's bytes.
pub uninterp spec fn hs256_signature(message: Seq<char>, secret: Seq<char>) -> Seq<char>;

/// `token` carries a valid HS256 signature for `secret`: it is some signed
/// part, a `.`, and the signature of that part.
pub open spec fn signed_with(token: Seq<char>, secret: Seq<char>) -> bool {
    exists|message: Seq<char>|
        token == message + "."@ + #[trigger] hs256_signature(message, secret)
}

/// Signs claims with `jsonwebtoken::encode` (default header, HS256, key
/// from the secret's bytes); the claims become a JSON object with the
/// fields `sub`, `email`, `exp`, `iat` in that order.
/// Trusted: the call succeeds (the crate's `encode` fails only on a
/// key/algorithm family mismatch, which an HMAC key with HS256 is not, on a
/// serialisation error, which a default header and a map of strings and
/// integers cannot raise, or in non-HMAC signing); the token is
/// `hs256_token` of the claims and the secret, and decoding it with the same
/// secret gives the same claims back (serde_json writes and reads these
/// strings and integers unchanged); the token is its signed part, a `.`, and
/// `hs256_signature` of that part (`crypto::sign` with HS256).
#[verifier::external_body]
fn encode_claims(claims: &Claims, secret: &str) -> (r: Result<String, jsonwebtoken::errors::Error>)
    ensures
        r is Ok,
        r matches Ok(t) ==> t@ == hs256_token(
            claims.sub@,
            claims.email@,
            claims.exp,
            claims.iat,
            secret@,
        ),
        r matches Ok(t) ==> hs256_claims(t@, secret@) == Some(
            (claims.sub@, claims.email@, claims.exp, claims.iat),
        ),
        r matches Ok(t) ==> exists|m: Seq<char>|
            t@ == m + "."@ + #[trigger] hs256_signature(m, secret@),
{
    let mut m = serde_json::Map::new();
    m.insert("sub".to_string(), Value::from(claims.sub.as_str()));
    m.insert("email".to_string(), Value::from(claims.email.as_str()));
    m.insert("exp".to_string(), Value::from(claims.exp));
    m.insert("iat".to_string(), Value::from(claims.iat));
    encode(&Header::default(), &m, &EncodingKey::from_secret(secret.as_bytes()))
}

/// Decodes a token with `jsonwebtoken::decode` (HS256 only, key from the
/// secret's bytes, `Validation::default()`: `exp` required and checked
/// against the clock with 60 s of leeway) into a JSON object, and reads the
/// four claims from it.
/// Trusted: a token is accepted only when its text after the last `.` is
/// `hs256_signature` of the text before it (the crate re-signs that part
/// with the secret and compares, and accepts HS256 only); claims that come
/// back are `hs256_claims` of the token and the secret; `Ok(None)` (a
/// verified token whose payload lacks a typed claim) comes only where
/// `hs256_claims` is `None`. Whether a well-signed token is
/// refused as expired depends on the clock and is not stated.
#[verifier::external_body]
fn decode_claims(token: &str, secret: &str) -> (r: Result<Option<Claims>, jsonwebtoken::errors::Error>)
    ensures
        r matches Ok(Some(c)) ==> hs256_claims(token@, secret@) == Some(
            (c.sub@, c.email@, c.exp, c.iat),
        ),
        r matches Ok(None) ==> hs256_claims(token@, secret@) is None,
        r is Ok ==> exists|m: Seq<char>|
            token@ == m + "."@ + #[trigger] hs256_signature(m, secret@),
{
    let key = DecodingKey::from_secret(secret.as_bytes());
    let c = decode::<serde_json::Map<String, Value>>(token, &key, &Validation::default())?.claims;
    Ok(match (c.get("sub"), c.get("email"), c.get("exp"), c.get("iat")) {
        (Some(Value::String(sub)), Some(Value::String(email)), Some(exp), Some(iat)) => exp.as_i64(
        ).zip(iat.as_i64()).map(|(exp, iat)| Claims { sub: sub.clone(), email: email.clone(), exp, iat }),
        _ => None,
    })
}

/// The claims of a token issued at `now` to the user `user_id` with this email.
pub fn issue_claims(user_id: u128, email: &str, now: i64) -> (c: Claims)
    requires
        now <= i64::MAX - TOKEN_LIFETIME,
    ensures
        c.sub@ == uuid_text(user_id),
        uuid_parsed(c.sub@) == Some(user_id),
        c.email@ == email@,
        c.iat == now,
        c.exp == now + TOKEN_LIFETIME,
{
    Claims {
        sub: uuid_to_string(user_id),
        email: String::from_str(email),
        exp: now + TOKEN_LIFETIME,
        iat: now,
    }
}

/// `token` is the access token issued at `iat` for this user and email,
/// signed with `secret`: it carries the user's identifier as text, the
/// email, the issue time and an expiry 24 hours later, and reads back as
/// exactly those claims.
pub open spec fn issued_token(
    token: Seq<char>,
    user_id: u128,
    email: Seq<char>,
    secret: Seq<char>,
    iat: i64,
) -> bool {
    &&& iat <= i64::MAX - TOKEN_LIFETIME
    &&& token == hs256_token(uuid_text(user_id), email, (iat + TOKEN_LIFETIME) as i64, iat, secret)
    &&& hs256_claims(token, secret) == Some(
        (uuid_text(user_id), email, (iat + TOKEN_LIFETIME) as i64, iat),
    )
    &&& uuid_parsed(uuid_text(user_id)) == Some(user_id)
    &&& signed_with(token, secret)
}

/// The access token issued at `now` for this user, signed with `secret`.
pub fn access_token_at(user_id: u128, email: &str, secret: &str, now: i64) -> (r: Result<
    String,
    jsonwebtoken::errors::Error,
>)
    requires
        now <= i64::MAX - TOKEN_LIFETIME,
    ensures
        r is Ok,
        r matches Ok(t) ==> issued_token(t@, user_id, email@, secret@, now),
{
    let claims = issue_claims(user_id, email, now);
    encode_claims(&claims, secret)
}

/// A new access token for this user, issued now and valid for 24 hours.
pub fn create_access_token(user_id: u128, email: &str, secret: &str) -> (r: Result<
    String,
    jsonwebtoken::errors::Error,
>)
    ensures
        r is Ok,
        r matches Ok(t) ==> exists|iat: i64|
            0 <= iat <= LATEST_SECOND && #[trigger] issued_token(t@, user_id, email@, secret@, iat),
{
    let now = now_seconds();
    access_token_at(user_id, email, secret, now)
}

/// The claims of a token signed with `secret`, if `jsonwebtoken` accepts it
/// now.
pub fn verify_token(token: &str, secret: &str) -> (r: Result<Claims, TokenError>)
    ensures
        r matches Ok(c) ==> hs256_claims(token@, secret@) == Some((c.sub@, c.email@, c.exp, c.iat)),
        r matches Err(TokenError::MissingClaims) ==> hs256_claims(token@, secret@) is None,
        !signed_with(token@, secret@) ==> r matches Err(TokenError::Rejected(_)),
{
    match decode_claims(token, secret) {
        Ok(Some(claims)) => Ok(claims),
        Ok(None) => Err(TokenError::MissingClaims),
        Err(e) => Err(TokenError::Rejected(e)),
    }
}

} // verus!
