//! Session tokens: a signed, stateless, time-bounded credential carrying a
//! user id. Issuing and signature checking go through the jsonwebtoken
//! crate; the expiry check and the subject parse are the validator's own logic
//! and are verified here.

use crate::dto::TokenClaims;
use crate::error::ServiceError;
use crate::numeral::{dec_value, is_canonical_dec, parse_decimal, u32_to_decimal};
use jsonwebtoken::{decode, encode, Algorithm, DecodingKey, EncodingKey, Header, Validation};
use serde_json::Value;
use std::collections::HashSet;
use vstd::prelude::*;

verus! {

/// Seconds a freshly issued token stays valid: sixty minutes.
pub const TOKEN_LIFETIME_SECS: u64 = 3600;

/// The signed token text that encodes the claims `{sub, iat, exp}` under
/// `secret`. HS256 signing is deterministic, so this is a function of the
/// four arguments alone.
pub uninterp spec fn token_of(sub: Seq<char>, iat: u64, exp: u64, secret: Seq<u8>) -> Seq<char>;

/// What signature checking makes of a token under a secret: the claims
/// `(sub, iat, exp)` when the token's signature verifies under the secret
/// and its payload carries them, and nothing otherwise. Verification
/// recomputes the signature from the token text and the secret, so this is
/// a function of the two arguments alone.
pub uninterp spec fn decoded_claims(token: Seq<char>, secret: Seq<u8>) -> Option<
    (Seq<char>, u64, u64),
>;

/// Relies on jsonwebtoken's `encode` with the default HS256 header: for an
/// HMAC key and a JSON object with string keys, signing cannot fail, and
/// the crate's own `decode` recovers exactly the claims that went in.
#[verifier::external_body]
fn jwt_encode(sub: &str, iat: u64, exp: u64, secret: &[u8]) -> (r: String)
    ensures
        r@ == token_of(sub@, iat, exp, secret@),
        decoded_claims(r@, secret@) == Some((sub@, iat, exp)),
{
    let mut m = serde_json::Map::new();
    m.insert("sub".to_string(), Value::String(sub.to_string()));
    m.insert("exp".to_string(), Value::from(exp));
    m.insert("iat".to_string(), Value::from(iat));
    let key = EncodingKey::from_secret(secret);
    encode(&Header::default(), &Value::Object(m), &key).expect("HS256 signing cannot fail")
}

/// Relies on jsonwebtoken's `decode`: it verifies the HS256 signature
/// against the secret and hands back the claims carried in the payload.
/// Expiry is deliberately not checked here — the validator below does
/// that — so claim validation is switched off and only the signature and
/// the claim shape decide.
#[verifier::external_body]
fn jwt_decode(token: &str, secret: &[u8]) -> (r: Result<TokenClaims, ServiceError>)
    ensures
        match r {
            Ok(c) => decoded_claims(token@, secret@) == Some((c.sub@, c.iat, c.exp)),
            Err(e) => decoded_claims(token@, secret@) is None && e is Unauthorized,
        },
{
    let mut v = Validation::new(Algorithm::HS256);
    v.validate_exp = false;
    v.required_spec_claims = HashSet::new();
    let key = DecodingKey::from_secret(secret);
    let data = decode::<Value>(token, &key, &v).map_err(|_| ServiceError::Unauthorized)?;
    let sub = data.claims.get("sub").and_then(|x| x.as_str()).ok_or(ServiceError::Unauthorized)?;
    let iat = data.claims.get("iat").and_then(|x| x.as_u64()).ok_or(ServiceError::Unauthorized)?;
    let exp = data.claims.get("exp").and_then(|x| x.as_u64()).ok_or(ServiceError::Unauthorized)?;
    Ok(TokenClaims { sub: sub.to_string(), exp, iat })
}

/// The validator's whole decision on what signature checking produced: reject
/// when the signature failed, reject when the expiry is not in the future,
/// reject when the subject is not a canonical user id, and bind the id
/// otherwise. Every rejection is the same `Unauthorized`, so a caller
/// cannot tell which step failed.
pub open spec fn session_decision(d: Option<(Seq<char>, u64, u64)>, now: u64) -> Result<
    i32,
    ServiceError,
> {
    match d {
        None => Err(ServiceError::Unauthorized),
        Some((sub, iat, exp)) => if exp <= now {
            Err(ServiceError::Unauthorized)
        } else if is_canonical_dec(sub) && dec_value(sub) <= i32::MAX {
            Ok(dec_value(sub) as i32)
        } else {
            Err(ServiceError::Unauthorized)
        },
    }
}

/// The spec-level claims of a decode outcome.
pub open spec fn claims_view(d: Result<TokenClaims, ServiceError>) -> Option<
    (Seq<char>, u64, u64),
> {
    match d {
        Ok(c) => Some((c.sub@, c.iat, c.exp)),
        Err(_) => None,
    }
}

/// Decide a session from what signature checking produced: the expiry
/// check against `now` and the subject parse, exactly as `session_decision` says.
pub fn session_from_claims(d: Result<TokenClaims, ServiceError>, now: u64) -> (r: Result<
    i32,
    ServiceError,
>)
    ensures
        r == session_decision(claims_view(d), now),
{
    match d {
        Err(_) => Err(ServiceError::Unauthorized),
        Ok(c) => {
            if c.exp <= now {
                Err(ServiceError::Unauthorized)
            } else {
                match parse_decimal(c.sub.as_str()) {
                    Some(n) => {
                        if n <= i32::MAX as u32 {
                            Ok(n as i32)
                        } else {
                            Err(ServiceError::Unauthorized)
                        }
                    },
                    None => Err(ServiceError::Unauthorized),
                }
            }
        },
    }
}

/// The session validator: decode and verify the token, check its expiry against
/// `now`, and bind the authenticated user id. The result is exactly the
/// validator's decision on what signature checking made of the token.
pub fn validate_token(token: &str, now: u64, secret: &[u8]) -> (r: Result<i32, ServiceError>)
    ensures
        r == session_decision(decoded_claims(token@, secret@), now),
{
    let d = jwt_decode(token, secret);
    session_from_claims(d, now)
}

/// The validator on an optional credential, as a request dispatcher sees it: a
/// request without a token is rejected like any invalid one.
pub fn validate_request(token: Option<&String>, now: u64, secret: &[u8]) -> (r: Result<
    i32,
    ServiceError,
>)
    ensures
        r == match token {
            None => Err::<i32, ServiceError>(ServiceError::Unauthorized),
            Some(t) => session_decision(decoded_claims(t@, secret@), now),
        },
{
    match token {
        None => Err(ServiceError::Unauthorized),
        Some(t) => validate_token(t.as_str(), now, secret),
    }
}

/// Mint a token for a user: subject is the decimal user id, issued at
/// `now`, expiring sixty minutes later.
pub fn issue_token(user_id: i32, secret: &[u8], now: u64) -> (r: String)
    requires
        0 <= user_id,
        now + TOKEN_LIFETIME_SECS <= u64::MAX,
    ensures
        (exists|sub: Seq<char>|
            is_canonical_dec(sub) && dec_value(sub) == user_id && r@ == token_of(
                sub,
                now,
                (now + TOKEN_LIFETIME_SECS) as u64,
                secret@,
            ) && decoded_claims(r@, secret@) == Some(
                (sub, now, (now + TOKEN_LIFETIME_SECS) as u64),
            )),
{
    let sub = u32_to_decimal(user_id as u32);
    jwt_encode(sub.as_str(), now, now + TOKEN_LIFETIME_SECS, secret)
}

/// An expired token is always rejected, regardless of signature validity:
/// even when the signature verifies and the claims decode, an expiry not in
/// the future ends in the undifferentiated rejection.
pub proof fn lemma_expired_token_rejected(
    sub: Seq<char>,
    iat: u64,
    exp: u64,
    now: u64,
)
    requires
        exp <= now,
    ensures
        session_decision(Some((sub, iat, exp)), now) == Err::<i32, ServiceError>(
            ServiceError::Unauthorized,
        ),
{
}

/// A token signed with a different secret is rejected, under the
/// key-separation hypothesis that the two secrets never validate each
/// other's tokens. The hypothesis is stated, not assumed of the crypto:
/// HS256 preprocesses keys per RFC 2104 (zero-padding short ones), so a
/// secret and its zero-padded extension validate the same tokens, and no
/// contract of this crate claims otherwise. The validator then rejects
/// whatever fails to decode.
pub proof fn lemma_foreign_secret_rejected(
    token: Seq<char>,
    issuing_secret: Seq<u8>,
    validating_secret: Seq<u8>,
    now: u64,
)
    requires
        issuing_secret != validating_secret,
        forall|other: Seq<u8>| other != issuing_secret ==> decoded_claims(token, other) is None,
    ensures
        session_decision(decoded_claims(token, validating_secret), now) == Err::<i32, ServiceError>(
            ServiceError::Unauthorized,
        ),
{
}

/// A freshly issued, unexpired token is accepted and binds exactly the
/// issuing user: the round trip from issue to validation.
pub proof fn lemma_fresh_token_validates(
    token: Seq<char>,
    sub: Seq<char>,
    iat: u64,
    exp: u64,
    secret: Seq<u8>,
    user_id: i32,
    now: u64,
)
    requires
        decoded_claims(token, secret) == Some((sub, iat, exp)),
        is_canonical_dec(sub),
        dec_value(sub) == user_id,
        0 <= user_id,
        now < exp,
    ensures
        session_decision(decoded_claims(token, secret), now) == Ok::<i32, ServiceError>(user_id),
{
}

} // verus!
