//! Issuance and verification of the bearer tokens that authenticate
//! requests: HS512-signed JWTs carrying the subject's id and an absolute
//! expiry. One TTL is used everywhere: [`TOKEN_TTL_SECONDS`].
//!
//! The signing secret is configuration, passed in explicitly; expiry is
//! judged against a caller-supplied clock reading, so the decision is
//! verified here rather than inside the token library.

use vstd::prelude::*;

use crate::error::{AppError, ErrorType};

verus! {

/// How long a token stays valid after issuance, in seconds.
pub const TOKEN_TTL_SECONDS: u64 = 300;

/// The token that signing `sub` and `exp` with `secret` produces; the
/// claims are serialized in a fixed order, so the token is a function of
/// the three arguments.
pub uninterp spec fn token_of(secret: Seq<u8>, sub: u128, exp: u64) -> Seq<char>;

/// The subject and expiry that decoding `token` under `secret` yields, if
/// the signature verifies and the claims have the expected shape; `None`
/// otherwise. Expiry is not judged here. A function of token and secret
/// alone.
pub uninterp spec fn claims_of(secret: Seq<u8>, token: Seq<char>) -> Option<(u128, u64)>;

/// Relies on `jsonwebtoken::encode` with HS512: signing is deterministic
/// HMAC, the claims map is ordered, and `jsonwebtoken::decode` under the
/// same secret recovers exactly the claims that were signed. Encoding
/// cannot fail here: the key is built by `from_secret`, so the algorithm
/// families agree, HMAC accepts a key of any length, and serializing the
/// string/number claims map cannot fail. Decoding under a different
/// secret of the same length fails the signature check — this trusts
/// HMAC keys to distinguish signatures, the token library's security
/// promise. Nothing is claimed of secrets of other lengths: HMAC
/// zero-pads short keys, so a padded secret can alias the original.
#[verifier::external_body]
fn encode_token(secret: &[u8], sub: u128, exp: u64) -> (r: Option<String>)
    ensures
        r is Some,
        r matches Some(t) ==> t@ == token_of(secret@, sub, exp) && claims_of(secret@, t@) == Some(
            (sub, exp),
        ) && (forall|other: Seq<u8>|
            other.len() == secret@.len() && other != secret@ ==> claims_of(other, t@) is None),
{
    let header = jsonwebtoken::Header::new(jsonwebtoken::Algorithm::HS512);
    let mut claims = std::collections::BTreeMap::<String, serde_json::Value>::new();
    claims.insert("sub".to_string(), serde_json::Value::String(sub.to_string()));
    claims.insert("exp".to_string(), serde_json::Value::from(exp));
    let key = jsonwebtoken::EncodingKey::from_secret(secret);
    jsonwebtoken::encode(&header, &claims, &key).ok()
}

/// Relies on `jsonwebtoken::decode` with HS512 and expiry validation
/// turned off: a deterministic signature and shape check of the token
/// under the secret, yielding the embedded subject and expiry.
#[verifier::external_body]
fn decode_token(token: &str, secret: &[u8]) -> (r: Option<(u128, u64)>)
    ensures
        r == claims_of(secret@, token@),
{
    let mut validation = jsonwebtoken::Validation::new(jsonwebtoken::Algorithm::HS512);
    validation.validate_exp = false;
    validation.required_spec_claims = std::collections::HashSet::new();
    let key = jsonwebtoken::DecodingKey::from_secret(secret);
    let data = jsonwebtoken::decode::<std::collections::BTreeMap<String, serde_json::Value>>(
        token, &key, &validation,
    ).ok()?;
    let sub = data.claims.get("sub")?.as_str()?.parse::<u128>().ok()?;
    let exp = data.claims.get("exp")?.as_u64()?;
    Some((sub, exp))
}

/// Issues a signed token for the subject, expiring [`TOKEN_TTL_SECONDS`]
/// after `now`; issuance always succeeds.
pub fn create_jwt(sub: u128, secret: &[u8], now: u64) -> (r: Option<String>)
    requires
        now + TOKEN_TTL_SECONDS <= u64::MAX,
    ensures
        r is Some,
        r matches Some(t) ==> t@ == token_of(secret@, sub, (now + TOKEN_TTL_SECONDS) as u64)
            && claims_of(secret@, t@) == Some((sub, (now + TOKEN_TTL_SECONDS) as u64)) && (
        forall|other: Seq<u8>|
            other.len() == secret@.len() && other != secret@ ==> claims_of(other, t@) is None),
{
    encode_token(secret, sub, now + TOKEN_TTL_SECONDS)
}

/// What verifying `token` under `secret` at time `now` yields: the
/// subject when the signature checks out and the expiry is still ahead,
/// nothing otherwise — every failure is the same opaque absence.
pub open spec fn spec_token_subject(secret: Seq<u8>, token: Seq<char>, now: u64) -> Option<u128> {
    match claims_of(secret, token) {
        Some((sub, exp)) => if now < exp {
            Some(sub)
        } else {
            None
        },
        None => None,
    }
}

/// Verifies a token against the secret at time `now`, returning the
/// subject id it asserts; an invalid signature, a malformed token and a
/// past expiry all yield the same opaque `None`.
pub fn verify_token(token: &str, secret: &[u8], now: u64) -> (r: Option<u128>)
    ensures
        r == spec_token_subject(secret@, token@, now),
{
    match decode_token(token, secret) {
        Some((sub, exp)) => {
            if now < exp {
                Some(sub)
            } else {
                None
            }
        },
        None => None,
    }
}

/// Token lifecycle: for a token whose claims under `secret` are `sub`
/// and `exp` — what [`create_jwt`] guarantees of the tokens it issues,
/// together with the failure of every different same-length secret —
/// verification yields `sub` strictly before `exp`, nothing at or after
/// `exp`, and nothing under a different secret of the same length.
pub proof fn lemma_token_lifecycle(
    secret: Seq<u8>,
    other: Seq<u8>,
    t: Seq<char>,
    sub: u128,
    exp: u64,
    now: u64,
)
    requires
        claims_of(secret, t) == Some((sub, exp)),
        (other.len() == secret.len() && other != secret) ==> claims_of(other, t) is None,
    ensures
        now < exp ==> spec_token_subject(secret, t, now) == Some(sub),
        now >= exp ==> spec_token_subject(secret, t, now) is None,
        (other.len() == secret.len() && other != secret) ==> spec_token_subject(other, t, now)
            is None,
{
}

/// Extracts the authenticated subject id from an `Authorization` header
/// value, judging expiry against `now`; any invalid or expired token is
/// one uniform bad-request error.
pub fn get_id_auth_header(header: &str, secret: &[u8], now: u64) -> (r: Result<u128, AppError>)
    ensures
        r matches Ok(sub) ==> spec_token_subject(secret@, header@, now) == Some(sub),
        r matches Err(e) ==> spec_token_subject(secret@, header@, now) is None && e.kind
            == ErrorType::BadRequest && e.message@ == "Invalid token"@,
    {
    match verify_token(header, secret, now) {
        Some(sub) => Ok(sub),
        None => Err(AppError::bad_request(String::from_str("Invalid token"))),
    }
}

} // verus!
