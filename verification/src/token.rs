//! Issuing and verifying signed tokens.
//!
//! A token is an opaque signed string: header, claims payload and an
//! HMAC-SHA256 signature over the first two. Signing and signature
//! verification are done by the `jsonwebtoken` crate behind two trusted
//! wrappers; everything around them — building the claims, mapping
//! failures, validating the decoded claims — is verified.

use vstd::prelude::*;

use crate::claims::Claims;
use crate::claims::ClaimsView;
use crate::claims::UserAuthInfo;
use crate::claims::claims_for;
use crate::errors::ApiError;

verus! {

/// The signed token that the claims `c` and the secret produce. Signing is
/// deterministic: HMAC-SHA256 over a canonical serialization of the claims.
pub uninterp spec fn signed_token(c: ClaimsView, secret: Seq<char>) -> Seq<char>;

/// The outcome of decoding `token` against `secret`: the claims it carries,
/// if the token is well-formed and its signature matches the secret.
pub uninterp spec fn decoded_claims(token: Seq<char>, secret: Seq<char>) -> Option<ClaimsView>;

/// Relies on `jsonwebtoken::encode` with the default header: the token is a
/// deterministic HMAC-SHA256 signing of the claims under the secret, and
/// `jsonwebtoken::decode` recovers from it exactly the claims that were
/// encoded. On this path the call cannot fail: the key is an HMAC key of
/// the header's own family, a JSON object with string keys always
/// serializes, and HMAC signing accepts any key and message.
#[verifier::external_body]
fn jwt_encode(claims: &Claims, secret: &str) -> (r: Result<String, String>)
    ensures
        r is Ok,
        r matches Ok(t) ==> t@ == signed_token(claims@, secret@),
        r matches Ok(t) ==> decoded_claims(t@, secret@) == Some(claims@),
{
    let mut m = serde_json::Map::new();
    m.insert("id".to_string(), serde_json::Value::from(claims.id.as_str()));
    m.insert("public_id".to_string(), serde_json::Value::from(claims.public_id));
    m.insert("user_type".to_string(), serde_json::Value::from(claims.user_type.as_str()));
    m.insert("email".to_string(), serde_json::Value::from(claims.email.as_str()));
    m.insert("exp".to_string(), serde_json::Value::from(claims.exp));
    jsonwebtoken::encode(
        &jsonwebtoken::Header::default(),
        &serde_json::Value::Object(m),
        &jsonwebtoken::EncodingKey::from_secret(secret.as_bytes()),
    ).map_err(|e| e.to_string())
}

/// Relies on `jsonwebtoken::decode` with HMAC-SHA256 and the time-based
/// checks switched off: the outcome is a function of the token and the
/// secret alone, and succeeds only for a well-formed token signed with the
/// secret (one carrying an `aud` claim is rejected under the default
/// settings).
#[verifier::external_body]
fn jwt_decode(token: &str, secret: &str) -> (r: Option<Claims>)
    ensures
        r matches Some(c) ==> decoded_claims(token@, secret@) == Some(c@),
        r is None ==> decoded_claims(token@, secret@) is None,
{
    let mut v = jsonwebtoken::Validation::new(jsonwebtoken::Algorithm::HS256);
    v.validate_exp = false;
    v.required_spec_claims.clear();
    let key = jsonwebtoken::DecodingKey::from_secret(secret.as_bytes());
    let data = jsonwebtoken::decode::<serde_json::Value>(token, &key, &v).ok()?;
    Some(Claims {
        id: data.claims.get("id")?.as_str()?.to_string(),
        public_id: i32::try_from(data.claims.get("public_id")?.as_i64()?).ok()?,
        user_type: data.claims.get("user_type")?.as_str()?.to_string(),
        email: data.claims.get("email")?.as_str()?.to_string(),
        exp: data.claims.get("exp")?.as_u64()?,
    })
}

/// Relies on `chrono::Utc::now`: the current time in whole seconds since the
/// Unix epoch. The count fits a signed 64-bit value; a pre-epoch clock is
/// reported as 0.
#[verifier::external_body]
fn current_timestamp() -> (r: u64)
    ensures
        r <= 0x7fff_ffff_ffff_ffff,
{
    u64::try_from(chrono::Utc::now().timestamp()).unwrap_or(0)
}

/// Builds and signs the claims for identity `input` at time `now`: the
/// identity fields unchanged, expiring one hour later. Issuance always
/// succeeds; the issuance-fault arm stands for a signing failure, which the
/// signing path used here cannot produce.
pub fn issue_token(input: &UserAuthInfo, now: u64, secret: &str) -> (r: Result<String, ApiError>)
    requires
        now + 3600 <= u64::MAX,
    ensures
        r is Ok,
        r matches Ok(t) ==> t@ == signed_token(claims_for(input@, now as int), secret@),
        r matches Ok(t) ==> decoded_claims(t@, secret@) == Some(claims_for(input@, now as int)),
{
    let claims = Claims {
        id: input.id.clone(),
        public_id: input.public_id,
        user_type: input.user_type.clone(),
        email: input.email.clone(),
        exp: now + 3600,
    };
    proof {
        assert(claims@ =~= claims_for(input@, now as int));
    }
    match jwt_encode(&claims, secret) {
        Ok(t) => Ok(t),
        Err(m) => Err(ApiError::CreateToken(m)),
    }
}

/// Issues a token for `input` expiring one hour from the current time.
/// Issuance always succeeds.
pub fn generate_jwt(input: &UserAuthInfo, secret: &str) -> (r: Result<String, ApiError>)
    ensures
        r is Ok,
        r matches Ok(t) ==> exists|now: int|
            0 <= now && t@ == signed_token(#[trigger] claims_for(input@, now), secret@)
                && decoded_claims(t@, secret@) == Some(claims_for(input@, now)),
{
    let now = current_timestamp();
    issue_token(input, now, secret)
}

/// Decodes and signature-checks a raw token. Every structural failure —
/// malformed token, wrong algorithm, signature that does not match the
/// secret — is reported as the same authorization fault.
pub fn decode_token(token: &str, secret: &str) -> (r: Result<Claims, ApiError>)
    ensures
        r matches Ok(c) ==> decoded_claims(token@, secret@) == Some(c@),
        r matches Err(e) ==> decoded_claims(token@, secret@) is None && e
            matches ApiError::InvalidAuthorizationToken,
{
    match jwt_decode(token, secret) {
        Some(c) => Ok(c),
        None => Err(ApiError::InvalidAuthorizationToken),
    }
}

} // verus!
