//! The authentication gate: extracting a bearer token from an
//! `Authorization` header value and running it through signature
//! verification and claims validation.
//!
//! The first failing stage ends the check for that request.

use vstd::prelude::*;
use vstd::string::StrSliceExecFns;

use crate::claims::Claims;
use crate::claims::valid_claims;
use crate::claims::validate_claims;
use crate::claims::violations;
use crate::errors::ApiError;
use crate::text::trim_spec;
use crate::text::trim_str;
use crate::token::decode_token;
use crate::token::decoded_claims;

verus! {

/// The literal prefix a bearer header must carry, trailing space included.
pub open spec fn bearer_prefix() -> Seq<char> {
    seq!['B', 'e', 'a', 'r', 'e', 'r', ' ']
}

/// Whether the header value starts with `Bearer `.
pub open spec fn has_bearer_prefix(h: Seq<char>) -> bool {
    h.len() >= 7 && h.subrange(0, 7) == bearer_prefix()
}

/// The raw token of a well-prefixed header value: everything after the
/// prefix, whitespace trimmed from both ends.
pub open spec fn token_of_header(h: Seq<char>) -> Seq<char> {
    trim_spec(h.skip(7))
}

/// Extracts the raw bearer token from the `Authorization` header value, if
/// the header is present and carries the `Bearer ` prefix.
pub fn extract_bearer_token(header: Option<&String>) -> (r: Result<String, ApiError>)
    ensures
        match r {
            Ok(t) => header matches Some(h) && has_bearer_prefix(h@) && t@ == token_of_header(h@),
            Err(e) => (header is None || !has_bearer_prefix(header.unwrap()@)) && e
                matches ApiError::InvalidAuthorizationToken,
        },
{
    match header {
        None => Err(ApiError::InvalidAuthorizationToken),
        Some(h) => {
            let hs = h.as_str();
            let n = hs.unicode_len();
            if n >= 7 && hs.get_char(0) == 'B' && hs.get_char(1) == 'e' && hs.get_char(2) == 'a'
                && hs.get_char(3) == 'r' && hs.get_char(4) == 'e' && hs.get_char(5) == 'r'
                && hs.get_char(6) == ' ' {
                proof {
                    assert(h@.subrange(0, 7) =~= bearer_prefix());
                }
                let rest = hs.substring_char(7, n);
                proof {
                    assert(rest@ =~= h@.skip(7));
                }
                Ok(trim_str(rest))
            } else {
                proof {
                    if h@.len() >= 7 && h@.subrange(0, 7) == bearer_prefix() {
                        assert(forall|i: int|
                            0 <= i < 7 ==> h@[i] == #[trigger] h@.subrange(0, 7)[i]);
                    }
                }
                Err(ApiError::InvalidAuthorizationToken)
            }
        },
    }
}

/// The authentication gate: extracts the bearer token, verifies its
/// signature against the shared secret, and validates the decoded claims at
/// time `now`. The first failing stage ends the check; on success the raw
/// token and its claims are handed back.
pub fn extract_claims_from_header(header: Option<&String>, secret: &str, now: u64) -> (r: Result<
    (String, Claims),
    ApiError,
>)
    ensures
        r matches Ok(p) ==> header matches Some(h) && has_bearer_prefix(h@) && p.0@
            == token_of_header(h@) && decoded_claims(p.0@, secret@) == Some(p.1@) && valid_claims(
            p.1@,
            now as int,
        ),
        r matches Err(e) ==> match e {
            ApiError::InvalidAuthorizationToken => header is None || !has_bearer_prefix(
                header.unwrap()@,
            ) || decoded_claims(token_of_header(header.unwrap()@), secret@) is None,
            ApiError::MultipleAuthorizationErrors(v) => header matches Some(h)
                && has_bearer_prefix(h@) && (decoded_claims(token_of_header(h@), secret@)
                matches Some(c) && !valid_claims(c, now as int) && v.deep_view() == violations(
                c,
                now as int,
            )),
            _ => false,
        },
{
    let token = match extract_bearer_token(header) {
        Ok(t) => t,
        Err(e) => {
            return Err(e);
        },
    };
    let claims = match decode_token(token.as_str(), secret) {
        Ok(c) => c,
        Err(e) => {
            return Err(e);
        },
    };
    match validate_claims(&claims, now) {
        Ok(_) => Ok((token, claims)),
        Err(e) => Err(e),
    }
}

} // verus!
