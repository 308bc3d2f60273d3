//! The claims record carried inside a signed token, and its semantic
//! validation.
//!
//! Validation aggregates: every failing condition is recorded in order, and
//! the whole list is reported, never just the first finding.

use vstd::prelude::*;
use vstd::string::StringExecFns;

use crate::errors::ApiError;
use crate::text::blank;
use crate::text::is_blank;

verus! {

/// The identity payload of a signed token.
#[derive(Debug, Clone, PartialEq, Eq)]
pub struct Claims {
    pub id: String,
    pub public_id: i32,
    pub user_type: String,
    pub email: String,
    pub exp: u64,
}

/// The mathematical model of a claims record.
#[verifier::ext_equal]
pub ghost struct ClaimsView {
    pub id: Seq<char>,
    pub public_id: int,
    pub user_type: Seq<char>,
    pub email: Seq<char>,
    pub exp: int,
}

impl View for Claims {
    type V = ClaimsView;

    open spec fn view(&self) -> ClaimsView {
        ClaimsView {
            id: self.id@,
            public_id: self.public_id as int,
            user_type: self.user_type@,
            email: self.email@,
            exp: self.exp as int,
        }
    }
}

/// The identity an authenticated user presents to the token issuer.
#[derive(Debug, Clone, PartialEq, Eq)]
pub struct UserAuthInfo {
    pub id: String,
    pub public_id: i32,
    pub email: String,
    pub user_type: String,
}

/// The mathematical model of an identity record.
#[verifier::ext_equal]
pub ghost struct UserAuthInfoView {
    pub id: Seq<char>,
    pub public_id: int,
    pub email: Seq<char>,
    pub user_type: Seq<char>,
}

impl View for UserAuthInfo {
    type V = UserAuthInfoView;

    open spec fn view(&self) -> UserAuthInfoView {
        UserAuthInfoView {
            id: self.id@,
            public_id: self.public_id as int,
            email: self.email@,
            user_type: self.user_type@,
        }
    }
}

/// The claims issued for identity `u` at time `now`: the identity fields
/// unchanged, with a one-hour expiration window.
pub open spec fn claims_for(u: UserAuthInfoView, now: int) -> ClaimsView {
    ClaimsView {
        id: u.id,
        public_id: u.public_id,
        user_type: u.user_type,
        email: u.email,
        exp: now + 3600,
    }
}

/// The description of a blank subject id.
pub open spec fn msg_invalid_id() -> Seq<char> {
    "Invalid ID"@
}

/// The description of a zero public id.
pub open spec fn msg_invalid_public_id() -> Seq<char> {
    "Invalid Public ID"@
}

/// The description of an empty email.
pub open spec fn msg_invalid_email() -> Seq<char> {
    "Invalid E-mail"@
}

/// The description of a zero expiration timestamp.
pub open spec fn msg_invalid_expiration() -> Seq<char> {
    "Invalid expiration date"@
}

/// The description of an expired token.
pub open spec fn msg_expired() -> Seq<char> {
    "Expired token"@
}

/// The ordered list of every condition `c` fails at time `now`: blank
/// subject id, zero public id, empty email, zero expiration, expiration at
/// or before `now`.
pub open spec fn violations(c: ClaimsView, now: int) -> Seq<Seq<char>> {
    (if blank(c.id) {
        seq![msg_invalid_id()]
    } else {
        Seq::<Seq<char>>::empty()
    }) + (if c.public_id == 0 {
        seq![msg_invalid_public_id()]
    } else {
        Seq::<Seq<char>>::empty()
    }) + (if c.email.len() == 0 {
        seq![msg_invalid_email()]
    } else {
        Seq::<Seq<char>>::empty()
    }) + (if c.exp == 0 {
        seq![msg_invalid_expiration()]
    } else {
        Seq::<Seq<char>>::empty()
    }) + (if c.exp <= now {
        seq![msg_expired()]
    } else {
        Seq::<Seq<char>>::empty()
    })
}

/// Claims are valid at time `now` when no condition fails: the subject id is
/// not blank, the public id is not zero, the email is not empty, and the
/// expiration is non-zero and strictly after `now`.
pub open spec fn valid_claims(c: ClaimsView, now: int) -> bool {
    !blank(c.id) && c.public_id != 0 && c.email.len() > 0 && c.exp != 0 && c.exp > now
}

/// Checks the decoded claims against the current time, reporting every
/// failed condition at once.
pub fn validate_claims(claims: &Claims, now: u64) -> (r: Result<(), ApiError>)
    ensures
        r is Ok <==> valid_claims(claims@, now as int),
        r matches Err(e) ==> (e matches ApiError::MultipleAuthorizationErrors(v)
            && v.deep_view() == violations(claims@, now as int)),
{
    let mut errors: Vec<String> = Vec::new();
    if is_blank(claims.id.as_str()) {
        errors.push(String::from_str("Invalid ID"));
    }
    if claims.public_id == 0 {
        errors.push(String::from_str("Invalid Public ID"));
    }
    if claims.email.as_str().is_empty() {
        errors.push(String::from_str("Invalid E-mail"));
    }
    if claims.exp == 0 {
        errors.push(String::from_str("Invalid expiration date"));
    }
    if claims.exp <= now {
        errors.push(String::from_str("Expired token"));
    }
    proof {
        assert(errors.deep_view() =~~= violations(claims@, now as int));
    }
    if errors.len() == 0 {
        Ok(())
    } else {
        Err(ApiError::MultipleAuthorizationErrors(errors))
    }
}

} // verus!
