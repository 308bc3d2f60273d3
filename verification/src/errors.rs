//! The closed error type of the service and its canonical rendering.
//!
//! Every fault the core can raise is a variant here; `message` renders the
//! one human-readable description of a fault and `status_code` gives the
//! HTTP status it resolves to at the boundary.

use vstd::prelude::*;
use vstd::string::StringExecFns;

verus! {

/// A fault raised by the service: configuration faults, authentication
/// faults, issuance faults and request-data faults.
#[derive(Debug, Clone, PartialEq, Eq)]
pub enum ApiError {
    Request(String),
    DatabaseConnection(String),
    InvalidAuthorizationToken,
    MultipleAuthorizationErrors(Vec<String>),
    Database(String),
    CreateToken(String),
    InvalidData,
    InvalidEmail,
    EmailNotFound,
    NotActiveUser,
    InvalidPassword,
    FrontendUrl,
    UserNotFound,
}

/// `s` wrapped in double quotes.
pub open spec fn quoted(s: Seq<char>) -> Seq<char> {
    "\""@ + s + "\""@
}

/// The tail of a rendered violation list: `, "x"` for each further entry.
pub open spec fn quoted_rest(v: Seq<Seq<char>>) -> Seq<char>
    decreases v.len(),
{
    if v.len() == 0 {
        Seq::empty()
    } else {
        ", "@ + quoted(v[0]) + quoted_rest(v.drop_first())
    }
}

/// A violation list rendered as `"a", "b", ...`.
pub open spec fn quoted_list(v: Seq<Seq<char>>) -> Seq<char> {
    if v.len() == 0 {
        Seq::empty()
    } else {
        quoted(v[0]) + quoted_rest(v.drop_first())
    }
}

/// The canonical message of each fault.
pub open spec fn message_of(e: ApiError) -> Seq<char> {
    match e {
        ApiError::Request(m) => "Error processing your request: "@ + m@,
        ApiError::DatabaseConnection(m) => "Error while trying to connect to the database: "@
            + m@,
        ApiError::InvalidAuthorizationToken => "Invalid authorization token"@,
        ApiError::MultipleAuthorizationErrors(v) => {
            "Multiple errors while validating the authorization token: ["@ + quoted_list(
                v.deep_view(),
            ) + "]"@
        },
        ApiError::Database(m) => "A database error occurred: "@ + m@,
        ApiError::CreateToken(m) => "Failed to create token: "@ + m@,
        ApiError::InvalidData => "Missing fields in the request"@,
        ApiError::InvalidEmail => "Invalid email provided"@,
        ApiError::EmailNotFound => "User not found by email"@,
        ApiError::NotActiveUser => "User is not active"@,
        ApiError::InvalidPassword => "Invalid password"@,
        ApiError::FrontendUrl => "Missing frontend URL"@,
        ApiError::UserNotFound => "User not found"@,
    }
}

/// The HTTP status a fault resolves to: authentication faults are 401,
/// configuration faults 503, issuance and internal faults 500, and
/// ill-formed request data 400.
pub open spec fn status_of(e: ApiError) -> u16 {
    match e {
        ApiError::Request(_) => 500,
        ApiError::DatabaseConnection(_) => 503,
        ApiError::InvalidAuthorizationToken => 401,
        ApiError::MultipleAuthorizationErrors(_) => 401,
        ApiError::Database(_) => 500,
        ApiError::CreateToken(_) => 500,
        ApiError::InvalidData => 400,
        ApiError::InvalidEmail => 400,
        ApiError::EmailNotFound => 500,
        ApiError::NotActiveUser => 500,
        ApiError::InvalidPassword => 500,
        ApiError::FrontendUrl => 503,
        ApiError::UserNotFound => 500,
    }
}

fn render_rest(v: &Vec<String>, i: usize) -> (r: String)
    requires
        i <= v@.len(),
    ensures
        r@ == quoted_rest(v.deep_view().skip(i as int)),
    decreases v@.len() - i,
{
    if i == v.len() {
        proof {
            assert(v.deep_view().skip(i as int) =~= Seq::<Seq<char>>::empty());
        }
        String::new()
    } else {
        let piece = String::from_str(", \"").concat(v[i].as_str()).concat("\"");
        let tail = render_rest(v, i + 1);
        let out = piece.concat(tail.as_str());
        proof {
            reveal_strlit(", \"");
            reveal_strlit(", ");
            reveal_strlit("\"");
            let w = v.deep_view().skip(i as int);
            assert(w.drop_first() =~= v.deep_view().skip(i + 1));
            assert(w[0] == v.deep_view()[i as int]);
            assert(out@ =~= ", "@ + quoted(w[0]) + quoted_rest(w.drop_first()));
        }
        out
    }
}

impl ApiError {
    /// Renders the canonical message of this fault.
    pub fn message(&self) -> (r: String)
        ensures
            r@ == message_of(*self),
    {
        match self {
            ApiError::Request(m) => String::from_str("Error processing your request: ").concat(
                m.as_str(),
            ),
            ApiError::DatabaseConnection(m) => String::from_str(
                "Error while trying to connect to the database: ",
            ).concat(m.as_str()),
            ApiError::InvalidAuthorizationToken => String::from_str("Invalid authorization token"),
            ApiError::MultipleAuthorizationErrors(v) => {
                let mut out = String::from_str(
                    "Multiple errors while validating the authorization token: [",
                );
                if v.len() > 0 {
                    let head = String::from_str("\"").concat(v[0].as_str()).concat("\"");
                    out = out.concat(head.as_str());
                    let tail = render_rest(v, 1);
                    out = out.concat(tail.as_str());
                    proof {
                        let w = v.deep_view();
                        assert(w.drop_first() =~= w.skip(1));
                        assert(out@ =~= "Multiple errors while validating the authorization token: ["@
                            + quoted_list(w));
                    }
                }
                let out = out.concat("]");
                proof {
                    if v@.len() == 0 {
                        assert(quoted_list(v.deep_view()) =~= Seq::<char>::empty());
                        assert(out@ =~= "Multiple errors while validating the authorization token: ["@
                            + quoted_list(v.deep_view()) + "]"@);
                    }
                }
                out
            },
            ApiError::Database(m) => String::from_str("A database error occurred: ").concat(
                m.as_str(),
            ),
            ApiError::CreateToken(m) => String::from_str("Failed to create token: ").concat(
                m.as_str(),
            ),
            ApiError::InvalidData => String::from_str("Missing fields in the request"),
            ApiError::InvalidEmail => String::from_str("Invalid email provided"),
            ApiError::EmailNotFound => String::from_str("User not found by email"),
            ApiError::NotActiveUser => String::from_str("User is not active"),
            ApiError::InvalidPassword => String::from_str("Invalid password"),
            ApiError::FrontendUrl => String::from_str("Missing frontend URL"),
            ApiError::UserNotFound => String::from_str("User not found"),
        }
    }

    /// The HTTP status this fault resolves to.
    pub fn status_code(&self) -> (r: u16)
        ensures
            r == status_of(*self),
    {
        match self {
            ApiError::Request(_) => 500,
            ApiError::DatabaseConnection(_) => 503,
            ApiError::InvalidAuthorizationToken => 401,
            ApiError::MultipleAuthorizationErrors(_) => 401,
            ApiError::Database(_) => 500,
            ApiError::CreateToken(_) => 500,
            ApiError::InvalidData => 400,
            ApiError::InvalidEmail => 400,
            ApiError::EmailNotFound => 500,
            ApiError::NotActiveUser => 500,
            ApiError::InvalidPassword => 500,
            ApiError::FrontendUrl => 503,
            ApiError::UserNotFound => 500,
        }
    }
}

} // verus!
