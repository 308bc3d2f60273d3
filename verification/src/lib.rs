//! Verified core of a bearer-token authentication service.
//!
//! The library covers the token lifecycle: building signed claims for a
//! logged-in identity, extracting a bearer token from an `Authorization`
//! header value, verifying the token against the shared secret, and
//! validating the decoded claims. It also holds the pure account-data
//! checks: CPF/CNPJ document validation and formatting, and the field
//! validation of registration and login requests.

pub mod auth;
pub mod claims;
pub mod document;
pub mod errors;
pub mod laws;
pub mod text;
pub mod token;
pub mod user;
