//! Registration and login requests: field validation and normalisation.
//!
//! The checks are pure except for two capabilities taken from outside
//! crates: the syntactic email check and the salted password hash.

use vstd::prelude::*;

use crate::document::cnpj_formatted;
use crate::document::cpf_formatted;
use crate::document::format_document;
use crate::errors::ApiError;
use crate::errors::message_of;
use crate::text::blank;
use crate::text::digits_spec;
use crate::text::is_blank;
use crate::text::trim_spec;
use crate::text::trim_str;

verus! {

/// Whether `s` is a well-formed email address, as the `validator` crate
/// defines it: a pure function of the characters.
pub uninterp spec fn email_ok(s: Seq<char>) -> bool;

/// Relies on `validator::ValidateEmail::validate_email` for strings: a
/// deterministic syntactic check of the address.
#[verifier::external_body]
fn is_valid_email(s: &String) -> (r: bool)
    ensures
        r == email_ok(s@),
{
    validator::ValidateEmail::validate_email(s)
}

/// Relies on `pwhash::bcrypt::hash`: a salted bcrypt hash of the input. The
/// salt is drawn fresh from the system generator, so nothing ties the result
/// to the input; the call fails only if that generator is unavailable.
#[verifier::external_body]
pub fn password_hash(input: &str) -> String {
    pwhash::bcrypt::hash(input).unwrap()
}

/// Relies on `rand::random_range`: a value drawn uniformly from the given
/// half-open range; only the bounds are promised.
#[verifier::external_body]
pub fn random_public_id() -> (r: i32)
    ensures
        1000000 <= r < 9999999,
{
    rand::random_range(1000000..9999999)
}

/// Relies on `chrono::Utc::now`: the current date and time rendered as text.
#[verifier::external_body]
fn now_string() -> String {
    chrono::Utc::now().to_string()
}

/// A bcrypt hash of the current instant: an unpredictable one-way value.
pub fn random_hash() -> String {
    let now = now_string();
    password_hash(now.as_str())
}

/// A request to create an account.
#[derive(Debug, Clone, PartialEq, Eq)]
pub struct RegisterUser {
    pub name: String,
    pub email: String,
    pub document: String,
    pub password: String,
    pub birthdate: String,
    pub login_type: String,
    pub user_type: String,
}

/// The mathematical model of a registration request.
#[verifier::ext_equal]
pub ghost struct RegisterUserView {
    pub name: Seq<char>,
    pub email: Seq<char>,
    pub document: Seq<char>,
    pub password: Seq<char>,
    pub birthdate: Seq<char>,
    pub login_type: Seq<char>,
    pub user_type: Seq<char>,
}

impl View for RegisterUser {
    type V = RegisterUserView;

    open spec fn view(&self) -> RegisterUserView {
        RegisterUserView {
            name: self.name@,
            email: self.email@,
            document: self.document@,
            password: self.password@,
            birthdate: self.birthdate@,
            login_type: self.login_type@,
            user_type: self.user_type@,
        }
    }
}

/// A registration request is acceptable when no field is blank and the
/// email is well-formed.
pub open spec fn register_fields_ok(u: RegisterUserView) -> bool {
    !blank(u.document) && !blank(u.name) && !blank(u.email) && !blank(u.password) && !blank(
        u.birthdate,
    ) && !blank(u.login_type) && !blank(u.user_type) && email_ok(u.email)
}

impl RegisterUser {
    /// Checks that every field carries content and the email is well-formed.
    pub fn validate_fields(&self) -> (r: bool)
        ensures
            r == register_fields_ok(self@),
    {
        if is_blank(self.document.as_str()) || is_blank(self.name.as_str()) || is_blank(
            self.email.as_str(),
        ) || is_blank(self.password.as_str()) || is_blank(self.birthdate.as_str()) || is_blank(
            self.login_type.as_str(),
        ) || is_blank(self.user_type.as_str()) || !is_valid_email(&self.email) {
            return false;
        }
        true
    }

    /// Normalises the request in place: trims the text fields, replaces the
    /// password by its salted hash, and formats the document. A document
    /// whose digits number neither eleven nor fourteen is rejected, leaving
    /// document and birthdate untouched.
    pub fn parse_fields(&mut self) -> (r: Result<(), String>)
        ensures
            final(self).email@ == trim_spec(old(self).email@),
            final(self).name@ == trim_spec(old(self).name@),
            final(self).user_type@ == trim_spec(old(self).user_type@),
            final(self).login_type@ == trim_spec(old(self).login_type@),
            r is Ok <==> (digits_spec(old(self).document@).len() == 11 || digits_spec(
                old(self).document@,
            ).len() == 14),
            r is Ok ==> final(self).birthdate@ == trim_spec(old(self).birthdate@),
            r is Ok && digits_spec(old(self).document@).len() == 11 ==> final(self).document@
                == cpf_formatted(digits_spec(old(self).document@)),
            r is Ok && digits_spec(old(self).document@).len() == 14 ==> final(self).document@
                == cnpj_formatted(digits_spec(old(self).document@)),
            r matches Err(m) ==> m@ == "Invalid document"@ && final(self).document
                == old(self).document && final(self).birthdate == old(self).birthdate,
    {
        let email = trim_str(self.email.as_str());
        self.email = email;
        let name = trim_str(self.name.as_str());
        self.name = name;
        let password_trimmed = trim_str(self.password.as_str());
        self.password = password_hash(password_trimmed.as_str());
        let user_type = trim_str(self.user_type.as_str());
        self.user_type = user_type;
        let login_type = trim_str(self.login_type.as_str());
        self.login_type = login_type;
        let document = match format_document(self.document.as_str()) {
            Ok(document) => document,
            Err(e) => {
                return Err(e);
            },
        };
        self.document = document;
        let birthdate = trim_str(self.birthdate.as_str());
        self.birthdate = birthdate;
        Ok(())
    }
}

/// A request to log in.
#[derive(Debug, Clone, PartialEq, Eq)]
pub struct LoginUser {
    pub email: String,
    pub password: String,
}

/// The mathematical model of a login request.
#[verifier::ext_equal]
pub ghost struct LoginUserView {
    pub email: Seq<char>,
    pub password: Seq<char>,
}

impl View for LoginUser {
    type V = LoginUserView;

    open spec fn view(&self) -> LoginUserView {
        LoginUserView { email: self.email@, password: self.password@ }
    }
}

impl LoginUser {
    /// Checks that the credentials carry content and the email is
    /// well-formed; each failure is reported with its canonical message.
    pub fn validate_fields(&self) -> (r: Result<(), String>)
        ensures
            r is Ok <==> (!blank(self.email@) && !blank(self.password@) && email_ok(self.email@)),
            r matches Err(m) ==> m@ == (if blank(self.email@) || blank(self.password@) {
                message_of(ApiError::InvalidData)
            } else {
                message_of(ApiError::InvalidEmail)
            }),
    {
        if is_blank(self.email.as_str()) || is_blank(self.password.as_str()) {
            return Err(ApiError::InvalidData.message());
        }
        if !is_valid_email(&self.email) {
            return Err(ApiError::InvalidEmail.message());
        }
        Ok(())
    }

    /// Trims both credentials in place.
    pub fn parse_fields(&mut self)
        ensures
            final(self).email@ == trim_spec(old(self).email@),
            final(self).password@ == trim_spec(old(self).password@),
    {
        let email = trim_str(self.email.as_str());
        self.email = email;
        let password = trim_str(self.password.as_str());
        self.password = password;
    }
}

} // verus!
