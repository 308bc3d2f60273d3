use auth_core::errors::ApiError;
use auth_core::user::{
    password_hash, random_hash, random_public_id, LoginUser, RegisterUser,
};

fn demo_register() -> RegisterUser {
    RegisterUser {
        name: "  Ada Lovelace ".to_string(),
        email: "ada@example.com".to_string(),
        document: "529.982.247-25".to_string(),
        password: " s3cret ".to_string(),
        birthdate: " 1815-12-10 ".to_string(),
        login_type: " password ".to_string(),
        user_type: " admin ".to_string(),
    }
}

#[test]
fn register_fields_validate() {
    let user = demo_register();
    assert!(user.validate_fields());

    let mut blank_name = demo_register();
    blank_name.name = "   ".to_string();
    assert!(!blank_name.validate_fields());

    let mut bad_email = demo_register();
    bad_email.email = "not-an-email".to_string();
    assert!(!bad_email.validate_fields());

    let mut empty_password = demo_register();
    empty_password.password = "".to_string();
    assert!(!empty_password.validate_fields());
}

#[test]
fn register_fields_are_normalised() {
    let mut user = demo_register();
    user.parse_fields().unwrap();
    assert_eq!(user.name, "Ada Lovelace");
    assert_eq!(user.email, "ada@example.com");
    assert_eq!(user.user_type, "admin");
    assert_eq!(user.login_type, "password");
    assert_eq!(user.birthdate, "1815-12-10");
    assert_eq!(user.document, "529.982.247-25");
    // the password is replaced by a salted hash of its trimmed form
    assert_ne!(user.password, " s3cret ");
    assert!(pwhash::bcrypt::verify("s3cret", &user.password));
}

#[test]
fn register_with_cnpj_document_is_formatted() {
    let mut user = demo_register();
    user.document = "11222333000181".to_string();
    user.parse_fields().unwrap();
    assert_eq!(user.document, "11.222.333/0001-81");
}

#[test]
fn register_with_bad_document_is_rejected() {
    let mut user = demo_register();
    user.document = "12345".to_string();
    assert_eq!(user.parse_fields().unwrap_err(), "Invalid document");
    // the document is left as it was handed in
    assert_eq!(user.document, "12345");
}

#[test]
fn login_fields_validate() {
    let login = LoginUser {
        email: "ada@example.com".to_string(),
        password: "pw".to_string(),
    };
    assert!(login.validate_fields().is_ok());

    let missing = LoginUser {
        email: "  ".to_string(),
        password: "pw".to_string(),
    };
    assert_eq!(
        missing.validate_fields().unwrap_err(),
        "Missing fields in the request"
    );

    let bad = LoginUser {
        email: "nope".to_string(),
        password: "pw".to_string(),
    };
    assert_eq!(bad.validate_fields().unwrap_err(), "Invalid email provided");
}

#[test]
fn unicode_whitespace_counts_as_blank_and_is_trimmed() {
    let mut only_nbsp = demo_register();
    only_nbsp.name = "\u{00A0}".to_string();
    assert!(!only_nbsp.validate_fields());

    let mut login = LoginUser {
        email: "\u{00A0}ada@example.com\u{2003}".to_string(),
        password: "\u{3000}pw ".to_string(),
    };
    login.parse_fields();
    assert_eq!(login.email, "ada@example.com");
    assert_eq!(login.password, "pw");
}

#[test]
fn login_fields_are_trimmed() {
    let mut login = LoginUser {
        email: "  ada@example.com ".to_string(),
        password: " pw\t".to_string(),
    };
    login.parse_fields();
    assert_eq!(login.email, "ada@example.com");
    assert_eq!(login.password, "pw");
}

#[test]
fn password_hash_verifies_and_differs_from_input() {
    let hash = password_hash("hunter2");
    assert_ne!(hash, "hunter2");
    assert!(pwhash::bcrypt::verify("hunter2", &hash));
    assert!(!pwhash::bcrypt::verify("hunter3", &hash));
}

#[test]
fn random_values_stay_in_their_ranges() {
    for _ in 0..50 {
        let id = random_public_id();
        assert!((1_000_000..9_999_999).contains(&id));
    }
    let h = random_hash();
    assert!(!h.is_empty());
}

#[test]
fn error_messages_render_canonically() {
    assert_eq!(
        ApiError::InvalidAuthorizationToken.message(),
        "Invalid authorization token"
    );
    assert_eq!(ApiError::InvalidData.message(), "Missing fields in the request");
    assert_eq!(ApiError::InvalidEmail.message(), "Invalid email provided");
    assert_eq!(
        ApiError::CreateToken("boom".to_string()).message(),
        "Failed to create token: boom"
    );
    assert_eq!(
        ApiError::DatabaseConnection("no env".to_string()).message(),
        "Error while trying to connect to the database: no env"
    );
    assert_eq!(
        ApiError::MultipleAuthorizationErrors(vec![]).message(),
        "Multiple errors while validating the authorization token: []"
    );
    assert_eq!(
        ApiError::MultipleAuthorizationErrors(vec![
            "Invalid ID".to_string(),
            "Expired token".to_string()
        ])
        .message(),
        "Multiple errors while validating the authorization token: [\"Invalid ID\", \"Expired token\"]"
    );
}

#[test]
fn error_statuses_match_the_fault_taxonomy() {
    assert_eq!(ApiError::InvalidAuthorizationToken.status_code(), 401);
    assert_eq!(
        ApiError::MultipleAuthorizationErrors(vec![]).status_code(),
        401
    );
    assert_eq!(
        ApiError::DatabaseConnection("x".to_string()).status_code(),
        503
    );
    assert_eq!(ApiError::FrontendUrl.status_code(), 503);
    assert_eq!(ApiError::CreateToken("x".to_string()).status_code(), 500);
    assert_eq!(ApiError::InvalidData.status_code(), 400);
    assert_eq!(ApiError::InvalidEmail.status_code(), 400);
    assert_eq!(ApiError::UserNotFound.status_code(), 500);
}
