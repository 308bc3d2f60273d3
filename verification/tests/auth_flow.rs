use auth_core::auth::{extract_bearer_token, extract_claims_from_header};
use auth_core::claims::{validate_claims, Claims, UserAuthInfo};
use auth_core::errors::ApiError;
use auth_core::token::{decode_token, generate_jwt, issue_token};

fn demo_identity() -> UserAuthInfo {
    UserAuthInfo {
        id: "3f2b8c1e-0000-4000-8000-000000000001".to_string(),
        public_id: 4242421,
        email: "user@example.com".to_string(),
        user_type: "admin".to_string(),
    }
}

const SECRET: &str = "a-shared-signing-secret";

#[test]
fn round_trip_preserves_identity_and_expiry() {
    let ident = demo_identity();
    let t0: u64 = 1_700_000_000;
    let token = issue_token(&ident, t0, SECRET).unwrap();
    let claims = decode_token(&token, SECRET).unwrap();
    assert_eq!(claims.id, ident.id);
    assert_eq!(claims.public_id, ident.public_id);
    assert_eq!(claims.email, ident.email);
    assert_eq!(claims.user_type, ident.user_type);
    assert_eq!(claims.exp, t0 + 3600);
    assert!(validate_claims(&claims, t0 + 1).is_ok());
}

#[test]
fn generate_jwt_round_trips_against_the_clock() {
    let ident = demo_identity();
    let before = u64::try_from(chrono::Utc::now().timestamp()).unwrap();
    let token = generate_jwt(&ident, SECRET).unwrap();
    let after = u64::try_from(chrono::Utc::now().timestamp()).unwrap();
    let claims = decode_token(&token, SECRET).unwrap();
    assert_eq!(claims.email, ident.email);
    assert!(claims.exp >= before + 3600);
    assert!(claims.exp <= after + 3600);
    assert!(validate_claims(&claims, after).is_ok());
}

#[test]
fn expired_token_fails_validation() {
    let ident = demo_identity();
    let t0: u64 = 1_700_000_000;
    let token = issue_token(&ident, t0, SECRET).unwrap();
    let claims = decode_token(&token, SECRET).unwrap();
    // expiration exactly at the verification time already fails
    match validate_claims(&claims, t0 + 3600) {
        Err(ApiError::MultipleAuthorizationErrors(v)) => {
            assert_eq!(v, vec!["Expired token".to_string()]);
        }
        other => panic!("expected an expiry violation, got {:?}", other),
    }
    assert!(validate_claims(&claims, t0 + 3601).is_err());
    assert!(validate_claims(&claims, t0 + 999_999).is_err());
}

#[test]
fn wrong_secret_fails_verification() {
    let ident = demo_identity();
    let token = issue_token(&ident, 1_700_000_000, SECRET).unwrap();
    match decode_token(&token, "another-secret-entirely") {
        Err(ApiError::InvalidAuthorizationToken) => {}
        other => panic!("expected an invalid-token fault, got {:?}", other),
    }
}

#[test]
fn tampering_with_any_payload_byte_fails_verification() {
    let ident = demo_identity();
    let token = issue_token(&ident, 1_700_000_000, SECRET).unwrap();
    let parts: Vec<&str> = token.split('.').collect();
    assert_eq!(parts.len(), 3);
    let payload = parts[1];
    for i in 0..payload.len() {
        let mut bytes = payload.as_bytes().to_vec();
        bytes[i] = if bytes[i] == b'A' { b'B' } else { b'A' };
        let tampered_payload = String::from_utf8(bytes).unwrap();
        if tampered_payload == payload {
            continue;
        }
        let tampered = format!("{}.{}.{}", parts[0], tampered_payload, parts[2]);
        assert!(
            decode_token(&tampered, SECRET).is_err(),
            "tampered byte {} was accepted",
            i
        );
    }
}

#[test]
fn missing_header_fails_extraction() {
    match extract_bearer_token(None) {
        Err(ApiError::InvalidAuthorizationToken) => {}
        other => panic!("expected an invalid-token fault, got {:?}", other),
    }
}

#[test]
fn wrong_prefix_fails_extraction() {
    let lower = "bearer abc".to_string();
    assert!(extract_bearer_token(Some(&lower)).is_err());
    let glued = "Bearerabc".to_string();
    assert!(extract_bearer_token(Some(&glued)).is_err());
    let short = "Bear".to_string();
    assert!(extract_bearer_token(Some(&short)).is_err());
    let empty = String::new();
    assert!(extract_bearer_token(Some(&empty)).is_err());
}

#[test]
fn whitespace_around_the_token_is_trimmed() {
    let header = "Bearer   abc.def.ghi  \t".to_string();
    let token = extract_bearer_token(Some(&header)).unwrap();
    assert_eq!(token, "abc.def.ghi");
    let bare = "Bearer x".to_string();
    assert_eq!(extract_bearer_token(Some(&bare)).unwrap(), "x");
}

#[test]
fn gate_accepts_a_fresh_token_and_rejects_everything_else() {
    let ident = demo_identity();
    let t0: u64 = 1_700_000_000;
    let issued = issue_token(&ident, t0, SECRET).unwrap();
    let header = format!("Bearer {}", issued);
    let (token, claims) = extract_claims_from_header(Some(&header), SECRET, t0 + 10).unwrap();
    assert_eq!(token, issued);
    assert_eq!(claims.email, ident.email);

    // absent header
    assert!(extract_claims_from_header(None, SECRET, t0).is_err());
    // wrong secret
    assert!(extract_claims_from_header(Some(&header), "other", t0).is_err());
    // expired at validation time
    match extract_claims_from_header(Some(&header), SECRET, t0 + 3600) {
        Err(ApiError::MultipleAuthorizationErrors(v)) => {
            assert_eq!(v, vec!["Expired token".to_string()]);
        }
        other => panic!("expected an expiry violation, got {:?}", other),
    }
}

#[test]
fn validation_reports_every_failing_condition() {
    let claims = Claims {
        id: "".to_string(),
        public_id: 77,
        user_type: "client".to_string(),
        email: "".to_string(),
        exp: 10_000,
    };
    match validate_claims(&claims, 100) {
        Err(ApiError::MultipleAuthorizationErrors(v)) => {
            assert_eq!(
                v,
                vec!["Invalid ID".to_string(), "Invalid E-mail".to_string()]
            );
        }
        other => panic!("expected two violations, got {:?}", other),
    }
}

#[test]
fn validation_aggregates_all_five_conditions_in_order() {
    let claims = Claims {
        id: "   ".to_string(),
        public_id: 0,
        user_type: "client".to_string(),
        email: "".to_string(),
        exp: 0,
    };
    match validate_claims(&claims, 100) {
        Err(ApiError::MultipleAuthorizationErrors(v)) => {
            assert_eq!(
                v,
                vec![
                    "Invalid ID".to_string(),
                    "Invalid Public ID".to_string(),
                    "Invalid E-mail".to_string(),
                    "Invalid expiration date".to_string(),
                    "Expired token".to_string(),
                ]
            );
        }
        other => panic!("expected five violations, got {:?}", other),
    }
}

#[test]
fn well_formed_claims_validate() {
    let claims = Claims {
        id: "some-id".to_string(),
        public_id: 1,
        user_type: "".to_string(),
        email: "a@b.co".to_string(),
        exp: 200,
    };
    // the user type is carried opaquely and not validated
    assert!(validate_claims(&claims, 100).is_ok());
}
