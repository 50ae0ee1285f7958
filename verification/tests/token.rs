use auth_backend::clock::seconds_of;
use auth_backend::constants::TOKEN_LIFETIME;
use auth_backend::model::errors::{GlobalServiceError, ServiceError};
use auth_backend::utils::{decode_jwt, decode_jwt_at, generate_jwt, generate_jwt_at, JWTClaim};

// the claims `{"iat":1000,"exp":605800,"email":"u@x.com"}` under the key "secret"
const TOKEN: &str = "eyJ0eXAiOiJKV1QiLCJhbGciOiJIUzI1NiJ9.\
                     eyJpYXQiOjEwMDAsImV4cCI6NjA1ODAwLCJlbWFpbCI6InVAeC5jb20ifQ.\
                     xC0kl6vbGHonzJs_-iFwN-a0alzVYY68DNjEU93Q1Co";

fn claims(iat: i64, exp: i64, email: &str) -> JWTClaim {
    JWTClaim { iat, exp, email: email.to_string() }
}

#[test]
fn token_lifetime_is_seven_days() {
    assert_eq!(TOKEN_LIFETIME, 604800);
    assert_eq!(TOKEN_LIFETIME, 60 * 60 * 24 * 7);
}

#[test]
fn issued_token_is_the_signed_claim_set() {
    let token = generate_jwt_at(&"u@x.com".to_string(), "secret", 1000);
    assert_eq!(token, Ok(TOKEN.to_string()));
}

#[test]
fn issued_token_is_compact() {
    for (email, secret) in [("u@x.com", "secret"), ("", ""), (" \n\u{e9}\"", "\u{0} key \u{4e2d}")] {
        let token = generate_jwt_at(&email.to_string(), secret, -7).unwrap();
        assert!(!token.is_empty());
        assert!(token
            .chars()
            .all(|c| c.is_ascii_alphanumeric() || c == '-' || c == '_' || c == '.'));
        assert_eq!(token.split('.').count(), 3);
        assert_eq!(token.trim(), token);
        assert_eq!(decode_jwt_at(&token, secret, 0), Ok(claims(-7, 604793, email)));
    }
}

#[test]
fn token_is_issued_whenever_the_expiry_fits() {
    let email = "u@x.com".to_string();
    for now in [i64::MIN, -1, 0, 1, 1_700_000_000, i64::MAX - 604800] {
        assert!(generate_jwt_at(&email, "secret", now).is_ok());
    }
    for now in [i64::MAX - 604799, i64::MAX - 1, i64::MAX] {
        assert_eq!(
            generate_jwt_at(&email, "secret", now),
            Err(GlobalServiceError::InternalServerError)
        );
    }
}

#[test]
fn known_token_reads_back() {
    assert_eq!(decode_jwt_at(TOKEN, "secret", 1000), Ok(claims(1000, 605800, "u@x.com")));
}

#[test]
fn issue_then_validate_round_trips() {
    let email = "someone+tag@mail.example.org".to_string();
    let token = generate_jwt_at(&email, "s3cr3t", 1_700_000_000).unwrap();
    let read = decode_jwt_at(&token, "s3cr3t", 1_700_000_010).unwrap();
    assert_eq!(read.email, email);
    assert_eq!(read.iat, 1_700_000_000);
    assert_eq!(read.exp, 1_700_604_800);
    assert_eq!(read.exp, read.iat + 604800);
}

#[test]
fn round_trip_keeps_any_text_in_the_address() {
    let email = "quote\" back\\slash \u{e9}\u{4e2d}\n".to_string();
    let token = generate_jwt_at(&email, "k", -5).unwrap();
    assert_eq!(decode_jwt_at(&token, "k", 0), Ok(claims(-5, 604795, &email)));
}

#[test]
fn token_is_valid_until_just_before_its_expiry() {
    let token = generate_jwt_at(&"u@x.com".to_string(), "secret", 1000).unwrap();
    assert!(decode_jwt_at(&token, "secret", 1000 + 604799).is_ok());
    assert!(decode_jwt_at(&token, "secret", 0).is_ok());
    assert!(decode_jwt_at(&token, "secret", i64::MIN).is_ok());
}

#[test]
fn token_is_invalid_from_its_expiry_on() {
    let token = generate_jwt_at(&"u@x.com".to_string(), "secret", 1000).unwrap();
    assert_eq!(decode_jwt_at(&token, "secret", 1000 + 604800), Err(ServiceError::InvalidToken));
    assert_eq!(decode_jwt_at(&token, "secret", 1000 + 604801), Err(ServiceError::InvalidToken));
    assert_eq!(decode_jwt_at(&token, "secret", i64::MAX), Err(ServiceError::InvalidToken));
}

#[test]
fn token_signed_with_another_secret_is_invalid() {
    let token = generate_jwt_at(&"u@x.com".to_string(), "secret", 1000).unwrap();
    assert_eq!(decode_jwt_at(&token, "Secret", 1001), Err(ServiceError::InvalidToken));
    assert_eq!(decode_jwt_at(&token, "", 1001), Err(ServiceError::InvalidToken));
    assert_eq!(decode_jwt_at(&token, "secret ", 1001), Err(ServiceError::InvalidToken));
}

#[test]
fn malformed_token_is_invalid() {
    let header_only = "eyJ0eXAiOiJKV1QiLCJhbGciOiJIUzI1NiJ9..";
    for token in ["", "garbage", "a.b", "a.b.c", "a.b.c.d", "..", header_only] {
        assert_eq!(decode_jwt_at(token, "secret", 0), Err(ServiceError::InvalidToken));
    }
}

#[test]
fn tampered_token_is_invalid() {
    // the payload of another address under the signature of the known token
    let parts: Vec<&str> = TOKEN.split('.').collect();
    let other = generate_jwt_at(&"v@x.com".to_string(), "secret", 1000).unwrap();
    let other_parts: Vec<&str> = other.split('.').collect();
    let forged = format!("{}.{}.{}", parts[0], other_parts[1], parts[2]);
    assert_eq!(decode_jwt_at(&forged, "secret", 1001), Err(ServiceError::InvalidToken));
    assert!(decode_jwt_at(&other, "secret", 1001).is_ok());
}

#[test]
fn token_of_another_algorithm_is_invalid() {
    // header {"typ":"JWT","alg":"none"} and header {"typ":"JWT","alg":"HS384"}
    let payload = TOKEN.split('.').nth(1).unwrap();
    let unsigned = format!("eyJ0eXAiOiJKV1QiLCJhbGciOiJub25lIn0.{}.", payload);
    assert_eq!(decode_jwt_at(&unsigned, "secret", 1001), Err(ServiceError::InvalidToken));
    let other = format!(
        "eyJ0eXAiOiJKV1QiLCJhbGciOiJIUzM4NCJ9.{}.{}",
        payload,
        TOKEN.split('.').nth(2).unwrap()
    );
    assert_eq!(decode_jwt_at(&other, "secret", 1001), Err(ServiceError::InvalidToken));
}

#[test]
fn expiry_that_does_not_fit_is_an_internal_error() {
    let email = "u@x.com".to_string();
    assert_eq!(
        generate_jwt_at(&email, "secret", i64::MAX),
        Err(GlobalServiceError::InternalServerError)
    );
    assert_eq!(
        generate_jwt_at(&email, "secret", i64::MAX - 604799),
        Err(GlobalServiceError::InternalServerError)
    );
    let last = generate_jwt_at(&email, "secret", i64::MAX - 604800).unwrap();
    assert_eq!(
        decode_jwt_at(&last, "secret", 0),
        Ok(claims(i64::MAX - 604800, i64::MAX, "u@x.com"))
    );
}

#[test]
fn token_issued_now_is_valid_now() {
    let email = "u@x.com".to_string();
    let token = generate_jwt(&email, "secret").unwrap();
    let read = decode_jwt(token.clone(), "secret").unwrap();
    assert_eq!(read.email, email);
    assert_eq!(read.exp, read.iat + 604800);
    // the clock shows a time after the year 2020
    assert!(read.iat > 1_577_836_800);
    assert_eq!(decode_jwt(token, "other"), Err(ServiceError::InvalidToken));
}

#[test]
fn token_that_expired_long_ago_is_invalid_now() {
    assert_eq!(decode_jwt(TOKEN.to_string(), "secret"), Err(ServiceError::InvalidToken));
    assert_eq!(decode_jwt("garbage".to_string(), "secret"), Err(ServiceError::InvalidToken));
}

#[test]
fn nanoseconds_become_whole_seconds() {
    assert_eq!(seconds_of(0), 0);
    assert_eq!(seconds_of(999_999_999), 0);
    assert_eq!(seconds_of(1_000_000_000), 1);
    assert_eq!(seconds_of(1_700_000_000_123_456_789), 1_700_000_000);
    assert_eq!(seconds_of(-1), 0);
    assert_eq!(seconds_of(-1_000_000_001), -1);
    assert_eq!(seconds_of(i64::MAX), 9_223_372_036);
    assert_eq!(seconds_of(i64::MIN), -9_223_372_036);
}
