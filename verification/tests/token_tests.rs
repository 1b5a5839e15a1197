use auth_core::auth::authenticate;
use auth_core::errors::AuthError;
use auth_core::jwt::create_token;
use auth_core::jwt::create_token_at;
use auth_core::jwt::decode_token;
use auth_core::jwt::SESSION_LIFETIME_SECS;

const NOW: i64 = 1700000000;

#[test]
fn fresh_token_round_trips() {
    let token = create_token_at("s3cret", "a@x.com", "Alice", NOW).unwrap();
    let claims = decode_token("s3cret", &token, NOW).unwrap();
    assert_eq!(claims.sub, "a@x.com");
    assert_eq!(claims.name, "Alice");
    assert_eq!(claims.exp, NOW + SESSION_LIFETIME_SECS);
}

#[test]
fn expired_token_is_rejected_despite_valid_signature() {
    let issued_in_the_past = NOW - SESSION_LIFETIME_SECS - 1;
    let token = create_token_at("s3cret", "a@x.com", "Alice", issued_in_the_past).unwrap();
    let res = decode_token("s3cret", &token, NOW);
    assert_eq!(res.err(), Some(AuthError::InvalidTokenError));
}

#[test]
fn token_expiry_boundary_is_strict() {
    let token = create_token_at("s3cret", "a@x.com", "Alice", NOW).unwrap();
    // Accepted strictly before the expiry instant, rejected at and after it.
    assert!(decode_token("s3cret", &token, NOW + SESSION_LIFETIME_SECS - 1).is_ok());
    assert!(decode_token("s3cret", &token, NOW + SESSION_LIFETIME_SECS).is_err());
}

#[test]
fn token_signed_with_other_secret_is_rejected() {
    let token = create_token_at("s3cret", "a@x.com", "Alice", NOW).unwrap();
    let res = decode_token("another secret", &token, NOW);
    assert_eq!(res.err(), Some(AuthError::InvalidTokenError));
}

#[test]
fn malformed_token_is_rejected() {
    assert!(decode_token("s3cret", "", NOW).is_err());
    assert!(decode_token("s3cret", "not.a.jwt", NOW).is_err());
}

#[test]
fn tampered_token_is_rejected() {
    let token = create_token_at("s3cret", "a@x.com", "Alice", NOW).unwrap();
    let mut tampered = token.clone();
    tampered.pop();
    assert!(decode_token("s3cret", &tampered, NOW).is_err());
}

#[test]
fn clock_issued_token_is_currently_valid() {
    let token = create_token("s3cret", "b@x.com", "Bob").unwrap();
    // The expiry lies seven days from the real clock, so it is far past zero.
    let claims = decode_token("s3cret", &token, 0).unwrap();
    assert_eq!(claims.sub, "b@x.com");
}

#[test]
fn bearer_header_authenticates() {
    let token = create_token_at("s3cret", "a@x.com", "Alice", NOW).unwrap();
    let header = format!("Bearer {}", token);
    let claims = authenticate(Some(&header), "s3cret", NOW).unwrap();
    assert_eq!(claims.sub, "a@x.com");
}

#[test]
fn missing_or_malformed_authorization_is_unauthorized() {
    let token = create_token_at("s3cret", "a@x.com", "Alice", NOW).unwrap();
    let expected = AuthError::UnauthorizedError { use_third_party: false };
    assert_eq!(authenticate(None, "s3cret", NOW).err(), Some(expected));
    assert_eq!(authenticate(Some(&token), "s3cret", NOW).err(), Some(expected));
    let wrong_scheme = format!("Token {}", token);
    assert_eq!(authenticate(Some(&wrong_scheme), "s3cret", NOW).err(), Some(expected));
    assert_eq!(
        authenticate(Some("Bearer garbage"), "s3cret", NOW).err(),
        Some(expected)
    );
}

#[test]
fn negatively_dated_token_is_rejected_despite_valid_signature() {
    // Validation requires an expiry claim that parses as an unsigned 64-bit
    // number, so a signed token with a negative expiry never decodes.
    let token =
        create_token_at("s3cret", "a@x.com", "Alice", -2 * SESSION_LIFETIME_SECS).unwrap();
    assert_eq!(
        decode_token("s3cret", &token, 0).err(),
        Some(AuthError::InvalidTokenError)
    );
}

#[test]
fn any_validly_signed_serialization_is_accepted() {
    // A token carrying an extra claim is not the canonical signing output,
    // yet its signature verifies under the secret, so validation accepts it.
    let mut claims = serde_json::Map::new();
    claims.insert("sub".to_string(), serde_json::Value::from("a@x.com"));
    claims.insert("name".to_string(), serde_json::Value::from("Alice"));
    claims.insert("exp".to_string(), serde_json::Value::from(NOW + 1000));
    claims.insert("iat".to_string(), serde_json::Value::from(NOW));
    let header = jsonwebtoken::Header::new(jsonwebtoken::Algorithm::HS256);
    let key = jsonwebtoken::EncodingKey::from_secret("s3cret".as_bytes());
    let token =
        jsonwebtoken::encode(&header, &serde_json::Value::Object(claims), &key).unwrap();
    let canonical = create_token_at(
        "s3cret",
        "a@x.com",
        "Alice",
        NOW + 1000 - SESSION_LIFETIME_SECS,
    )
    .unwrap();
    assert_ne!(token, canonical);
    let decoded = decode_token("s3cret", &token, NOW).unwrap();
    assert_eq!(decoded.sub, "a@x.com");
    assert_eq!(decoded.name, "Alice");
    assert_eq!(decoded.exp, NOW + 1000);
}
