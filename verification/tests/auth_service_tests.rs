use auth_core::auth::login;
use auth_core::auth::signup;
use auth_core::auth::third_party_login;
use auth_core::auth::GoogleTokenInfo;
use auth_core::auth::LoginRequest;
use auth_core::auth::SignupRequest;
use auth_core::errors::AuthError;
use auth_core::jwt::decode_token;
use auth_core::store::PublicUser;
use auth_core::store::User;
use auth_core::store::UserStore;

const NOW: i64 = 1700000000;
const SECRET: &str = "test-signing-secret";

fn alice_signup() -> SignupRequest {
    SignupRequest {
        name: "Alice".to_string(),
        email: "a@x.com".to_string(),
        password: "open sesame".to_string(),
    }
}

#[test]
fn signup_then_login_succeeds_with_same_claims() {
    let mut store = UserStore::new();
    let signed_up = signup(&mut store, &alice_signup(), SECRET, NOW).unwrap();
    assert_eq!(signed_up.user.email, "a@x.com");
    assert_eq!(signed_up.user.name, "Alice");
    assert!(!signed_up.user.id.is_empty());

    let req = LoginRequest { email: "a@x.com".to_string(), password: "open sesame".to_string() };
    let logged_in = login(&store, &req, SECRET, NOW).unwrap();
    assert_eq!(logged_in.user.email, "a@x.com");
    assert_eq!(logged_in.user.id, signed_up.user.id);

    let claims = decode_token(SECRET, &logged_in.token, NOW).unwrap();
    assert_eq!(claims.sub, "a@x.com");
    assert_eq!(claims.name, "Alice");
}

#[test]
fn second_signup_with_same_email_conflicts() {
    let mut store = UserStore::new();
    signup(&mut store, &alice_signup(), SECRET, NOW).unwrap();
    let other = SignupRequest {
        name: "Another Alice".to_string(),
        email: "a@x.com".to_string(),
        password: "different password".to_string(),
    };
    let second = signup(&mut store, &other, SECRET, NOW);
    let err = match second {
        Err(e) => e,
        Ok(_) => panic!("duplicate signup must conflict"),
    };
    assert_eq!(err, AuthError::ConflictError);
    assert_eq!(err.status_code(), 409);
    assert_eq!(err.message(), "Email already exists");
    assert_eq!(store.len(), 1);
}

#[test]
fn login_with_unknown_email_is_generic_unauthorized() {
    let store = UserStore::new();
    let req = LoginRequest { email: "ghost@x.com".to_string(), password: "pw".to_string() };
    let err = match login(&store, &req, SECRET, NOW) {
        Err(e) => e,
        Ok(_) => panic!("unknown email must be rejected"),
    };
    assert_eq!(err, AuthError::UnauthorizedError { use_third_party: false });
    assert_eq!(err.status_code(), 401);
    assert_eq!(err.message(), "Invalid email or password");
}

#[test]
fn login_with_wrong_password_matches_unknown_email_response() {
    let mut store = UserStore::new();
    signup(&mut store, &alice_signup(), SECRET, NOW).unwrap();
    let req = LoginRequest { email: "a@x.com".to_string(), password: "wrong".to_string() };
    let wrong_pw = match login(&store, &req, SECRET, NOW) {
        Err(e) => e,
        Ok(_) => panic!("wrong password must be rejected"),
    };
    let ghost_req = LoginRequest { email: "ghost@x.com".to_string(), password: "wrong".to_string() };
    let unknown = match login(&store, &ghost_req, SECRET, NOW) {
        Err(e) => e,
        Ok(_) => panic!("unknown email must be rejected"),
    };
    // Anti-enumeration: the two failures are indistinguishable.
    assert_eq!(wrong_pw, unknown);
    assert_eq!(wrong_pw.message(), unknown.message());
}

#[test]
fn third_party_only_account_gets_provider_hint_on_password_login() {
    let mut store = UserStore::new();
    let info = GoogleTokenInfo {
        email: "g@x.com".to_string(),
        name: Some("Gee".to_string()),
        sub: "g-777".to_string(),
    };
    third_party_login(&mut store, &info, SECRET, NOW).unwrap();
    let req = LoginRequest { email: "g@x.com".to_string(), password: "anything".to_string() };
    let err = match login(&store, &req, SECRET, NOW) {
        Err(e) => e,
        Ok(_) => panic!("password login on third-party-only account must fail"),
    };
    assert_eq!(err, AuthError::UnauthorizedError { use_third_party: true });
    assert_eq!(err.message(), "Please log in with Google, or reset your password.");
}

#[test]
fn third_party_login_links_existing_email_account() {
    let mut store = UserStore::new();
    let signed_up = signup(&mut store, &alice_signup(), SECRET, NOW).unwrap();
    let info = GoogleTokenInfo {
        email: "a@x.com".to_string(),
        name: Some("Alice G".to_string()),
        sub: "g-123".to_string(),
    };
    let linked = third_party_login(&mut store, &info, SECRET, NOW).unwrap();
    // The same identity record now carries the subject; no new record exists.
    assert_eq!(linked.user.id, signed_up.user.id);
    assert_eq!(linked.user.email, "a@x.com");
    assert_eq!(store.len(), 1);

    // A later third-party login resolves through the link directly.
    let again = third_party_login(&mut store, &info, SECRET, NOW).unwrap();
    assert_eq!(again.user.id, signed_up.user.id);
    assert_eq!(store.len(), 1);

    // The password credential survived the linking.
    let req = LoginRequest { email: "a@x.com".to_string(), password: "open sesame".to_string() };
    assert!(login(&store, &req, SECRET, NOW).is_ok());
}

#[test]
fn third_party_login_creates_account_with_default_name() {
    let mut store = UserStore::new();
    let info = GoogleTokenInfo {
        email: "new@x.com".to_string(),
        name: None,
        sub: "g-42".to_string(),
    };
    let resp = third_party_login(&mut store, &info, SECRET, NOW).unwrap();
    assert_eq!(resp.user.name, "Google User");
    assert_eq!(resp.user.email, "new@x.com");
    assert_eq!(store.len(), 1);
    let claims = decode_token(SECRET, &resp.token, NOW).unwrap();
    assert_eq!(claims.sub, "new@x.com");
    assert_eq!(claims.name, "Google User");
}

#[test]
fn internal_error_maps_to_server_failure() {
    assert_eq!(AuthError::InternalError.status_code(), 500);
    assert_eq!(AuthError::InternalError.message(), "Internal server error");
}

#[test]
fn public_projection_strips_credential_fields() {
    let record = User {
        id: "id-1".to_string(),
        name: "Alice".to_string(),
        email: "a@x.com".to_string(),
        password_hash: Some("$argon2id$...".to_string()),
        google_id: Some("g-1".to_string()),
        reset_token: Some("tok".to_string()),
        reset_token_expiry: Some(123),
    };
    let public = PublicUser::from(record);
    assert_eq!(public.id, "id-1");
    assert_eq!(public.name, "Alice");
    assert_eq!(public.email, "a@x.com");
}
