use auth_core::errors::AuthError;
use auth_core::store::User;
use auth_core::store::UserStore;

fn record(id: &str, email: &str, google_id: Option<&str>, reset_token: Option<&str>) -> User {
    User {
        id: id.to_string(),
        name: "Someone".to_string(),
        email: email.to_string(),
        password_hash: Some("$argon2id$placeholder".to_string()),
        google_id: google_id.map(|g| g.to_string()),
        reset_token: reset_token.map(|t| t.to_string()),
        reset_token_expiry: reset_token.map(|_| 1700000000000),
    }
}

#[test]
fn new_store_is_empty() {
    let store = UserStore::new();
    assert_eq!(store.len(), 0);
    assert!(store.find_by_email("a@x.com").is_none());
}

#[test]
fn inserted_record_is_found_by_each_key() {
    let mut store = UserStore::new();
    store.insert(record("id-1", "a@x.com", Some("g-1"), Some("tok-1"))).unwrap();
    assert_eq!(store.len(), 1);
    let i = store.find_by_email("a@x.com").unwrap();
    assert_eq!(store.user_at(i).email, "a@x.com");
    assert_eq!(store.find_by_google_id("g-1"), Some(i));
    assert_eq!(store.find_by_reset_token("tok-1"), Some(i));
    assert!(store.find_by_email("b@x.com").is_none());
    assert!(store.find_by_google_id("g-2").is_none());
    assert!(store.find_by_reset_token("tok-2").is_none());
}

#[test]
fn duplicate_email_insert_conflicts() {
    let mut store = UserStore::new();
    store.insert(record("id-1", "a@x.com", None, None)).unwrap();
    let res = store.insert(record("id-2", "a@x.com", None, None));
    assert_eq!(res, Err(AuthError::ConflictError));
    assert_eq!(store.len(), 1);
}

#[test]
fn clash_on_other_unique_fields_is_internal() {
    let mut store = UserStore::new();
    store.insert(record("id-1", "a@x.com", Some("g-1"), Some("tok-1"))).unwrap();
    assert_eq!(
        store.insert(record("id-1", "b@x.com", None, None)),
        Err(AuthError::InternalError)
    );
    assert_eq!(
        store.insert(record("id-2", "c@x.com", Some("g-1"), None)),
        Err(AuthError::InternalError)
    );
    assert_eq!(
        store.insert(record("id-3", "d@x.com", None, Some("tok-1"))),
        Err(AuthError::InternalError)
    );
    assert_eq!(store.len(), 1);
}
