//! Authentication service: password signup and login, and third-party
//! (Google) login with account linking.

use vstd::prelude::*;
use vstd::string::StrSliceExecFns;

verus! {

use crate::errors::AuthError;
use crate::jwt::Claims;
use crate::jwt::SESSION_LIFETIME_SECS;
use crate::jwt::create_token_at;
use crate::jwt::decode_token;
use crate::jwt::decoded_claims;
use crate::jwt::token_accepted;
use crate::jwt::token_of;
use crate::password::MAX_PASSWORD_CHARS;
use crate::password::hash_matches;
use crate::password::hash_password;
use crate::password::is_phc_hash;
use crate::password::verify_password;
use crate::store::PublicUser;
use crate::store::User;
use crate::store::UserStore;
use crate::store::UserView;
use crate::store::fresh_opaque_string;
use crate::store::has_email;
use crate::store::has_google_id;
use crate::store::is_public_of;

/// A password signup request.
pub struct SignupRequest {
    pub name: String,
    pub email: String,
    pub password: String,
}

/// A password login request.
pub struct LoginRequest {
    pub email: String,
    pub password: String,
}

/// A third-party login request: the raw provider-issued credential, to be
/// validated against the provider before any identity logic runs.
pub struct GoogleRequest {
    pub credential: String,
}

/// The provider-verified facts extracted from a third-party credential:
/// verified email, optional display name, and the stable subject identifier.
pub struct GoogleTokenInfo {
    pub email: String,
    pub name: Option<String>,
    pub sub: String,
}

/// A successful authentication: a signed session token and the public
/// projection of the authenticated identity.
pub struct AuthResponse {
    pub token: String,
    pub user: PublicUser,
}

/// The display name recorded for a third-party signup when the provider
/// omitted one.
pub open spec fn default_display_name() -> Seq<char> {
    "Google User"@
}

/// Whether a store accepts a password login for `(email, password)`: some
/// record holds the email, with a well-formed stored hash that the password
/// re-derives to.
pub open spec fn password_login_accepted(s: Seq<UserView>, email: Seq<char>, password: Seq<char>) -> bool {
    exists|i: int|
        0 <= i < s.len() && (#[trigger] s[i]).email == email && (s[i].password_hash matches Some(h)
            && is_phc_hash(h) && hash_matches(h, password))
}

/// Registers a new password identity: rejects a taken email, hashes the
/// password under a fresh salt, commits the record and issues a session
/// token for it.
pub fn signup(store: &mut UserStore, req: &SignupRequest, secret: &str, now_secs: i64) -> (r: Result<
    AuthResponse,
    AuthError,
>)
    requires
        old(store).wf(),
        now_secs <= i64::MAX - SESSION_LIFETIME_SECS,
        req.password@.len() <= MAX_PASSWORD_CHARS,
    ensures
        final(store).wf(),
        r is Err ==> final(store)@ == old(store)@,
        has_email(old(store)@, req.email@) ==> r == Err::<AuthResponse, AuthError>(
            AuthError::ConflictError,
        ),
        !has_email(old(store)@, req.email@) && r is Err ==> r == Err::<AuthResponse, AuthError>(
            AuthError::InternalError,
        ),
        r matches Ok(resp) ==> {
            let added = final(store)@.last();
            &&& final(store)@ =~= old(store)@.push(added)
            &&& added.email == req.email@
            &&& added.name == req.name@
            &&& added.password_hash matches Some(h) && is_phc_hash(h) && hash_matches(
                h,
                req.password@,
            )
            &&& added.google_id is None
            &&& added.reset_token is None
            &&& added.reset_token_expiry is None
            &&& is_public_of(resp.user, added)
            &&& resp.token@ == token_of(secret@, req.email@, req.name@, now_secs
                + SESSION_LIFETIME_SECS)
            &&& password_login_accepted(final(store)@, req.email@, req.password@)
        },
{
    let ghost s0 = store@;
    if store.find_by_email(req.email.as_str()).is_some() {
        return Err(AuthError::ConflictError);
    }
    let hash = match hash_password(req.password.as_str()) {
        Ok(h) => h,
        Err(e) => { return Err(e) },
    };
    let token = match create_token_at(secret, req.email.as_str(), req.name.as_str(), now_secs) {
        Ok(t) => t,
        Err(e) => { return Err(e) },
    };
    let id = fresh_opaque_string();
    let user = User {
        id: id.clone(),
        name: req.name.clone(),
        email: req.email.clone(),
        password_hash: Some(hash),
        google_id: None,
        reset_token: None,
        reset_token_expiry: None,
    };
    let ghost uv = user@;
    match store.insert(user) {
        Ok(()) => {},
        Err(_) => { return Err(AuthError::InternalError) },
    }
    proof {
        assert(store@ =~= s0.push(uv));
        assert(store@.last() == uv);
    }
    Ok(
        AuthResponse {
            token,
            user: PublicUser { id, name: req.name.clone(), email: req.email.clone() },
        },
    )
}

/// Password login: looks the identity up by email and verifies the password.
/// All credential mismatches answer with the same generic unauthorized error;
/// the one deliberate exception is a third-party-only account, which is told
/// to use its provider instead.
pub fn login(store: &UserStore, req: &LoginRequest, secret: &str, now_secs: i64) -> (r: Result<
    AuthResponse,
    AuthError,
>)
    requires
        store.wf(),
        now_secs <= i64::MAX - SESSION_LIFETIME_SECS,
    ensures
        !has_email(store@, req.email@) ==> r == Err::<AuthResponse, AuthError>(
            AuthError::UnauthorizedError { use_third_party: false },
        ),
        forall|i: int|
            0 <= i < store@.len() && (#[trigger] store@[i]).email == req.email@ ==> {
                let u = store@[i];
                &&& u.password_hash is None ==> r == Err::<AuthResponse, AuthError>(
                    AuthError::UnauthorizedError { use_third_party: true },
                )
                &&& (u.password_hash matches Some(h) && !(is_phc_hash(h) && hash_matches(
                    h,
                    req.password@,
                ))) ==> r == Err::<AuthResponse, AuthError>(
                    AuthError::UnauthorizedError { use_third_party: false },
                )
                &&& (u.password_hash matches Some(h) && is_phc_hash(h) && hash_matches(
                    h,
                    req.password@,
                )) ==> (r matches Ok(resp) && is_public_of(resp.user, u) && resp.token@
                    == token_of(secret@, u.email, u.name, now_secs + SESSION_LIFETIME_SECS))
            },
        r is Ok <==> password_login_accepted(store@, req.email@, req.password@),
        r matches Err(e) ==> e is UnauthorizedError,
{
    let i = match store.find_by_email(req.email.as_str()) {
        Some(i) => i,
        None => {
            return Err(AuthError::UnauthorizedError { use_third_party: false });
        },
    };
    let u = store.user_at(i);
    let ok = match &u.password_hash {
        Some(h) => match verify_password(h.as_str(), req.password.as_str()) {
            Ok(b) => b,
            Err(_) => false,
        },
        None => {
            return Err(AuthError::UnauthorizedError { use_third_party: true });
        },
    };
    if !ok {
        return Err(AuthError::UnauthorizedError { use_third_party: false });
    }
    let token = match create_token_at(secret, u.email.as_str(), u.name.as_str(), now_secs) {
        Ok(t) => t,
        Err(e) => { return Err(e) },
    };
    Ok(
        AuthResponse {
            token,
            user: PublicUser { id: u.id, name: u.name, email: u.email },
        },
    )
}

/// Third-party login with provider-verified facts. Resolution order, first
/// match wins: an identity already linked to the subject; an identity with
/// the same verified email, which is linked to the subject (the deliberate,
/// security-sensitive merge decision); otherwise a freshly created identity
/// with no password credential.
pub fn third_party_login(
    store: &mut UserStore,
    info: &GoogleTokenInfo,
    secret: &str,
    now_secs: i64,
) -> (r: Result<AuthResponse, AuthError>)
    requires
        old(store).wf(),
        now_secs <= i64::MAX - SESSION_LIFETIME_SECS,
    ensures
        final(store).wf(),
        r is Err ==> final(store)@ == old(store)@ && r == Err::<AuthResponse, AuthError>(
            AuthError::InternalError,
        ),
        // An identity already linked to this subject is used as it stands,
        // and the login succeeds.
        forall|i: int|
            0 <= i < old(store)@.len() && (#[trigger] old(store)@[i]).google_id == Some(info.sub@)
                ==> {
                let u = old(store)@[i];
                &&& final(store)@ == old(store)@
                &&& r matches Ok(resp) && is_public_of(resp.user, u) && resp.token@ == token_of(
                    secret@,
                    u.email,
                    u.name,
                    now_secs + SESSION_LIFETIME_SECS,
                )
            },
        // No linked identity, but the verified email is registered: that
        // record is linked to the subject and used, succeeding, with its
        // pre-update data.
        !has_google_id(old(store)@, info.sub@) ==> forall|j: int|
            0 <= j < old(store)@.len() && (#[trigger] old(store)@[j]).email == info.email@ ==> {
                let u = old(store)@[j];
                &&& r matches Ok(resp) && is_public_of(resp.user, u) && resp.token@ == token_of(
                    secret@,
                    u.email,
                    u.name,
                    now_secs + SESSION_LIFETIME_SECS,
                )
                &&& final(store)@ =~= old(store)@.update(
                    j,
                    UserView { google_id: Some(info.sub@), ..u },
                )
            },
        // Neither exists: a new third-party identity is created.
        !has_google_id(old(store)@, info.sub@) && !has_email(old(store)@, info.email@) ==> {
            r matches Ok(resp) ==> {
                let added = final(store)@.last();
                &&& final(store)@ =~= old(store)@.push(added)
                &&& added.email == info.email@
                &&& added.name == (match info.name {
                    Some(n) => n@,
                    None => default_display_name(),
                })
                &&& added.password_hash is None
                &&& added.google_id == Some(info.sub@)
                &&& added.reset_token is None
                &&& added.reset_token_expiry is None
                &&& is_public_of(resp.user, added)
                &&& resp.token@ == token_of(secret@, added.email, added.name, now_secs
                    + SESSION_LIFETIME_SECS)
            }
        },
{
    match store.find_by_google_id(info.sub.as_str()) {
        Some(i) => {
            let u = store.user_at(i);
            let token = match create_token_at(secret, u.email.as_str(), u.name.as_str(), now_secs) {
                Ok(t) => t,
                Err(e) => { return Err(e) },
            };
            return Ok(
                AuthResponse {
                    token,
                    user: PublicUser { id: u.id, name: u.name, email: u.email },
                },
            );
        },
        None => {},
    }
    match store.find_by_email(info.email.as_str()) {
        Some(j) => {
            // Account linking: a verified third-party email equal to a
            // registered email is treated as proof of ownership.
            let u = store.user_at(j);
            let token = match create_token_at(secret, u.email.as_str(), u.name.as_str(), now_secs) {
                Ok(t) => t,
                Err(e) => { return Err(e) },
            };
            store.set_google_id(j, info.sub.clone());
            return Ok(
                AuthResponse {
                    token,
                    user: PublicUser { id: u.id, name: u.name, email: u.email },
                },
            );
        },
        None => {},
    }
    let name = match &info.name {
        Some(n) => n.clone(),
        None => "Google User".to_owned(),
    };
    let token = match create_token_at(secret, info.email.as_str(), name.as_str(), now_secs) {
        Ok(t) => t,
        Err(e) => { return Err(e) },
    };
    let id = fresh_opaque_string();
    let user = User {
        id: id.clone(),
        name: name.clone(),
        email: info.email.clone(),
        password_hash: None,
        google_id: Some(info.sub.clone()),
        reset_token: None,
        reset_token_expiry: None,
    };
    match store.insert(user) {
        Ok(()) => {},
        Err(_) => { return Err(AuthError::InternalError) },
    }
    Ok(
        AuthResponse {
            token,
            user: PublicUser { id, name, email: info.email.clone() },
        },
    )
}

/// The bearer token carried by an `Authorization` header value, when the
/// header has the `Bearer ` scheme prefix.
pub open spec fn bearer_token_of(header: Seq<char>) -> Option<Seq<char>> {
    if header.len() >= 7 && header.subrange(0, 7) == "Bearer "@ {
        Some(header.subrange(7, header.len() as int))
    } else {
        None
    }
}

/// Identity extraction for protected endpoints: reads the bearer token out of
/// the `Authorization` header, if any, and validates it. A missing header, a
/// missing `Bearer ` scheme, or a token that fails validation all answer with
/// the generic unauthorized error.
pub fn authenticate(auth_header: Option<&str>, secret: &str, now_secs: i64) -> (r: Result<
    Claims,
    AuthError,
>)
    ensures
        r is Err ==> r == Err::<Claims, AuthError>(
            AuthError::UnauthorizedError { use_third_party: false },
        ),
        auth_header is None ==> r is Err,
        r matches Ok(c) ==> (auth_header matches Some(h) && (bearer_token_of(h@) matches Some(t)
            && decoded_claims(secret@, t) == Some((c.sub@, c.name@, c.exp as int)) && c.exp
            > now_secs)),
        (auth_header matches Some(h) && (bearer_token_of(h@) matches Some(t) && token_accepted(
            secret@,
            t,
            now_secs as int,
        ))) ==> r is Ok,
{
    let h = match auth_header {
        Some(h) => h,
        None => {
            return Err(AuthError::UnauthorizedError { use_third_party: false });
        },
    };
    let n = h.unicode_len();
    let scheme = "Bearer ";
    proof {
        reveal_strlit("Bearer ");
    }
    if n < 7 {
        return Err(AuthError::UnauthorizedError { use_third_party: false });
    }
    let mut i: usize = 0;
    while i < 7
        invariant
            auth_header == Some(h),
            i <= 7,
            n == h@.len(),
            7 <= n,
            scheme@ == "Bearer "@,
            scheme@.len() == 7,
            forall|k: int| 0 <= k < i ==> h@[k] == scheme@[k],
        decreases 7 - i,
    {
        if h.get_char(i) != scheme.get_char(i) {
            proof {
                assert(h@.subrange(0, 7)[i as int] == h@[i as int]);
                assert(h@.subrange(0, 7) != "Bearer "@);
                assert(bearer_token_of(h@) is None);
            }
            return Err(AuthError::UnauthorizedError { use_third_party: false });
        }
        i += 1;
    }
    proof {
        assert(h@.subrange(0, 7) =~= "Bearer "@);
    }
    let token = h.substring_char(7, n);
    match decode_token(secret, token, now_secs) {
        Ok(c) => Ok(c),
        Err(_) => Err(AuthError::UnauthorizedError { use_third_party: false }),
    }
}

/// Law: the record committed by a password signup satisfies the password
/// login check for the same credentials, so a signup followed by a login with
/// them cannot be turned away as unauthorized.
pub proof fn lemma_signup_enables_login(
    s0: Seq<UserView>,
    s1: Seq<UserView>,
    u: UserView,
    password: Seq<char>,
)
    ensures
        (s1 =~= s0.push(u) && (u.password_hash matches Some(h) && is_phc_hash(h) && hash_matches(
            h,
            password,
        ))) ==> password_login_accepted(s1, u.email, password),
{
    if s1 =~= s0.push(u) && (u.password_hash matches Some(h) && is_phc_hash(h) && hash_matches(
        h,
        password,
    )) {
        assert(s1[s0.len() as int] == u);
    }
}

} // verus!

