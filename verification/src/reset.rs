//! Password-recovery service: time-bounded, single-use reset tokens.
//!
//! Per identity the flow is a small state machine: no active reset, then an
//! issued `(token, expiry)` pair, then consumed (password replaced, pair
//! cleared) or lazily invalid once `now` passes the expiry.

use vstd::prelude::*;
use vstd::string::StringExecFns;

verus! {

use crate::errors::AuthError;
use crate::password::MAX_PASSWORD_CHARS;
use crate::password::hash_matches;
use crate::password::hash_password;
use crate::password::is_phc_hash;
use crate::store::UserStore;
use crate::store::UserView;
use crate::store::fresh_opaque_string;
use crate::store::has_email;
use crate::store::has_reset_token;
use crate::store::lemma_reset_token_single_use;

/// Number of milliseconds in the one-hour recovery window.
pub const RESET_WINDOW_MILLIS: i64 = 3600000;

/// A recovery request for an email.
pub struct ForgotPasswordRequest {
    pub email: String,
}

/// A recovery completion: the opaque token from the reset link and the new
/// password.
pub struct ResetPasswordRequest {
    pub token: String,
    pub new_password: String,
}

/// The outcome of a recovery request: the acknowledgement shown to the
/// caller, and, when an account exists, the reset link to hand to the
/// out-of-band delivery collaborator. The acknowledgement never depends on
/// whether the account exists.
pub struct ResetRequestOutcome {
    pub message: String,
    pub reset_link: Option<String>,
}

/// The acknowledgement text of a recovery request, identical for existing
/// and non-existing accounts (anti-enumeration).
pub open spec fn reset_ack_message() -> Seq<char> {
    "If an account exists with this email, a reset link has been sent."@
}

/// The acknowledgement text of a completed recovery.
pub open spec fn reset_done_message() -> Seq<char> {
    "Password reset successful. You can now login."@
}

/// The reset link handed to the delivery collaborator for a given token.
pub open spec fn reset_link_of(token: Seq<char>) -> Seq<char> {
    "http://localhost:5173/reset-password?token="@ + token
}

/// Opens a recovery window: looks the account up by email, draws a fresh
/// unguessable token, stores it with an expiry one hour ahead, and returns
/// the reset link for out-of-band delivery. For an unknown email nothing is
/// stored and the very same acknowledgement is returned.
pub fn request_reset(store: &mut UserStore, req: &ForgotPasswordRequest, now_millis: i64) -> (r:
    Result<ResetRequestOutcome, AuthError>)
    requires
        old(store).wf(),
        now_millis <= i64::MAX - RESET_WINDOW_MILLIS,
    ensures
        final(store).wf(),
        r matches Ok(o) ==> o.message@ == reset_ack_message(),
        r is Err ==> final(store)@ == old(store)@ && r == Err::<ResetRequestOutcome, AuthError>(
            AuthError::InternalError,
        ),
        !has_email(old(store)@, req.email@) ==> final(store)@ == old(store)@ && (r matches Ok(o)
            && o.reset_link is None),
        forall|j: int|
            0 <= j < old(store)@.len() && (#[trigger] old(store)@[j]).email == req.email@ ==> (
            r matches Ok(o) ==> {
                &&& final(store)@[j].reset_token matches Some(t)
                &&& final(store)@ =~= old(store)@.update(
                    j,
                    UserView {
                        reset_token: Some(t),
                        reset_token_expiry: Some((now_millis + RESET_WINDOW_MILLIS) as i64),
                        ..old(store)@[j]
                    },
                )
                &&& o.reset_link matches Some(l) && l@ == reset_link_of(t)
            }),
{
    let j = match store.find_by_email(req.email.as_str()) {
        Some(j) => j,
        None => {
            return Ok(
                ResetRequestOutcome {
                    message: "If an account exists with this email, a reset link has been sent.".to_owned(),
                    reset_link: None,
                },
            );
        },
    };
    let token = fresh_opaque_string();
    if store.find_by_reset_token(token.as_str()).is_some() {
        // A freshly drawn token colliding with a live one is a freak event;
        // it is reported as an internal failure rather than stored twice.
        return Err(AuthError::InternalError);
    }
    let expiry = now_millis + RESET_WINDOW_MILLIS;
    store.update_reset_token(j, token.clone(), expiry);
    let link = String::from_str("http://localhost:5173/reset-password?token=").concat(
        token.as_str(),
    );
    Ok(
        ResetRequestOutcome {
            message: "If an account exists with this email, a reset link has been sent.".to_owned(),
            reset_link: Some(link),
        },
    )
}

/// Consumes a reset token: an unknown token is invalid; a token without a
/// stored expiry is an inconsistent state; a token past its expiry is
/// expired even though still stored (lazy invalidation). Otherwise the
/// password is replaced under a fresh hash and the reset pair is cleared in
/// one store operation, so the token can never be used again.
pub fn complete_reset(store: &mut UserStore, req: &ResetPasswordRequest, now_millis: i64) -> (r:
    Result<String, AuthError>)
    requires
        old(store).wf(),
        req.new_password@.len() <= MAX_PASSWORD_CHARS,
    ensures
        final(store).wf(),
        r is Err ==> final(store)@ == old(store)@,
        !has_reset_token(old(store)@, req.token@) ==> r == Err::<String, AuthError>(
            AuthError::InvalidTokenError,
        ),
        forall|j: int|
            0 <= j < old(store)@.len() && (#[trigger] old(store)@[j]).reset_token == Some(
                req.token@,
            ) ==> {
                let u = old(store)@[j];
                &&& u.reset_token_expiry is None ==> r == Err::<String, AuthError>(
                    AuthError::InvalidStateError,
                )
                &&& (u.reset_token_expiry matches Some(x) && now_millis > x) ==> r == Err::<
                    String,
                    AuthError,
                >(AuthError::ExpiredTokenError)
                &&& (u.reset_token_expiry matches Some(x) && now_millis <= x) ==> {
                    &&& r matches Ok(msg) && msg@ == reset_done_message()
                    &&& final(store)@[j].password_hash matches Some(h) && is_phc_hash(h)
                        && hash_matches(h, req.new_password@)
                    &&& final(store)@ =~= old(store)@.update(
                        j,
                        UserView {
                            password_hash: final(store)@[j].password_hash,
                            reset_token: None,
                            reset_token_expiry: None,
                            ..u
                        },
                    )
                }
            },
        r is Ok ==> !has_reset_token(final(store)@, req.token@),
{
    let j = match store.find_by_reset_token(req.token.as_str()) {
        Some(j) => j,
        None => {
            return Err(AuthError::InvalidTokenError);
        },
    };
    let u = store.user_at(j);
    let expiry = match u.reset_token_expiry {
        Some(x) => x,
        None => {
            return Err(AuthError::InvalidStateError);
        },
    };
    if now_millis > expiry {
        return Err(AuthError::ExpiredTokenError);
    }
    let hash = match hash_password(req.new_password.as_str()) {
        Ok(h) => h,
        Err(e) => {
            return Err(e);
        },
    };
    let ghost s0 = store@;
    let ghost hview = hash@;
    store.replace_password_and_clear_reset(j, hash);
    proof {
        lemma_reset_token_single_use(
            s0,
            j as int,
            UserView {
                password_hash: Some(hview),
                reset_token: None,
                reset_token_expiry: None,
                ..s0[j as int]
            },
            req.token@,
        );
    }
    Ok("Password reset successful. You can now login.".to_owned())
}

} // verus!
