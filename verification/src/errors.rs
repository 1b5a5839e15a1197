use vstd::prelude::*;

verus! {

/// The error taxonomy of the identity subsystem.
///
/// Every user-visible failure of the services maps to one of these kinds; each
/// kind carries a stable user-facing message and an HTTP-style status code.
/// `UnauthorizedError` keeps its anti-enumeration shape: the one deliberate
/// message difference (an account that can only log in through its third-party
/// identity) is recorded in `use_third_party`.
#[derive(Clone, Copy, Debug, PartialEq, Eq, Structural)]
pub enum AuthError {
    /// Signup attempted with an email that is already registered.
    ConflictError,
    /// Bad credentials on login, or a bad bearer token on a protected route.
    UnauthorizedError { use_third_party: bool },
    /// Password-recovery completion with a token that was never issued.
    InvalidTokenError,
    /// Password-recovery completion with a token past its expiry.
    ExpiredTokenError,
    /// A stored reset token without a paired expiry: an inconsistent record,
    /// reported distinctly for diagnosability.
    InvalidStateError,
    /// Hashing, storage or signing failure; detail is never shown to the caller.
    InternalError,
}

impl AuthError {
    /// The HTTP-style status that a service boundary reports for this error.
    pub open spec fn spec_status_code(&self) -> u16 {
        match self {
            AuthError::ConflictError => 409,
            AuthError::UnauthorizedError { .. } => 401,
            AuthError::InvalidTokenError => 400,
            AuthError::ExpiredTokenError => 400,
            AuthError::InvalidStateError => 400,
            AuthError::InternalError => 500,
        }
    }

    pub fn status_code(&self) -> (code: u16)
        ensures
            code == self.spec_status_code(),
    {
        match self {
            AuthError::ConflictError => 409,
            AuthError::UnauthorizedError { .. } => 401,
            AuthError::InvalidTokenError => 400,
            AuthError::ExpiredTokenError => 400,
            AuthError::InvalidStateError => 400,
            AuthError::InternalError => 500,
        }
    }

    /// The stable user-facing message for this error.
    pub open spec fn spec_message(&self) -> Seq<char> {
        match self {
            AuthError::ConflictError => "Email already exists"@,
            AuthError::UnauthorizedError { use_third_party } => {
                if *use_third_party {
                    "Please log in with Google, or reset your password."@
                } else {
                    "Invalid email or password"@
                }
            },
            AuthError::InvalidTokenError => "Invalid or expired token"@,
            AuthError::ExpiredTokenError => "Token has expired"@,
            AuthError::InvalidStateError => "Invalid token state"@,
            AuthError::InternalError => "Internal server error"@,
        }
    }

    pub fn message(&self) -> (msg: String)
        ensures
            msg@ == self.spec_message(),
    {
        match self {
            AuthError::ConflictError => "Email already exists".to_owned(),
            AuthError::UnauthorizedError { use_third_party: true } => {
                "Please log in with Google, or reset your password.".to_owned()
            },
            AuthError::UnauthorizedError { use_third_party: false } => {
                "Invalid email or password".to_owned()
            },
            AuthError::InvalidTokenError => "Invalid or expired token".to_owned(),
            AuthError::ExpiredTokenError => "Token has expired".to_owned(),
            AuthError::InvalidStateError => "Invalid token state".to_owned(),
            AuthError::InternalError => "Internal server error".to_owned(),
        }
    }
}

} // verus!
