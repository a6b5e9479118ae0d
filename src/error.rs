use vstd::prelude::*;

verus! {

/// Failures of the verification-code store.
#[derive(Debug, Clone, Copy, PartialEq, Eq, Structural)]
pub enum StorageError {
    /// No live record holds the code: it never existed or was already redeemed.
    NotFound,
    /// The insert broke a constraint, such as a code that is already live.
    Conflict,
    /// The datastore could not be reached or failed.
    Backend,
}

/// Failures of the login and verify flows, each terminal for its request.
#[derive(Debug, Clone, Copy, PartialEq, Eq, Structural)]
pub enum AuthError {
    /// Login for an email that no user has.
    UnknownEmail,
    /// Verify with a code that is not live.
    InvalidCode,
    /// Verify with a code whose expiry has passed; the code is consumed.
    ExpiredCode,
    /// The user that owns a redeemed code could not be resolved.
    MissingUser,
    /// The store failed for a reason other than a missing code.
    Storage(StorageError),
    /// The system clock could not be read.
    ClockUnavailable,
    /// The session token could not be signed.
    SigningFailure,
    /// The magic-link email could not be dispatched.
    NotificationFailure,
}

/// HTTP status for an unauthorized request.
pub const STATUS_UNAUTHORIZED: u16 = 401;

/// HTTP status for an internal fault.
pub const STATUS_INTERNAL: u16 = 500;

/// Whether the failure is reported to the client as an authorization failure
/// (as opposed to an internal fault).
pub open spec fn is_auth_failure(e: AuthError) -> bool {
    match e {
        AuthError::UnknownEmail | AuthError::InvalidCode | AuthError::ExpiredCode
        | AuthError::NotificationFailure => true,
        _ => false,
    }
}

impl AuthError {
    /// The HTTP status under which the failure is reported.
    pub fn status_code(&self) -> (r: u16)
        ensures
            is_auth_failure(*self) ==> r == STATUS_UNAUTHORIZED,
            !is_auth_failure(*self) ==> r == STATUS_INTERNAL,
    {
        match self {
            AuthError::UnknownEmail | AuthError::InvalidCode | AuthError::ExpiredCode
            | AuthError::NotificationFailure => STATUS_UNAUTHORIZED,
            _ => STATUS_INTERNAL,
        }
    }

    /// A message for the client that carries no backend detail. Expired and
    /// missing codes read alike, so that code validity is not leaked; an
    /// unknown email and a failed dispatch read alike, so that the existence
    /// of an account is not leaked.
    pub fn public_message(&self) -> (r: &'static str)
        ensures
            (*self == AuthError::InvalidCode || *self == AuthError::ExpiredCode) ==> r@
                == "invalid or expired verification code"@,
            (*self == AuthError::UnknownEmail || *self == AuthError::NotificationFailure) ==> r@
                == "login failed"@,
            !is_auth_failure(*self) ==> r@ == "internal server error"@,
    {
        match self {
            AuthError::UnknownEmail | AuthError::NotificationFailure => "login failed",
            AuthError::InvalidCode | AuthError::ExpiredCode => "invalid or expired verification code",
            _ => "internal server error",
        }
    }
}

} // verus!
