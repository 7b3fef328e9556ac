use vstd::prelude::*;

verus! {

/// Why an input was rejected. A closed set, so that responses stay
/// independent of call sites and contracts can name the exact rejection.
#[derive(Clone, Copy, Debug, PartialEq, Eq)]
pub enum InvalidReason {
    InvalidEmail,
    MissingRedirectTarget,
    InvalidRedirect,
    InvalidUser,
    PasswordMismatch,
    PasswordTooShort,
    PasswordMissingCharacterClass,
}

/// Cause of a server-side failure. `CodeBindingViolation` is the
/// non-recoverable variant: the authorization-code update touched more than
/// one account row, so the uniqueness invariant of the account table is
/// broken and the request must abort.
#[derive(Clone, Copy, Debug, PartialEq, Eq)]
pub enum InternalCause {
    MalformedPasswordHash,
    PasswordHashingFailure,
    CodeBindingViolation,
    EmailDispatchFailure,
}

/// The single error taxonomy of the auth core. Bad credentials, an
/// unverified account and an unknown account all surface as `Unauthorized`
/// with no payload, on purpose: the three causes must stay observably
/// identical to the caller (anti-enumeration).
#[derive(Clone, Copy, Debug, PartialEq, Eq)]
pub enum AuthError {
    InvalidInput(InvalidReason),
    Unauthorized,
    AlreadyExists,
    Internal(InternalCause),
}

impl AuthError {
    /// Transport status code of each error class.
    pub open spec fn spec_status_code(self) -> u16 {
        match self {
            AuthError::InvalidInput(_) => 400,
            AuthError::Unauthorized => 401,
            AuthError::AlreadyExists => 409,
            AuthError::Internal(_) => 500,
        }
    }

    pub fn status_code(&self) -> (r: u16)
        ensures
            r == self.spec_status_code(),
    {
        match self {
            AuthError::InvalidInput(_) => 400,
            AuthError::Unauthorized => 401,
            AuthError::AlreadyExists => 409,
            AuthError::Internal(_) => 500,
        }
    }

    /// Client-side errors are turned into an alert-carrying redirect on the
    /// form channels; server-side errors pass through unmodified.
    pub open spec fn spec_is_client_error(self) -> bool {
        400 <= self.spec_status_code() < 500
    }

    pub fn is_client_error(&self) -> (r: bool)
        ensures
            r == self.spec_is_client_error(),
    {
        let code = self.status_code();
        400 <= code && code < 500
    }

    /// The status line rendered into a human-readable alert.
    pub open spec fn spec_status_line(self) -> Seq<char> {
        match self {
            AuthError::InvalidInput(_) => "400 Bad Request"@,
            AuthError::Unauthorized => "401 Unauthorized"@,
            AuthError::AlreadyExists => "409 Conflict"@,
            AuthError::Internal(_) => "500 Internal Server Error"@,
        }
    }

    pub fn status_line(&self) -> (r: &'static str)
        ensures
            r@ == self.spec_status_line(),
    {
        match self {
            AuthError::InvalidInput(_) => "400 Bad Request",
            AuthError::Unauthorized => "401 Unauthorized",
            AuthError::AlreadyExists => "409 Conflict",
            AuthError::Internal(_) => "500 Internal Server Error",
        }
    }

    /// The human-readable message of each error value.
    pub open spec fn spec_message(self) -> Seq<char> {
        match self {
            AuthError::InvalidInput(reason) => match reason {
                InvalidReason::InvalidEmail => "invalid e-mail"@,
                InvalidReason::MissingRedirectTarget => "missing redirect target"@,
                InvalidReason::InvalidRedirect => "invalid redirect"@,
                InvalidReason::InvalidUser => "invalid user"@,
                InvalidReason::PasswordMismatch => "passwords do not match"@,
                InvalidReason::PasswordTooShort => "password too short"@,
                InvalidReason::PasswordMissingCharacterClass => "password misses a required character class"@,
            },
            AuthError::Unauthorized => "unauthorized"@,
            AuthError::AlreadyExists => "already exists"@,
            AuthError::Internal(cause) => match cause {
                InternalCause::MalformedPasswordHash => "malformed password hash"@,
                InternalCause::PasswordHashingFailure => "password hashing failed"@,
                InternalCause::CodeBindingViolation => "authorization code update affected multiple accounts"@,
                InternalCause::EmailDispatchFailure => "e-mail dispatch failed"@,
            },
        }
    }

    pub fn message(&self) -> (r: &'static str)
        ensures
            r@ == self.spec_message(),
    {
        match self {
            AuthError::InvalidInput(reason) => match reason {
                InvalidReason::InvalidEmail => "invalid e-mail",
                InvalidReason::MissingRedirectTarget => "missing redirect target",
                InvalidReason::InvalidRedirect => "invalid redirect",
                InvalidReason::InvalidUser => "invalid user",
                InvalidReason::PasswordMismatch => "passwords do not match",
                InvalidReason::PasswordTooShort => "password too short",
                InvalidReason::PasswordMissingCharacterClass => "password misses a required character class",
            },
            AuthError::Unauthorized => "unauthorized",
            AuthError::AlreadyExists => "already exists",
            AuthError::Internal(cause) => match cause {
                InternalCause::MalformedPasswordHash => "malformed password hash",
                InternalCause::PasswordHashingFailure => "password hashing failed",
                InternalCause::CodeBindingViolation => "authorization code update affected multiple accounts",
                InternalCause::EmailDispatchFailure => "e-mail dispatch failed",
            },
        }
    }
}

} // verus!
