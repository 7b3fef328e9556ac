use vstd::prelude::*;

use crate::config::VERIFICATION_CODE_LENGTH;
use crate::email::{is_valid_email, normalize_email, validate_and_normalize_email_address};
use crate::errors::{AuthError, InternalCause};
use crate::password::{hash_password, parses_as_hash, password_matches, password_validation_error,
    validate_passwords, PasswordOptions};
use crate::random::generate_random_string;

verus! {

/// A request to create an account.
#[derive(Debug, Clone)]
pub struct CreateUserRequest {
    pub email: String,
    pub password: String,
    pub verified: bool,
    pub admin: bool,
}

/// The account row to insert: canonical e-mail, PHC password hash, the two
/// flags, and — for an account that still has to verify its address — a
/// fresh verification code to send.
#[derive(Debug)]
pub struct NewUserRecord {
    pub email: String,
    pub password_hash: String,
    pub verified: bool,
    pub admin: bool,
    pub email_verification_code: Option<String>,
}

/// Validates a creation request and prepares the row to insert. `exists`
/// says whether storage already holds an account under the canonical
/// address. Storage inserts the returned record; when it carries a
/// verification code, the e-mail dispatcher sends that code out.
pub fn prepare_create_user(
    request: &CreateUserRequest,
    exists: bool,
    opts: &PasswordOptions,
) -> (r: Result<NewUserRecord, AuthError>)
    ensures
        !is_valid_email(request.email@) ==> r == Err::<NewUserRecord, AuthError>(
            AuthError::InvalidInput(crate::errors::InvalidReason::InvalidEmail),
        ),
        (is_valid_email(request.email@) && password_validation_error(
            request.password@,
            request.password@,
            *opts,
        ) is Some) ==> r == Err::<NewUserRecord, AuthError>(password_validation_error(
            request.password@,
            request.password@,
            *opts,
        ).unwrap()),
        is_valid_email(request.email@) && password_validation_error(
            request.password@,
            request.password@,
            *opts,
        ) is None && exists ==> r == Err::<NewUserRecord, AuthError>(AuthError::AlreadyExists),
        is_valid_email(request.email@) && password_validation_error(
            request.password@,
            request.password@,
            *opts,
        ) is None && !exists ==> (r matches Ok(rec) || r == Err::<NewUserRecord, AuthError>(
            AuthError::Internal(InternalCause::PasswordHashingFailure),
        )),
        r matches Ok(rec) ==> {
            &&& is_valid_email(request.email@)
            &&& password_validation_error(request.password@, request.password@, *opts) is None
            &&& !exists
            &&& rec.email@ == normalize_email(request.email@)
            &&& rec.verified == request.verified
            &&& rec.admin == request.admin
            &&& parses_as_hash(rec.password_hash@)
            &&& password_matches(request.password@, rec.password_hash@)
            &&& (rec.email_verification_code is Some <==> !request.verified)
            &&& (rec.email_verification_code matches Some(code) ==> code@.len()
                == VERIFICATION_CODE_LENGTH)
        },
{
    let normalized_email = match validate_and_normalize_email_address(request.email.as_str()) {
        Ok(n) => n,
        Err(e) => {
            return Err(e);
        },
    };
    match validate_passwords(request.password.as_str(), request.password.as_str(), opts) {
        Ok(()) => {},
        Err(e) => {
            return Err(e);
        },
    }
    if exists {
        return Err(AuthError::AlreadyExists);
    }
    let hashed_password = match hash_password(request.password.as_str()) {
        Some(h) => h,
        None => {
            return Err(AuthError::Internal(InternalCause::PasswordHashingFailure));
        },
    };
    let email_verification_code = if request.verified {
        None
    } else {
        Some(generate_random_string(VERIFICATION_CODE_LENGTH))
    };
    Ok(
        NewUserRecord {
            email: normalized_email,
            password_hash: hashed_password,
            verified: request.verified,
            admin: request.admin,
            email_verification_code,
        },
    )
}

} // verus!
