use vstd::prelude::*;

use crate::errors::{AuthError, InvalidReason};
use argon2::PasswordHasher;
use argon2::PasswordVerifier;

verus! {

/// Whether a stored hash string is a well-formed PHC hash that the verifier
/// can work with. Names the (deterministic) outcome of argon2's PHC parser
/// on the string; nothing in this library states what the format is.
pub uninterp spec fn parses_as_hash(hash: Seq<char>) -> bool;

/// Whether a password verifies against a stored hash string. Names the
/// (deterministic) outcome of argon2's verification; the algorithm itself is
/// the collaborator's business.
pub uninterp spec fn password_matches(password: Seq<char>, hash: Seq<char>) -> bool;

/// Outcome of holding a password against a stored hash.
#[derive(Clone, Copy, Debug, PartialEq, Eq)]
pub enum PasswordCheck {
    /// The stored hash is not a usable PHC string: a server-side fault,
    /// never a credential failure.
    MalformedHash,
    Mismatch,
    Match,
}

/// Relies on argon2: `PasswordHash::new` parses the stored PHC string, and
/// `Argon2::verify_password` recomputes the hash in constant time and
/// compares. Both results depend on the two arguments alone.
#[verifier::external_body]
pub(crate) fn check_password(password: &str, stored_hash: &str) -> (r: PasswordCheck)
    ensures
        r is MalformedHash <==> !parses_as_hash(stored_hash@),
        parses_as_hash(stored_hash@) ==> (r is Match <==> password_matches(
            password@,
            stored_hash@,
        )),
{
    match argon2::PasswordHash::new(stored_hash) {
        Err(_) => PasswordCheck::MalformedHash,
        Ok(parsed) => match argon2::Argon2::default().verify_password(
            password.as_bytes(),
            &parsed,
        ) {
            Ok(()) => PasswordCheck::Match,
            Err(_) => PasswordCheck::Mismatch,
        },
    }
}

/// Relies on argon2's `PasswordHasher::hash_password`: the returned PHC
/// string parses back and verifies against the hashed password (the
/// documented round trip). The salt comes from the system RNG, so only what
/// holds of every outcome is stated.
#[verifier::external_body]
pub(crate) fn hash_password(password: &str) -> (r: Option<String>)
    ensures
        r matches Some(h) ==> parses_as_hash(h@) && password_matches(password@, h@)
            && h@.len() > 0,
{
    match argon2::Argon2::default().hash_password(password.as_bytes()) {
        Ok(hash) => Some(hash.to_string()),
        Err(_) => None,
    }
}

/// The password-strength policy: an explicit configuration value, not
/// implicit global state.
#[derive(Clone, Copy, Debug, PartialEq, Eq)]
pub struct PasswordOptions {
    pub min_length: usize,
    pub must_contain_lowercase: bool,
    pub must_contain_uppercase: bool,
    pub must_contain_digit: bool,
}

impl Default for PasswordOptions {
    /// The policy used when none is configured: a minimum length, no
    /// required character classes.
    fn default() -> (r: Self)
        ensures
            r.min_length == 8,
            !r.must_contain_lowercase,
            !r.must_contain_uppercase,
            !r.must_contain_digit,
    {
        PasswordOptions {
            min_length: 8,
            must_contain_lowercase: false,
            must_contain_uppercase: false,
            must_contain_digit: false,
        }
    }
}

pub open spec fn is_lower_char(c: char) -> bool {
    'a' <= c && c <= 'z'
}

pub open spec fn is_upper_char(c: char) -> bool {
    'A' <= c && c <= 'Z'
}

pub open spec fn is_digit_char(c: char) -> bool {
    '0' <= c && c <= '9'
}

/// The first policy rule a proposed password breaks, if any.
pub open spec fn password_validation_error(
    password: Seq<char>,
    confirmation: Seq<char>,
    opts: PasswordOptions,
) -> Option<AuthError> {
    if password != confirmation {
        Some(AuthError::InvalidInput(InvalidReason::PasswordMismatch))
    } else if password.len() < opts.min_length {
        Some(AuthError::InvalidInput(InvalidReason::PasswordTooShort))
    } else if (opts.must_contain_lowercase && !(exists|i: int|
        0 <= i < password.len() && is_lower_char(#[trigger] password[i]))) || (
    opts.must_contain_uppercase && !(exists|i: int|
        0 <= i < password.len() && is_upper_char(#[trigger] password[i]))) || (
    opts.must_contain_digit && !(exists|i: int|
        0 <= i < password.len() && is_digit_char(#[trigger] password[i]))) {
        Some(AuthError::InvalidInput(InvalidReason::PasswordMissingCharacterClass))
    } else {
        None
    }
}

/// Validates a proposed password and its confirmation against the policy.
pub fn validate_passwords(password: &str, confirmation: &str, opts: &PasswordOptions) -> (r:
    Result<(), AuthError>)
    ensures
        r is Ok <==> password_validation_error(password@, confirmation@, *opts) is None,
        r matches Err(e) ==> Some(e) == password_validation_error(
            password@,
            confirmation@,
            *opts,
        ),
{
    if !crate::strutil::str_eq(password, confirmation) {
        return Err(AuthError::InvalidInput(InvalidReason::PasswordMismatch));
    }
    let n = password.unicode_len();
    if n < opts.min_length {
        return Err(AuthError::InvalidInput(InvalidReason::PasswordTooShort));
    }
    let mut has_lower = false;
    let mut has_upper = false;
    let mut has_digit = false;
    let mut i: usize = 0;
    while i < n
        invariant
            n == password@.len(),
            i <= n,
            has_lower == exists|j: int| 0 <= j < i && is_lower_char(#[trigger] password@[j]),
            has_upper == exists|j: int| 0 <= j < i && is_upper_char(#[trigger] password@[j]),
            has_digit == exists|j: int| 0 <= j < i && is_digit_char(#[trigger] password@[j]),
        decreases n - i,
    {
        let c = password.get_char(i);
        if c >= 'a' && c <= 'z' {
            has_lower = true;
        }
        if c >= 'A' && c <= 'Z' {
            has_upper = true;
        }
        if c >= '0' && c <= '9' {
            has_digit = true;
        }
        i += 1;
    }
    if (opts.must_contain_lowercase && !has_lower) || (opts.must_contain_uppercase && !has_upper)
        || (opts.must_contain_digit && !has_digit) {
        return Err(AuthError::InvalidInput(InvalidReason::PasswordMissingCharacterClass));
    }
    Ok(())
}

} // verus!
