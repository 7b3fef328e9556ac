use authcore::config::AuthConfig;
use authcore::create_user::{prepare_create_user, CreateUserRequest};
use authcore::email::validate_and_normalize_email_address;
use authcore::errors::{AuthError, InvalidReason};
use authcore::login::login_with_password;
use authcore::account::Account;
use authcore::password::{validate_passwords, PasswordOptions};
use authcore::redirect::validate_redirects;
use authcore::status::login_status;
use authcore::strutil::urlencode;
use authcore::token::{decode_token, encode_token, mint_new_tokens, rotate_refresh_token, TokenClaims};

fn test_config() -> AuthConfig {
    AuthConfig {
        auth_token_ttl: 3600,
        refresh_token_ttl: 86400,
        dev_mode: false,
        has_public_dir: false,
        allowed_origins: vec![String::from("https://app.example.com")],
    }
}

#[test]
fn email_addresses_are_normalized() {
    let n = validate_and_normalize_email_address("User@Example.COM").unwrap();
    assert_eq!(n, "user@example.com");
}

#[test]
fn malformed_email_addresses_are_rejected() {
    for bad in ["", "no-at-sign", "@host", "local@", "two@@signs", "a b@host", "a@"] {
        let err = validate_and_normalize_email_address(bad).unwrap_err();
        assert_eq!(err, AuthError::InvalidInput(InvalidReason::InvalidEmail));
    }
}

#[test]
fn password_policy_rejections() {
    let opts = PasswordOptions::default();
    let err = validate_passwords("password-one", "password-two", &opts).unwrap_err();
    assert_eq!(err, AuthError::InvalidInput(InvalidReason::PasswordMismatch));
    let err = validate_passwords("short", "short", &opts).unwrap_err();
    assert_eq!(err, AuthError::InvalidInput(InvalidReason::PasswordTooShort));
    let strict = PasswordOptions {
        min_length: 8,
        must_contain_lowercase: true,
        must_contain_uppercase: true,
        must_contain_digit: true,
    };
    let err = validate_passwords("lowercase-only", "lowercase-only", &strict).unwrap_err();
    assert_eq!(
        err,
        AuthError::InvalidInput(InvalidReason::PasswordMissingCharacterClass)
    );
    assert!(validate_passwords("Mixed-Case-1", "Mixed-Case-1", &strict).is_ok());
}

#[test]
fn redirect_validator_rejects_unlisted_targets() {
    let cfg = test_config();
    // Query-supplied candidate.
    let err = validate_redirects(&cfg, &Some(String::from("https://evil.example/")), &None)
        .unwrap_err();
    assert_eq!(err, AuthError::InvalidInput(InvalidReason::InvalidRedirect));
    // Body-supplied candidate, even behind a passing query candidate.
    let err = validate_redirects(
        &cfg,
        &Some(String::from("/fine")),
        &Some(String::from("https://evil.example/")),
    )
    .unwrap_err();
    assert_eq!(err, AuthError::InvalidInput(InvalidReason::InvalidRedirect));
    // A prefix of an allowed origin that names another host.
    let err = validate_redirects(
        &cfg,
        &Some(String::from("https://app.example.com.evil.example/")),
        &None,
    )
    .unwrap_err();
    assert_eq!(err, AuthError::InvalidInput(InvalidReason::InvalidRedirect));
    // Protocol-relative targets are not same-origin.
    let err = validate_redirects(&cfg, &Some(String::from("//evil.example")), &None).unwrap_err();
    assert_eq!(err, AuthError::InvalidInput(InvalidReason::InvalidRedirect));
}

#[test]
fn redirect_validator_accepts_and_orders_candidates() {
    let cfg = test_config();
    // No candidate at all is not an error.
    assert_eq!(validate_redirects(&cfg, &None, &None).unwrap(), None);
    // Empty candidates count as absent.
    assert_eq!(validate_redirects(&cfg, &Some(String::new()), &None).unwrap(), None);
    // Relative targets are same-origin.
    assert_eq!(
        validate_redirects(&cfg, &Some(String::from("/welcome")), &None).unwrap(),
        Some(String::from("/welcome"))
    );
    // Listed origins pass, with their paths and queries.
    assert_eq!(
        validate_redirects(&cfg, &None, &Some(String::from("https://app.example.com/cb")))
            .unwrap(),
        Some(String::from("https://app.example.com/cb"))
    );
    // The query-string candidate takes precedence over the body one.
    assert_eq!(
        validate_redirects(
            &cfg,
            &Some(String::from("/first")),
            &Some(String::from("/second"))
        )
        .unwrap(),
        Some(String::from("/first"))
    );
}

#[test]
fn status_without_session_is_all_null() {
    let view = login_status(&None);
    assert!(view.auth_token.is_none());
    assert!(view.refresh_token.is_none());
    assert!(view.csrf_token.is_none());
}

#[test]
fn status_is_repeatable_and_echoes_the_session() {
    let tokens = mint_new_tokens(true, "account-7", 1_700_000_000, 600);
    let csrf = tokens.auth_token_claims.csrf_token.clone();
    let refresh = tokens.refresh_token.clone();
    let session = Some(tokens);
    let first = login_status(&session);
    let second = login_status(&session);
    assert_eq!(first.auth_token, second.auth_token);
    assert_eq!(first.refresh_token, second.refresh_token);
    assert_eq!(first.csrf_token, second.csrf_token);
    assert_eq!(first.csrf_token.as_deref(), Some(csrf.as_str()));
    assert_eq!(first.refresh_token, refresh);
    let claims = decode_token(first.auth_token.as_deref().unwrap()).unwrap();
    assert_eq!(claims.csrf_token, csrf);
    assert_eq!(claims.sub, "account-7");
}

#[test]
fn token_codec_round_trips() {
    let claims = TokenClaims {
        sub: String::from("some-subject.with.dots"),
        verified: false,
        csrf_token: "c".repeat(32),
        exp: u64::MAX,
    };
    let token = encode_token(&claims);
    let decoded = decode_token(&token).unwrap();
    assert_eq!(decoded.sub, claims.sub);
    assert_eq!(decoded.verified, claims.verified);
    assert_eq!(decoded.csrf_token, claims.csrf_token);
    assert_eq!(decoded.exp, claims.exp);
}

#[test]
fn token_decoder_rejects_garbage() {
    assert!(decode_token("").is_none());
    assert!(decode_token("too-short").is_none());
    let claims = TokenClaims {
        sub: String::from("s"),
        verified: true,
        csrf_token: "c".repeat(32),
        exp: 12,
    };
    let token = encode_token(&claims);
    let tampered = token.replacen('.', "x", 1);
    assert!(decode_token(&tampered).is_none());
}

#[test]
fn urlencode_escapes_reserved_characters() {
    assert_eq!(urlencode("a b[c]:~"), "a%20b%5Bc%5D%3A~");
    assert_eq!(urlencode("safe-chars_.~AZaz09"), "safe-chars_.~AZaz09");
}

#[test]
fn create_user_prepares_a_record_whose_hash_verifies() {
    let req = CreateUserRequest {
        email: String::from("New.User@Example.com"),
        password: String::from("long-enough-password"),
        verified: true,
        admin: false,
    };
    let record = prepare_create_user(&req, false, &PasswordOptions::default()).unwrap();
    assert_eq!(record.email, "new.user@example.com");
    assert!(record.verified);
    assert!(!record.admin);
    assert!(record.email_verification_code.is_none());
    // The stored hash verifies against the very password that was hashed,
    // and against nothing else.
    let account = Account {
        id: String::from("account-2"),
        email: record.email,
        password_hash: record.password_hash,
        verified: true,
        admin: false,
    };
    assert!(login_with_password(Some(&account), "long-enough-password", 1, 2).is_ok());
    assert_eq!(
        login_with_password(Some(&account), "wrong-password-here", 1, 2).unwrap_err(),
        AuthError::Unauthorized
    );
}

#[test]
fn create_user_flags_and_duplicates() {
    let req = CreateUserRequest {
        email: String::from("pending@example.com"),
        password: String::from("long-enough-password"),
        verified: false,
        admin: true,
    };
    let record = prepare_create_user(&req, false, &PasswordOptions::default()).unwrap();
    assert!(record.admin);
    assert_eq!(record.email_verification_code.as_deref().unwrap().len(), 32);
    let err = prepare_create_user(&req, true, &PasswordOptions::default()).unwrap_err();
    assert_eq!(err, AuthError::AlreadyExists);
    assert_eq!(err.status_code(), 409);
}

#[test]
fn refresh_rotation_issues_a_fresh_single_use_token() {
    let mut tokens = mint_new_tokens(true, "account-9", 1_700_000_000, 600);
    let before = tokens.refresh_token.clone().unwrap();
    let csrf_before = tokens.auth_token_claims.csrf_token.clone();
    let invalidated = rotate_refresh_token(&mut tokens).unwrap();
    let after = tokens.refresh_token.clone().unwrap();
    assert_eq!(invalidated, before);
    assert_ne!(after, before);
    assert_eq!(after.len(), 32);
    assert_eq!(tokens.auth_token_claims.csrf_token, csrf_before);
}
