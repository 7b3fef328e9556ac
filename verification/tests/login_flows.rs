use authcore::account::Account;
use authcore::config::AuthConfig;
use authcore::create_user::{prepare_create_user, CreateUserRequest};
use authcore::errors::{AuthError, InternalCause, InvalidReason};
use authcore::login::{
    finish_code_login, login, login_with_password, Channel, LoginHttpResponse, LoginRequest,
    LoginStep,
};
use authcore::password::PasswordOptions;
use authcore::token::decode_token;

const NOW: u64 = 1_700_000_000;

fn test_config() -> AuthConfig {
    AuthConfig {
        auth_token_ttl: 3600,
        refresh_token_ttl: 86400,
        dev_mode: false,
        has_public_dir: false,
        allowed_origins: vec![String::from("https://app.example.com")],
    }
}

fn make_account(email: &str, password: &str, verified: bool) -> Account {
    let record = prepare_create_user(
        &CreateUserRequest {
            email: String::from(email),
            password: String::from(password),
            verified,
            admin: false,
        },
        false,
        &PasswordOptions::default(),
    )
    .expect("account preparation should succeed");
    Account {
        id: String::from("account-1"),
        email: record.email,
        password_hash: record.password_hash,
        verified: record.verified,
        admin: record.admin,
    }
}

fn login_request(email: &str, password: &str) -> LoginRequest {
    LoginRequest {
        email: String::from(email),
        password: String::from(password),
        redirect_to: None,
        response_type: None,
        pkce_code_challenge: None,
    }
}

#[test]
fn scenario_a_structured_login_returns_bound_tokens() {
    let cfg = test_config();
    let account = make_account("user@example.com", "correct-password", true);
    let req = login_request("user@example.com", "correct-password");
    let step = login(&cfg, Channel::Structured, &None, &req, Some(&account), NOW).unwrap();
    let resp = match step {
        LoginStep::Done(LoginHttpResponse::Json(resp)) => resp,
        other => panic!("expected a structured body, got {other:?}"),
    };
    assert!(!resp.auth_token.is_empty());
    assert!(!resp.refresh_token.is_empty());
    assert!(!resp.csrf_token.is_empty());
    let claims = decode_token(&resp.auth_token).expect("the access token must decode");
    assert_eq!(claims.csrf_token, resp.csrf_token);
    assert_eq!(claims.sub, "account-1");
    assert!(claims.verified);
    assert_eq!(claims.exp, NOW + 3600);
}

#[test]
fn scenario_b_code_flow_redirects_with_code() {
    let cfg = test_config();
    let account = make_account("user@example.com", "correct-password", true);
    let mut req = login_request("user@example.com", "correct-password");
    req.response_type = Some(String::from("code"));
    req.redirect_to = Some(String::from("https://app.example.com/cb"));
    req.pkce_code_challenge = Some(String::from("abc"));
    let step = login(&cfg, Channel::Form, &None, &req, Some(&account), NOW).unwrap();
    let (email, code, pkce, redirect) = match step {
        LoginStep::PersistCode { email, code, pkce_code_challenge, redirect } => {
            (email, code, pkce_code_challenge, redirect)
        },
        other => panic!("expected a pending code binding, got {other:?}"),
    };
    assert_eq!(email, "user@example.com");
    assert_eq!(code.len(), 32);
    assert_eq!(pkce.as_deref(), Some("abc"));
    assert_eq!(redirect, "https://app.example.com/cb");
    let url = finish_code_login(1, &redirect, &code).unwrap();
    assert_eq!(url, format!("https://app.example.com/cb?code={code}"));
}

#[test]
fn scenario_c_code_flow_without_redirect_is_rejected() {
    let cfg = test_config();
    let account = make_account("user@example.com", "correct-password", true);
    let mut req = login_request("user@example.com", "correct-password");
    req.response_type = Some(String::from("code"));
    let err = login(&cfg, Channel::Form, &None, &req, Some(&account), NOW).unwrap_err();
    assert_eq!(err, AuthError::InvalidInput(InvalidReason::MissingRedirectTarget));
    assert_eq!(err.status_code(), 400);
    assert_eq!(err.message(), "missing redirect target");
}

#[test]
fn scenario_d_wrong_password_redirects_with_alert() {
    let cfg = test_config();
    let account = make_account("user@example.com", "correct-password", true);
    let req = login_request("user@example.com", "wrong-password");
    let step = login(&cfg, Channel::Form, &None, &req, Some(&account), NOW).unwrap();
    let location = match step {
        LoginStep::Done(LoginHttpResponse::Redirect(location)) => location,
        other => panic!("expected an alert redirect, got {other:?}"),
    };
    assert_eq!(
        location,
        "/_/auth/login/?alert=Login%20Failed%20%5B401%20Unauthorized%5D%3A%20unauthorized"
    );
}

#[test]
fn scenario_e_concurrent_code_logins_both_succeed() {
    let cfg = test_config();
    let account = make_account("user@example.com", "correct-password", true);
    let mut req = login_request("user@example.com", "correct-password");
    req.response_type = Some(String::from("code"));
    req.redirect_to = Some(String::from("https://app.example.com/cb"));
    let mut codes = Vec::new();
    for _ in 0..2 {
        let step = login(&cfg, Channel::Form, &None, &req, Some(&account), NOW).unwrap();
        match step {
            LoginStep::PersistCode { code, redirect, .. } => {
                // Each attempt's single-row update reports success.
                let url = finish_code_login(1, &redirect, &code).unwrap();
                assert!(url.ends_with(&format!("?code={code}")));
                codes.push(code);
            },
            other => panic!("expected a pending code binding, got {other:?}"),
        }
    }
    assert_ne!(codes[0], codes[1]);
    // The last writer's code is the one left on the row; it is one of the two.
    let persisted = codes[1].clone();
    assert!(persisted == codes[0] || persisted == codes[1]);
}

#[test]
fn cookie_flow_sets_session_cookies_and_default_landing() {
    let cfg = test_config();
    let account = make_account("user@example.com", "correct-password", true);
    let req = login_request("user@example.com", "correct-password");
    let step = login(&cfg, Channel::Multipart, &None, &req, Some(&account), NOW).unwrap();
    let (auth_cookie, refresh_cookie, location) = match step {
        LoginStep::Done(LoginHttpResponse::CookieRedirect {
            auth_cookie,
            refresh_cookie,
            location,
        }) => (auth_cookie, refresh_cookie, location),
        other => panic!("expected a cookie redirect, got {other:?}"),
    };
    assert_eq!(location, "/_/auth/profile");
    assert_eq!(auth_cookie.name, "auth_token");
    assert!(auth_cookie.http_only);
    assert!(auth_cookie.secure);
    assert_eq!(auth_cookie.max_age_seconds, 3600);
    assert_eq!(refresh_cookie.name, "refresh_token");
    assert_eq!(refresh_cookie.max_age_seconds, 86400);
    assert_eq!(refresh_cookie.value.len(), 32);
    let claims = decode_token(&auth_cookie.value).expect("the cookie token must decode");
    assert_eq!(claims.sub, "account-1");
    assert!(claims.verified);
}

#[test]
fn cookie_flow_honors_validated_redirect() {
    let cfg = test_config();
    let account = make_account("user@example.com", "correct-password", true);
    let mut req = login_request("user@example.com", "correct-password");
    req.redirect_to = Some(String::from("/welcome"));
    let step = login(&cfg, Channel::Form, &None, &req, Some(&account), NOW).unwrap();
    match step {
        LoginStep::Done(LoginHttpResponse::CookieRedirect { location, .. }) => {
            assert_eq!(location, "/welcome");
        },
        other => panic!("expected a cookie redirect, got {other:?}"),
    }
}

#[test]
fn unauthorized_causes_are_indistinguishable() {
    let cfg = test_config();
    let account = make_account("user@example.com", "correct-password", true);
    let unverified = make_account("other@example.com", "correct-password", false);
    let req_known = login_request("user@example.com", "wrong-password");
    let req_unknown = login_request("ghost@example.com", "correct-password");
    let req_unverified = login_request("other@example.com", "correct-password");

    let wrong_password = login(
        &cfg,
        Channel::Structured,
        &None,
        &req_known,
        Some(&account),
        NOW,
    )
    .unwrap_err();
    let no_account = login(&cfg, Channel::Structured, &None, &req_unknown, None, NOW).unwrap_err();
    let not_verified = login(
        &cfg,
        Channel::Structured,
        &None,
        &req_unverified,
        Some(&unverified),
        NOW,
    )
    .unwrap_err();

    assert_eq!(wrong_password, AuthError::Unauthorized);
    assert_eq!(wrong_password, no_account);
    assert_eq!(wrong_password, not_verified);
    assert_eq!(no_account.status_code(), 401);
}

#[test]
fn malformed_stored_hash_is_internal_not_unauthorized() {
    let account = Account {
        id: String::from("account-1"),
        email: String::from("user@example.com"),
        password_hash: String::from("not-a-phc-hash"),
        verified: true,
        admin: false,
    };
    let err = login_with_password(Some(&account), "whatever-password", NOW, 3600).unwrap_err();
    assert_eq!(err, AuthError::Internal(InternalCause::MalformedPasswordHash));
    assert_eq!(err.status_code(), 500);

    // On a form channel a server-side error passes through instead of being
    // masked by an alert redirect.
    let cfg = test_config();
    let req = login_request("user@example.com", "whatever-password");
    let err = login(&cfg, Channel::Form, &None, &req, Some(&account), NOW).unwrap_err();
    assert_eq!(err, AuthError::Internal(InternalCause::MalformedPasswordHash));
}

#[test]
fn invalid_email_fails_login_before_credentials() {
    let cfg = test_config();
    let req = login_request("not-an-address", "whatever-password");
    let err = login(&cfg, Channel::Structured, &None, &req, None, NOW).unwrap_err();
    assert_eq!(err, AuthError::InvalidInput(InvalidReason::InvalidEmail));
}

#[test]
fn code_binding_outcomes_follow_rows_affected() {
    let err = finish_code_login(0, "https://app.example.com/cb", "c0de").unwrap_err();
    assert_eq!(err, AuthError::InvalidInput(InvalidReason::InvalidUser));
    let url = finish_code_login(1, "https://app.example.com/cb", "c0de").unwrap();
    assert_eq!(url, "https://app.example.com/cb?code=c0de");
    let err = finish_code_login(2, "https://app.example.com/cb", "c0de").unwrap_err();
    assert_eq!(err, AuthError::Internal(InternalCause::CodeBindingViolation));
    assert_eq!(err.status_code(), 500);
    assert!(!err.is_client_error());
}
