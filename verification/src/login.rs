use vstd::prelude::*;

use crate::account::Account;
use crate::config::{AuthConfig, CookieSpec, new_cookie, COOKIE_AUTH_TOKEN, COOKIE_REFRESH_TOKEN,
    VERIFICATION_CODE_LENGTH};
use crate::email::{is_valid_email, normalize_email, validate_and_normalize_email_address};
use crate::errors::{AuthError, InternalCause, InvalidReason};
use crate::password::{check_password, parses_as_hash, password_matches, PasswordCheck};
use crate::random::generate_random_string;
use crate::redirect::{chosen_redirect, some_redirect_rejected, validate_redirects};
use crate::strutil::{str_eq, urlencode, urlencode_seq};
use crate::token::{encode_parts, encode_token, mint_new_tokens, wf_claims, TokenClaims,
    CSRF_TOKEN_LENGTH, REFRESH_TOKEN_LENGTH};

verus! {

/// A login request, the same value whichever channel carried it.
#[derive(Debug, Clone)]
pub struct LoginRequest {
    pub email: String,
    pub password: String,
    pub redirect_to: Option<String>,
    pub response_type: Option<String>,
    pub pkce_code_challenge: Option<String>,
}

/// The structured success body: the three tokens of a fresh session.
#[derive(Debug, Clone)]
pub struct LoginResponse {
    pub auth_token: String,
    pub refresh_token: String,
    pub csrf_token: String,
}

/// A freshly minted session for one account.
#[derive(Debug)]
pub struct NewTokens {
    pub id: String,
    pub auth_token: String,
    pub refresh_token: String,
    pub csrf_token: String,
}

/// The channel a login request arrived on. It is detected once, at the
/// boundary, and fixes the response shape: a structured request is answered
/// with a structured body, never a redirect.
#[derive(Debug, Clone, Copy, PartialEq, Eq)]
pub enum Channel {
    Structured,
    Form,
    Multipart,
}

/// A finished response, as plain values for the transport layer.
#[derive(Debug)]
pub enum LoginHttpResponse {
    /// A structured success body.
    Json(LoginResponse),
    /// A redirect with no cookies (alert page, or the code-bearing target).
    Redirect(String),
    /// The cookie-session success: set both cookies, then redirect.
    CookieRedirect { auth_cookie: CookieSpec, refresh_cookie: CookieSpec, location: String },
}

/// What the orchestrator decided: either a finished response, or the single
/// write this core performs — bind a fresh authorization code to the account
/// row — after which `finish_code_login` shapes the response from the
/// rows-affected count.
#[derive(Debug)]
pub enum LoginStep {
    Done(LoginHttpResponse),
    PersistCode {
        email: String,
        code: String,
        pkce_code_challenge: Option<String>,
        redirect: String,
    },
}

/// Why a credential check fails, if it does. An unknown account, an
/// unverified account and a wrong password all collapse into `Unauthorized`;
/// only a stored hash that cannot be parsed is an internal fault.
pub open spec fn login_failure(account: Option<&Account>, password: Seq<char>) -> Option<
    AuthError,
> {
    match account {
        None => Some(AuthError::Unauthorized),
        Some(a) => {
            if !a.verified {
                Some(AuthError::Unauthorized)
            } else if !parses_as_hash(a.password_hash@) {
                Some(AuthError::Internal(InternalCause::MalformedPasswordHash))
            } else if !password_matches(password, a.password_hash@) {
                Some(AuthError::Unauthorized)
            } else {
                None
            }
        },
    }
}

/// One of the three credential situations that must stay indistinguishable.
pub open spec fn unauthorized_credentials(account: Option<&Account>, password: Seq<char>) -> bool {
    ||| account is None
    ||| (account matches Some(a) && !a.verified)
    ||| (account matches Some(a) && a.verified && parses_as_hash(a.password_hash@)
        && !password_matches(password, a.password_hash@))
}

/// An absent account, an unverified account and a wrong password yield the
/// very same error value: the caller cannot tell the three causes apart.
pub proof fn lemma_unauthorized_indistinguishable(
    a1: Option<&Account>,
    p1: Seq<char>,
    a2: Option<&Account>,
    p2: Seq<char>,
)
    requires
        unauthorized_credentials(a1, p1),
        unauthorized_credentials(a2, p2),
    ensures
        login_failure(a1, p1) == login_failure(a2, p2),
        login_failure(a1, p1) == Some(AuthError::Unauthorized),
{
}

/// Verifies the credentials against the fetched account row and mints a new
/// session. `account` is the row that storage returned for the canonical
/// e-mail, or `None` when there is no such row.
pub fn login_with_password(
    account: Option<&Account>,
    password: &str,
    now: u64,
    auth_token_ttl: u64,
) -> (r: Result<NewTokens, AuthError>)
    requires
        now + auth_token_ttl <= u64::MAX,
    ensures
        r is Ok <==> login_failure(account, password@) is None,
        r matches Err(e) ==> Some(e) == login_failure(account, password@),
        r matches Ok(t) ==> account matches Some(a) && t.id@ == a.id@ && t.csrf_token@.len()
            == CSRF_TOKEN_LENGTH && t.refresh_token@.len() == REFRESH_TOKEN_LENGTH
            && t.auth_token@ == encode_parts(a.id@, true, t.csrf_token@, (now + auth_token_ttl) as u64),
{
    let account = match account {
        Some(a) => a,
        None => {
            return Err(AuthError::Unauthorized);
        },
    };
    if !account.verified {
        return Err(AuthError::Unauthorized);
    }
    match check_password(password, account.password_hash.as_str()) {
        PasswordCheck::MalformedHash => Err(
            AuthError::Internal(InternalCause::MalformedPasswordHash),
        ),
        PasswordCheck::Mismatch => Err(AuthError::Unauthorized),
        PasswordCheck::Match => {
            let tokens = mint_new_tokens(true, account.id.as_str(), now, auth_token_ttl);
            let auth_token = encode_token(&tokens.auth_token_claims);
            let refresh_token = match tokens.refresh_token {
                Some(t) => t,
                None => {
                    // The minter always returns a refresh token.
                    proof {
                        assert(false);
                    }
                    return Err(AuthError::Unauthorized);
                },
            };
            Ok(
                NewTokens {
                    id: account.id.clone(),
                    auth_token,
                    refresh_token,
                    csrf_token: tokens.auth_token_claims.csrf_token,
                },
            )
        },
    }
}

/// The error a login attempt resolves to before any response shaping, if
/// any: a malformed address, then the credential check.
pub open spec fn spec_login_impl_error(request: LoginRequest, account: Option<&Account>) -> Option<
    AuthError,
> {
    if !is_valid_email(request.email@) {
        Some(AuthError::InvalidInput(InvalidReason::InvalidEmail))
    } else {
        login_failure(account, request.password@)
    }
}

/// The shape every successful login body has: non-empty tokens, and an
/// access token that encodes exactly the subject, the verified flag and the
/// CSRF token echoed beside it.
pub open spec fn ok_response_shape(
    resp: LoginResponse,
    account: Option<&Account>,
    exp: u64,
) -> bool {
    &&& account is Some
    &&& resp.auth_token@ == encode_parts(account.unwrap().id@, true, resp.csrf_token@, exp)
    &&& resp.csrf_token@.len() == CSRF_TOKEN_LENGTH
    &&& resp.refresh_token@.len() == REFRESH_TOKEN_LENGTH
}

/// Whatever claims a success body's access token carries, their CSRF token
/// is the CSRF token echoed in that body, their subject is the account, and
/// their verified flag is set: the double-submit binding, end to end.
pub proof fn lemma_login_csrf_binding(
    resp: LoginResponse,
    account: Option<&Account>,
    exp: u64,
    claims: TokenClaims,
)
    requires
        ok_response_shape(resp, account, exp),
        wf_claims(claims),
        resp.auth_token@ == crate::token::encode_claims(claims),
    ensures
        claims.csrf_token@ == resp.csrf_token@,
        claims.verified,
        claims.sub@ == account.unwrap().id@,
        claims.exp == exp,
        resp.auth_token@.len() > 0,
        resp.csrf_token@.len() > 0,
        resp.refresh_token@.len() > 0,
{
    crate::token::lemma_encode_parts_injective(
        claims.sub@,
        claims.verified,
        claims.csrf_token@,
        claims.exp,
        account.unwrap().id@,
        true,
        resp.csrf_token@,
        exp,
    );
}

/// Validates the address, checks the credentials and mints the structured
/// success body.
pub fn login_handler_impl(
    request: &LoginRequest,
    account: Option<&Account>,
    now: u64,
    auth_token_ttl: u64,
) -> (r: Result<LoginResponse, AuthError>)
    requires
        now + auth_token_ttl <= u64::MAX,
    ensures
        r is Ok <==> spec_login_impl_error(*request, account) is None,
        r matches Err(e) ==> Some(e) == spec_login_impl_error(*request, account),
        r matches Ok(resp) ==> ok_response_shape(resp, account, (now + auth_token_ttl) as u64),
{
    match validate_and_normalize_email_address(request.email.as_str()) {
        Ok(_) => {},
        Err(e) => {
            return Err(e);
        },
    }
    let tokens = match login_with_password(account, request.password.as_str(), now, auth_token_ttl)
        {
        Ok(t) => t,
        Err(e) => {
            return Err(e);
        },
    };
    Ok(
        LoginResponse {
            auth_token: tokens.auth_token,
            refresh_token: tokens.refresh_token,
            csrf_token: tokens.csrf_token,
        },
    )
}

/// The alert text embedded into the login-page redirect after a
/// client-side failure.
pub open spec fn alert_message(e: AuthError) -> Seq<char> {
    "Login Failed ["@ + e.spec_status_line() + "]: "@ + e.spec_message()
}

/// The login-page redirect that carries the alert, URL-encoded.
pub open spec fn login_alert_url(e: AuthError) -> Seq<char> {
    "/_/auth/login/?alert="@ + urlencode_seq(alert_message(e))
}

fn build_alert_redirect(e: &AuthError) -> (r: String)
    ensures
        r@ == login_alert_url(*e),
{
    let mut msg = String::from_str("Login Failed [");
    msg.append(e.status_line());
    msg.append("]: ");
    msg.append(e.message());
    let mut url = String::from_str("/_/auth/login/?alert=");
    let encoded = urlencode(msg.as_str());
    url.append(encoded.as_str());
    url
}

/// Does the request ask for the authorization-code flow?
pub open spec fn wants_code(request: LoginRequest) -> bool {
    request.response_type matches Some(t) && t@ == "code"@
}

/// Where the cookie-session flow lands when no redirect was asked for.
pub open spec fn default_landing(cfg: AuthConfig) -> Seq<char> {
    if cfg.has_public_dir {
        "/"@
    } else {
        "/_/auth/profile"@
    }
}

/// The shape of the two session cookies set by a cookie-flow success.
pub open spec fn cookie_response_shape(
    auth_cookie: CookieSpec,
    refresh_cookie: CookieSpec,
    cfg: AuthConfig,
    account: Option<&Account>,
    exp: u64,
) -> bool {
    &&& account is Some
    &&& auth_cookie.name@ == "auth_token"@
    &&& auth_cookie.http_only
    &&& auth_cookie.secure == !cfg.dev_mode
    &&& auth_cookie.max_age_seconds == cfg.auth_token_ttl
    &&& exists|csrf: Seq<char>|
        csrf.len() == CSRF_TOKEN_LENGTH && auth_cookie.value@ == encode_parts(
            account.unwrap().id@,
            true,
            csrf,
            exp,
        )
    &&& refresh_cookie.name@ == "refresh_token"@
    &&& refresh_cookie.http_only
    &&& refresh_cookie.secure == !cfg.dev_mode
    &&& refresh_cookie.max_age_seconds == cfg.refresh_token_ttl
    &&& refresh_cookie.value@.len() == REFRESH_TOKEN_LENGTH
}

/// The login orchestrator. Detects nothing itself: the channel was decided
/// at the boundary, the account row was fetched by the canonical address,
/// and `now` is the current instant. Resolves the attempt into either a
/// finished response or the one pending storage write of the code flow.
pub fn login(
    cfg: &AuthConfig,
    channel: Channel,
    query_redirect: &Option<String>,
    request: &LoginRequest,
    account: Option<&Account>,
    now: u64,
) -> (r: Result<LoginStep, AuthError>)
    requires
        now + cfg.auth_token_ttl <= u64::MAX,
    ensures
        some_redirect_rejected(*cfg, *query_redirect, request.redirect_to) ==> r == Err::<
            LoginStep,
            AuthError,
        >(AuthError::InvalidInput(InvalidReason::InvalidRedirect)),
        ({
            let rejected = some_redirect_rejected(*cfg, *query_redirect, request.redirect_to);
            let impl_err = spec_login_impl_error(*request, account);
            let chosen = chosen_redirect(*query_redirect, request.redirect_to);
            let exp = (now + cfg.auth_token_ttl) as u64;
            &&& (!rejected && channel is Structured && impl_err is Some ==> r == Err::<
                LoginStep,
                AuthError,
            >(impl_err.unwrap()))
            &&& (!rejected && channel is Structured && impl_err is None ==> (r matches Ok(
                LoginStep::Done(LoginHttpResponse::Json(resp)),
            ) && ok_response_shape(resp, account, exp)))
            &&& (!rejected && !(channel is Structured) && impl_err is Some
                && impl_err.unwrap().spec_is_client_error() ==> (r matches Ok(
                LoginStep::Done(LoginHttpResponse::Redirect(loc)),
            ) && loc@ == login_alert_url(impl_err.unwrap())))
            &&& (!rejected && !(channel is Structured) && impl_err is Some
                && !impl_err.unwrap().spec_is_client_error() ==> r == Err::<
                LoginStep,
                AuthError,
            >(impl_err.unwrap()))
            &&& (!rejected && !(channel is Structured) && impl_err is None && wants_code(*request)
                && chosen is None ==> r == Err::<LoginStep, AuthError>(
                AuthError::InvalidInput(InvalidReason::MissingRedirectTarget),
            ))
            &&& (!rejected && !(channel is Structured) && impl_err is None && wants_code(*request)
                && chosen is Some ==> (r matches Ok(
                LoginStep::PersistCode { email, code, pkce_code_challenge, redirect },
            ) && email@ == normalize_email(request.email@) && code@.len()
                == VERIFICATION_CODE_LENGTH && pkce_code_challenge.deep_view()
                == request.pkce_code_challenge.deep_view() && redirect@ == chosen.unwrap()))
            &&& (!rejected && !(channel is Structured) && impl_err is None && !wants_code(*request)
                ==> (r matches Ok(
                LoginStep::Done(
                    LoginHttpResponse::CookieRedirect { auth_cookie, refresh_cookie, location },
                ),
            ) && cookie_response_shape(auth_cookie, refresh_cookie, *cfg, account, exp) && location@
                == (if chosen is Some {
                chosen.unwrap()
            } else {
                default_landing(*cfg)
            })))
        }),
{
    let redirect = match validate_redirects(cfg, query_redirect, &request.redirect_to) {
        Ok(chosen) => chosen,
        Err(e) => {
            return Err(e);
        },
    };
    let code_response = match &request.response_type {
        Some(t) => str_eq(t.as_str(), "code"),
        None => false,
    };

    let response = match channel {
        Channel::Structured => {
            let resp = match login_handler_impl(request, account, now, cfg.auth_token_ttl) {
                Ok(resp) => resp,
                Err(e) => {
                    return Err(e);
                },
            };
            return Ok(LoginStep::Done(LoginHttpResponse::Json(resp)));
        },
        _ => {
            match login_handler_impl(request, account, now, cfg.auth_token_ttl) {
                Ok(resp) => resp,
                Err(e) => {
                    // A client-side failure degrades into an alert-carrying
                    // redirect to the login page; a server-side one passes
                    // through unmodified so it stays visible.
                    if e.is_client_error() {
                        return Ok(
                            LoginStep::Done(
                                LoginHttpResponse::Redirect(build_alert_redirect(&e)),
                            ),
                        );
                    }
                    return Err(e);
                },
            }
        },
    };

    if code_response {
        let redirect = match redirect {
            Some(t) => t,
            None => {
                return Err(AuthError::InvalidInput(InvalidReason::MissingRedirectTarget));
            },
        };
        // The code is generated only after the target is known to exist.
        let authorization_code = generate_random_string(VERIFICATION_CODE_LENGTH);
        let email = match validate_and_normalize_email_address(request.email.as_str()) {
            Ok(n) => n,
            Err(_) => {
                // The address was already validated on the way to a
                // successful credential check.
                proof {
                    assert(false);
                }
                return Err(AuthError::Unauthorized);
            },
        };
        let pkce_code_challenge = match &request.pkce_code_challenge {
            Some(c) => Some(c.clone()),
            None => None,
        };
        return Ok(
            LoginStep::PersistCode {
                email,
                code: authorization_code,
                pkce_code_challenge,
                redirect,
            },
        );
    }

    let auth_cookie = new_cookie(
        COOKIE_AUTH_TOKEN,
        response.auth_token,
        cfg.auth_token_ttl,
        cfg.dev_mode,
    );
    let refresh_cookie = new_cookie(
        COOKIE_REFRESH_TOKEN,
        response.refresh_token,
        cfg.refresh_token_ttl,
        cfg.dev_mode,
    );
    proof {
        reveal_strlit("auth_token");
        reveal_strlit("refresh_token");
    }
    let location = match redirect {
        Some(t) => t,
        None => {
            if cfg.has_public_dir {
                String::from_str("/")
            } else {
                String::from_str("/_/auth/profile")
            }
        },
    };
    Ok(LoginStep::Done(LoginHttpResponse::CookieRedirect { auth_cookie, refresh_cookie, location }))
}

/// The redirect of a successful code-flow login: the validated target with
/// the code appended as its query parameter.
pub open spec fn code_redirect_url(redirect: Seq<char>, code: Seq<char>) -> Seq<char> {
    redirect + "?code="@ + code
}

/// The code that appears in the final redirect's query parameter is exactly
/// the code that was handed to the storage update: one persisted code, one
/// delivered code, the same value.
pub proof fn lemma_code_redirect_binding(redirect: Seq<char>, code: Seq<char>)
    ensures
        code_redirect_url(redirect, code).len() == redirect.len() + 6 + code.len(),
        code_redirect_url(redirect, code).subrange(
            (redirect.len() + 6) as int,
            code_redirect_url(redirect, code).len() as int,
        ) == code,
        code_redirect_url(redirect, code).subrange(0, redirect.len() as int) == redirect,
{
    reveal_strlit("?code=");
    assert("?code="@.len() == 6);
    assert(code_redirect_url(redirect, code).subrange(
        (redirect.len() + 6) as int,
        code_redirect_url(redirect, code).len() as int,
    ) =~= code);
    assert(code_redirect_url(redirect, code).subrange(0, redirect.len() as int) =~= redirect);
}

/// Shapes the outcome of the authorization-code binding update from the
/// number of account rows it touched. Zero rows means no such account; one
/// row is the success, answered with the code-bearing redirect; more than
/// one row breaks the e-mail uniqueness invariant and aborts as an internal,
/// non-recoverable fault — never a normal client error.
pub fn finish_code_login(rows_affected: u64, redirect: &str, code: &str) -> (r: Result<
    String,
    AuthError,
>)
    ensures
        rows_affected == 0 ==> r == Err::<String, AuthError>(
            AuthError::InvalidInput(InvalidReason::InvalidUser),
        ),
        rows_affected == 1 ==> (r matches Ok(url) && url@ == code_redirect_url(redirect@, code@)),
        rows_affected > 1 ==> r == Err::<String, AuthError>(
            AuthError::Internal(InternalCause::CodeBindingViolation),
        ),
{
    if rows_affected == 0 {
        Err(AuthError::InvalidInput(InvalidReason::InvalidUser))
    } else if rows_affected == 1 {
        let mut url = String::from_str(redirect);
        url.append("?code=");
        url.append(code);
        Ok(url)
    } else {
        Err(AuthError::Internal(InternalCause::CodeBindingViolation))
    }
}

} // verus!
