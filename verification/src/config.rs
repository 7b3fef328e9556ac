use vstd::prelude::*;

verus! {

/// Name of the access-token session cookie.
pub const COOKIE_AUTH_TOKEN: &'static str = "auth_token";

/// Name of the refresh-token session cookie.
pub const COOKIE_REFRESH_TOKEN: &'static str = "refresh_token";

/// Length of a freshly generated authorization or verification code.
pub const VERIFICATION_CODE_LENGTH: usize = 32;

/// The auth core's explicit configuration: cookie lifetimes, the runtime
/// mode that gates the cookies' secure flag, whether this deployment serves
/// static content at the root, and the redirect allow-list.
pub struct AuthConfig {
    pub auth_token_ttl: u64,
    pub refresh_token_ttl: u64,
    pub dev_mode: bool,
    pub has_public_dir: bool,
    pub allowed_origins: Vec<String>,
}

/// A session cookie, described as plain values; the transport layer turns
/// it into a real cookie header.
#[derive(Debug)]
pub struct CookieSpec {
    pub name: String,
    pub value: String,
    pub max_age_seconds: u64,
    pub http_only: bool,
    pub secure: bool,
}

/// Builds a session cookie: always HttpOnly, and Secure unless the
/// deployment runs in explicit development mode.
pub fn new_cookie(name: &str, value: String, ttl_seconds: u64, dev_mode: bool) -> (r: CookieSpec)
    ensures
        r.name@ == name@,
        r.value == value,
        r.max_age_seconds == ttl_seconds,
        r.http_only,
        r.secure == !dev_mode,
{
    CookieSpec {
        name: String::from_str(name),
        value,
        max_age_seconds: ttl_seconds,
        http_only: true,
        secure: !dev_mode,
    }
}

} // verus!
