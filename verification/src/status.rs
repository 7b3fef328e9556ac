use vstd::prelude::*;

use crate::token::{encode_claims, encode_token, Tokens};

verus! {

/// The status body: the current session's tokens, or all-null fields when
/// no session was presented.
#[derive(Debug)]
pub struct LoginStatusResponse {
    pub auth_token: Option<String>,
    pub refresh_token: Option<String>,
    pub csrf_token: Option<String>,
}

/// Reads the current session. Without one, every field is null; with one,
/// the access-token claims are re-encoded and the refresh and CSRF tokens
/// already carried by the session are echoed. The result is a function of
/// the session alone — nothing is mutated, and two calls with the same
/// session return the same view.
pub fn login_status(tokens: &Option<Tokens>) -> (r: LoginStatusResponse)
    ensures
        tokens is None ==> r.auth_token is None && r.refresh_token is None && r.csrf_token is None,
        tokens matches Some(t) ==> (r.auth_token matches Some(at) && at@ == encode_claims(
            t.auth_token_claims,
        )) && r.refresh_token.deep_view() == t.refresh_token.deep_view() && (r.csrf_token
            matches Some(ct) && ct@ == t.auth_token_claims.csrf_token@),
{
    let tokens = match tokens {
        Some(t) => t,
        None => {
            return LoginStatusResponse { auth_token: None, refresh_token: None, csrf_token: None };
        },
    };
    let auth_token = encode_token(&tokens.auth_token_claims);
    let refresh_token = match &tokens.refresh_token {
        Some(t) => Some(t.clone()),
        None => None,
    };
    LoginStatusResponse {
        auth_token: Some(auth_token),
        refresh_token,
        csrf_token: Some(tokens.auth_token_claims.csrf_token.clone()),
    }
}

} // verus!
