use vstd::prelude::*;

use crate::config::AuthConfig;
use crate::errors::{AuthError, InvalidReason};
use crate::strutil::str_starts_with;

verus! {

/// Whether `target` sits under the origin `origin`: equal to it, or one of
/// its paths or queries. A plain prefix is not enough — it would let
/// `https://a.example` admit `https://a.example.evil`.
pub open spec fn origin_matches(origin: Seq<char>, target: Seq<char>) -> bool {
    &&& origin.len() > 0
    &&& origin.is_prefix_of(target)
    &&& (target.len() == origin.len() || target[origin.len() as int] == '/' || target[origin.len()
        as int] == '?')
}

/// The allow-list check: a same-origin (site-relative) path, or a target
/// under one of the configured origins. A protocol-relative `//host` target
/// is not same-origin and is refused.
pub open spec fn is_allowed_redirect(cfg: AuthConfig, target: Seq<char>) -> bool {
    ||| (target.len() >= 1 && target[0] == '/' && !(target.len() >= 2 && target[1] == '/'))
    ||| exists|i: int|
        0 <= i < cfg.allowed_origins@.len() && origin_matches(
            #[trigger] cfg.allowed_origins@[i]@,
            target,
        )
}

fn allowed_redirect(cfg: &AuthConfig, target: &str) -> (r: bool)
    ensures
        r == is_allowed_redirect(*cfg, target@),
{
    let n = target.unicode_len();
    if n >= 1 && target.get_char(0) == '/' && !(n >= 2 && target.get_char(1) == '/') {
        return true;
    }
    let mut i: usize = 0;
    let count = cfg.allowed_origins.len();
    while i < count
        invariant
            count == cfg.allowed_origins@.len(),
            i <= count,
            n == target@.len(),
            forall|j: int|
                0 <= j < i ==> !origin_matches(#[trigger] cfg.allowed_origins@[j]@, target@),
        decreases count - i,
    {
        let origin = &cfg.allowed_origins[i];
        let olen = origin.as_str().unicode_len();
        if olen > 0 && str_starts_with(target, origin.as_str()) {
            if n == olen || target.get_char(olen) == '/' || target.get_char(olen) == '?' {
                return true;
            }
        }
        i += 1;
    }
    false
}

/// Is this candidate present and non-empty?
pub open spec fn effective(candidate: Option<String>) -> bool {
    candidate matches Some(t) && t@.len() > 0
}

/// The candidate that wins: the query-string one takes precedence over the
/// body one; an absent or empty candidate is skipped.
pub open spec fn chosen_redirect(query: Option<String>, body: Option<String>) -> Option<
    Seq<char>,
> {
    if effective(query) {
        Some(query.unwrap()@)
    } else if effective(body) {
        Some(body.unwrap()@)
    } else {
        None
    }
}

/// Whether some non-empty candidate fails the allow-list check. Every such
/// candidate is rejected, in either position, regardless of precedence.
pub open spec fn some_redirect_rejected(
    cfg: AuthConfig,
    query: Option<String>,
    body: Option<String>,
) -> bool {
    ||| (effective(query) && !is_allowed_redirect(cfg, query.unwrap()@))
    ||| (effective(body) && !is_allowed_redirect(cfg, body.unwrap()@))
}

/// Resolves the caller-supplied redirect candidates. Both candidates are
/// held against the allow-list; a failing non-empty candidate is an
/// `InvalidInput` error wherever it stands. With no candidate at all the
/// result is `Ok(None)`: the caller decides whether a target is required.
pub fn validate_redirects(
    cfg: &AuthConfig,
    query_redirect: &Option<String>,
    body_redirect: &Option<String>,
) -> (r: Result<Option<String>, AuthError>)
    ensures
        r is Err <==> some_redirect_rejected(*cfg, *query_redirect, *body_redirect),
        r matches Err(e) ==> e == AuthError::InvalidInput(InvalidReason::InvalidRedirect),
        r matches Ok(chosen) ==> chosen.deep_view() == chosen_redirect(
            *query_redirect,
            *body_redirect,
        ),
{
    let mut chosen: Option<String> = None;
    match query_redirect {
        Some(t) => {
            if !t.as_str().is_empty() {
                if !allowed_redirect(cfg, t.as_str()) {
                    return Err(AuthError::InvalidInput(InvalidReason::InvalidRedirect));
                }
                chosen = Some(t.clone());
            }
        },
        None => {},
    }
    match body_redirect {
        Some(t) => {
            if !t.as_str().is_empty() {
                if !allowed_redirect(cfg, t.as_str()) {
                    return Err(AuthError::InvalidInput(InvalidReason::InvalidRedirect));
                }
                if chosen.is_none() {
                    chosen = Some(t.clone());
                }
            }
        },
        None => {},
    }
    Ok(chosen)
}

} // verus!
