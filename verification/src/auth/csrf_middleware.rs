//! The CSRF rule applied to every request: state-changing methods (POST,
//! PUT, PATCH, DELETE) must carry the CSRF cookie and an equal
//! `X-CSRF-Token` header, except on the public authentication endpoints,
//! where no CSRF cookie exists yet. A request that breaks the rule is
//! answered with 403.

use vstd::prelude::*;
use crate::auth::csrf::{validate_csrf_tokens, CsrfConfig};
use crate::text::str_eq;

verus! {

/// Login endpoint, exempt from CSRF validation.
pub const LOGIN_PATH: &'static str = "/api/v1/auth/login";

/// Registration endpoint, exempt from CSRF validation.
pub const REGISTER_PATH: &'static str = "/api/v1/auth/register";

/// Logout endpoint, exempt from CSRF validation.
pub const LOGOUT_PATH: &'static str = "/api/v1/auth/logout";

/// The paths exempt from CSRF validation.
pub open spec fn exempt_path(path: Seq<char>) -> bool {
    path == LOGIN_PATH@ || path == REGISTER_PATH@ || path == LOGOUT_PATH@
}

/// The methods that change state and so need a CSRF token.
pub open spec fn mutating_method(method: Seq<char>) -> bool {
    method == "POST"@ || method == "PUT"@ || method == "PATCH"@ || method == "DELETE"@
}

/// Both tokens are present and equal.
pub open spec fn tokens_match(cookie: Option<Seq<char>>, header: Option<Seq<char>>) -> bool {
    cookie is Some && header is Some && cookie->0 == header->0
}

/// Whether a request passes the CSRF rule.
pub open spec fn csrf_passes(
    method: Seq<char>,
    path: Seq<char>,
    cookie: Option<Seq<char>>,
    header: Option<Seq<char>>,
) -> bool {
    mutating_method(method) && !exempt_path(path) ==> tokens_match(cookie, header)
}

pub open spec fn opt_str_view(o: Option<&str>) -> Option<Seq<char>> {
    match o {
        Some(s) => Some(s@),
        None => None,
    }
}

/// The CSRF guard, with the cookie configuration it was built with.
pub struct CsrfMiddleware {
    config: CsrfConfig,
}

impl CsrfMiddleware {
    pub fn new(config: CsrfConfig) -> (r: Self)
        ensures
            r.config() == config,
    {
        CsrfMiddleware { config }
    }

    pub closed spec fn config(&self) -> CsrfConfig {
        self.config
    }

    /// Whether a path is one of the public authentication endpoints.
    pub fn is_exempt(path: &str) -> (r: bool)
        ensures
            r == exempt_path(path@),
    {
        str_eq(path, LOGIN_PATH) || str_eq(path, REGISTER_PATH) || str_eq(path, LOGOUT_PATH)
    }

    /// Whether a request with this method, path, CSRF cookie and CSRF
    /// header may proceed.
    pub fn allows(&self, method: &str, path: &str, cookie: Option<&str>, header: Option<&str>) -> (r: bool)
        ensures
            r == csrf_passes(method@, path@, opt_str_view(cookie), opt_str_view(header)),
    {
        let should_validate = requires_csrf(method) && !CsrfMiddleware::is_exempt(path);
        !should_validate || csrf_tokens_valid(cookie, header)
    }
}

/// Whether requests with this method (its upper-case HTTP name) need a
/// CSRF token.
pub fn requires_csrf(method: &str) -> (r: bool)
    ensures
        r == mutating_method(method@),
{
    str_eq(method, "POST") || str_eq(method, "PUT") || str_eq(method, "PATCH") || str_eq(method, "DELETE")
}

/// The cookie and header tokens are both present and equal (compared in
/// constant time).
pub fn csrf_tokens_valid(cookie: Option<&str>, header: Option<&str>) -> (r: bool)
    ensures
        r == tokens_match(opt_str_view(cookie), opt_str_view(header)),
{
    match (cookie, header) {
        (Some(c), Some(h)) => validate_csrf_tokens(c, h),
        _ => false,
    }
}

} // verus!
