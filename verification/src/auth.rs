use vstd::prelude::*;

use crate::text::{trim, trim_str, to_uppercase, unicode_upper};

verus! {

/// The name of the cookie that carries the login token.
pub const AUTH_COOKIE_NAME: &'static str = "ra_auth";

/// How many days a login token stays valid.
pub const TOKEN_TTL_DAYS: i64 = 7;

/// The claims of a login token: whose it is, when it was issued and when it
/// expires, in seconds since the Unix epoch.
pub struct Claims {
    pub sub: String,
    pub iat: usize,
    pub exp: usize,
}

/// A call sign as people type it, made comparable: trimmed, in upper case.
pub fn normalize_call_sign(input: &str) -> (r: String)
    ensures
        r@ == unicode_upper(trim(input@)),
{
    let t = trim_str(input);
    to_uppercase(t.as_str())
}

/// The claims of a token issued to `call_sign` at `now` (seconds since the
/// Unix epoch): issued now, expiring `TOKEN_TTL_DAYS` days later.
pub fn token_claims(call_sign: &str, now: usize) -> (r: Claims)
    requires
        now + TOKEN_TTL_DAYS * 86_400 <= usize::MAX,
    ensures
        r.sub@ == call_sign@,
        r.iat == now,
        r.exp == now + TOKEN_TTL_DAYS * 86_400,
{
    Claims {
        sub: crate::text::owned(call_sign),
        iat: now,
        exp: now + (TOKEN_TTL_DAYS as usize) * 86_400,
    }
}

} // verus!
