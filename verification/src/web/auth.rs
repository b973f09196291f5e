use vstd::prelude::*;

use super::AuthHeader;
use crate::auth::Claims;

verus! {

/// The login page.
pub struct LoginPagePath;

/// What the login form posts.
pub struct LoginForm {
    pub call_sign: String,
    pub password: String,
}

/// The logout action.
pub struct LogoutActionPath;

/// The header for a request whose login token decoded to `claims`, if it
/// carried a token that decoded at all: logged in as the token's subject,
/// else anonymous.
pub fn auth_header_for(claims: Option<Claims>) -> (r: AuthHeader)
    ensures
        match claims {
            Some(c) => r.logged_in && r.call_sign == c.sub,
            None => !r.logged_in && r.call_sign@.len() == 0,
        },
{
    match claims {
        Some(claims) => AuthHeader::logged_in(claims.sub),
        None => AuthHeader::anonymous(),
    }
}

} // verus!
