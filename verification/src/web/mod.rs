use vstd::prelude::*;

pub mod auth;
pub mod export;
pub mod index;
pub mod logbook;
pub mod map;
pub mod my_page;
pub mod organization_list;
pub mod repeater;
pub mod repeater_list;
pub mod search;
pub mod user_location;

verus! {

/// Who the page header shows as logged in, if anyone.
#[derive(Clone)]
pub struct AuthHeader {
    pub logged_in: bool,
    pub call_sign: String,
}

impl AuthHeader {
    /// Nobody is logged in.
    pub fn anonymous() -> (r: AuthHeader)
        ensures
            !r.logged_in,
            r.call_sign@.len() == 0,
    {
        AuthHeader { logged_in: false, call_sign: String::new() }
    }

    /// `call_sign` is logged in.
    pub fn logged_in(call_sign: String) -> (r: AuthHeader)
        ensures
            r.logged_in,
            r.call_sign == call_sign,
    {
        AuthHeader { logged_in: true, call_sign }
    }
}

/// The page shown when the server fails: the rendered error page, or a
/// plain heading when it could not be rendered.
pub fn render_500(rendered: Option<String>) -> (r: String)
    ensures
        r@ == match rendered {
            Some(page) => page@,
            None => "<h1>Server Error</h1>"@,
        },
{
    match rendered {
        Some(page) => page,
        None => crate::text::owned("<h1>Server Error</h1>"),
    }
}

/// The page shown for an unknown address: the rendered not-found page, or
/// a plain heading when it could not be rendered.
pub fn render_404(rendered: Option<String>) -> (r: String)
    ensures
        r@ == match rendered {
            Some(page) => page@,
            None => "<h1>Not Found</h1>"@,
        },
{
    match rendered {
        Some(page) => page,
        None => crate::text::owned("<h1>Not Found</h1>"),
    }
}

/// Which error page an error is answered with.
#[derive(Debug, Copy, Clone, PartialEq, Eq, Structural)]
pub enum ErrorPage {
    /// The thing asked for does not exist.
    NotFound,
    /// Anything else went wrong.
    ServerError,
}

impl ErrorPage {
    /// The HTTP status the page is sent with.
    pub fn status(&self) -> (r: u16)
        ensures
            r == match *self {
                ErrorPage::NotFound => 404u16,
                ErrorPage::ServerError => 500u16,
            },
    {
        match self {
            ErrorPage::NotFound => 404,
            ErrorPage::ServerError => 500,
        }
    }
}

} // verus!
