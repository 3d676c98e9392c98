//! The session cookie and the signed-in user it names.

use vstd::prelude::*;

use crate::error::STATUS_UNAUTHORIZED;

verus! {

/// Name of the cookie that carries the signed-in user's name.
pub const SESSION_COOKIE: &'static str = "username";

/// Path of the session cookie: the whole site.
pub const SESSION_COOKIE_PATH: &'static str = "/";

/// The user named by a valid session cookie.
pub struct LoggedInUser(pub String);

/// A cookie to set on the client, with the attributes this application uses.
pub struct SessionCookie {
    pub name: String,
    pub value: String,
    /// Hidden from scripts in the page.
    pub http_only: bool,
    pub path: String,
    /// Lifetime in seconds; `None` keeps the cookie for the browser session.
    pub max_age_seconds: Option<i64>,
}

/// A cookie's contents as plain values.
pub struct CookieView {
    pub name: Seq<char>,
    pub value: Seq<char>,
    pub http_only: bool,
    pub path: Seq<char>,
    pub max_age_seconds: Option<i64>,
}

impl View for SessionCookie {
    type V = CookieView;

    open spec fn view(&self) -> CookieView {
        CookieView {
            name: self.name@,
            value: self.value@,
            http_only: self.http_only,
            path: self.path@,
            max_age_seconds: self.max_age_seconds,
        }
    }
}

/// The cookie that signs `username` in.
pub open spec fn login_cookie_view(username: Seq<char>) -> CookieView {
    CookieView {
        name: SESSION_COOKIE@,
        value: username,
        http_only: true,
        path: SESSION_COOKIE_PATH@,
        max_age_seconds: None,
    }
}

/// The cookie that signs the user out: empty and already expired.
pub open spec fn logout_cookie_view() -> CookieView {
    CookieView {
        name: SESSION_COOKIE@,
        value: Seq::empty(),
        http_only: false,
        path: SESSION_COOKIE_PATH@,
        max_age_seconds: Some(0),
    }
}

/// The session cookie for `username`: script-proof, for the whole site,
/// kept for the browser session.
pub fn login_cookie(username: &str) -> (c: SessionCookie)
    ensures
        c@ == login_cookie_view(username@),
{
    SessionCookie {
        name: SESSION_COOKIE.to_string(),
        value: username.to_string(),
        http_only: true,
        path: SESSION_COOKIE_PATH.to_string(),
        max_age_seconds: None,
    }
}

/// The cookie that ends the session: same name and path, empty, max age 0.
pub fn logout_cookie() -> (c: SessionCookie)
    ensures
        c@ == logout_cookie_view(),
{
    SessionCookie {
        name: SESSION_COOKIE.to_string(),
        value: String::new(),
        http_only: false,
        path: SESSION_COOKIE_PATH.to_string(),
        max_age_seconds: Some(0),
    }
}

/// A browser keeps one cookie per name and path, so the logout cookie
/// replaces the login cookie of any user; it is empty and expires at once.
pub proof fn logout_cookie_replaces_login_cookie(username: Seq<char>)
    ensures
        logout_cookie_view().name == login_cookie_view(username).name,
        logout_cookie_view().path == login_cookie_view(username).path,
        logout_cookie_view().value.len() == 0,
        logout_cookie_view().max_age_seconds == Some(0i64),
{
}

impl LoggedInUser {
    /// The user for a request whose verified session cookie holds `value`;
    /// without that cookie the request is refused with `401 Unauthorized`.
    pub fn from_session_cookie(value: Option<String>) -> (r: Result<LoggedInUser, u16>)
        ensures
            match value {
                Some(v) => r matches Ok(u) && u.0@ == v@,
                None => r == Err::<LoggedInUser, u16>(STATUS_UNAUTHORIZED),
            },
    {
        match value {
            Some(v) => Ok(LoggedInUser(v)),
            None => Err(STATUS_UNAUTHORIZED),
        }
    }

    /// The user, if the request carries a verified session cookie.
    pub fn from_optional_session_cookie(value: Option<String>) -> (r: Option<LoggedInUser>)
        ensures
            match value {
                Some(v) => r matches Some(u) && u.0@ == v@,
                None => r is None,
            },
    {
        match value {
            Some(v) => Some(LoggedInUser(v)),
            None => None,
        }
    }
}

} // verus!
