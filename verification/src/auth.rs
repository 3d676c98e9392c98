//! Signup, login and logout: the forms, their checks and the answers.

use vstd::prelude::*;

use crate::cookies::{login_cookie, login_cookie_view, logout_cookie, logout_cookie_view, SessionCookie};
use crate::error::AppError;
use crate::layout::{layout, layout_html};
use crate::password::{
    bcrypt_verify_result, hash_password, is_default_cost_hash, is_random_source_failure,
    verify_password,
};
use crate::text::{
    has_at_least_bytes, is_white_space, trim, trim_is_empty_iff_all_white_space, trim_is_idempotent, trimmed, trimmed_has_no_outer_white_space, utf8_len,
};

verus! {

/// Title of the login page.
pub const LOGIN_TITLE: &'static str = "Login";

/// Title of the signup page.
pub const SIGNUP_TITLE: &'static str = "Sign up";

/// The login form, posted with htmx; errors land in the box below it.
pub const LOGIN_FORM: &'static str = "<form action=\"/login\" hx-post=\"/login\" hx-target=\"#error-box\" method=\"post\"><label>Username<input type=\"text\" name=\"username\"></label><label>Password<input type=\"password\" name=\"password\"></label><button type=\"submit\">Login</button></form><div id=\"error-box\"></div>";

/// The signup form, posted with htmx; errors land in the box below it.
pub const SIGNUP_FORM: &'static str = "<form action=\"/signup\" hx-post=\"/signup\" hx-target=\"#error-box\" method=\"post\"><label>Username<input type=\"text\" name=\"username\"></label><label>Password<input type=\"password\" name=\"password\"></label><button type=\"submit\">Sign up</button></form><div id=\"error-box\"></div>";

/// What a signup without a user name is told.
pub const USERNAME_REQUIRED: &'static str = "Username is required";

/// What a signup with a short password is told.
pub const PASSWORD_TOO_SHORT: &'static str = "Password must be at least 8 characters";

/// The fewest bytes (UTF-8) a password may have.
pub const MIN_PASSWORD_BYTES: usize = 8;

/// What every refused login is told, whether the name or the password was wrong.
pub const INVALID_LOGIN: &'static str = "Invalid username or password";

/// Where a signed-in user is sent.
pub const DASHBOARD_PATH: &'static str = "/dashboard";

/// Where a signed-out user is sent.
pub const HOME_PATH: &'static str = "/";

/// The fields of the login form.
pub struct LoginForm {
    pub username: String,
    pub password: String,
}

/// The fields of the signup form.
pub struct SignupForm {
    pub username: String,
    pub password: String,
}

/// A user ready to be stored: the trimmed name and the password's hash.
pub struct NewUser {
    pub username: String,
    pub password_hash: String,
}

/// How the client is sent on after a session change.
#[derive(PartialEq, Eq, Structural, Clone, Copy, Debug)]
pub enum Navigation {
    /// An `HX-Redirect` header, which htmx follows.
    HxRedirect,
    /// A `303 See Other` redirect.
    SeeOther,
}

/// The answer to a successful signup, login or logout: a cookie to set and
/// where to go next.
pub struct SessionReply {
    pub cookie: SessionCookie,
    pub navigation: Navigation,
    pub location: String,
}

/// `reply` signs `username` in and sends the browser, through htmx, to the dashboard.
pub open spec fn is_login_reply(reply: SessionReply, username: Seq<char>) -> bool {
    &&& reply.cookie@ == login_cookie_view(username)
    &&& reply.navigation == Navigation::HxRedirect
    &&& reply.location@ == DASHBOARD_PATH@
}

/// Why a signup is refused, if it is: the first failed check's message.
pub open spec fn signup_problem(username: Seq<char>, password: Seq<char>) -> Option<Seq<char>> {
    if trim(username).len() == 0 {
        Some(USERNAME_REQUIRED@)
    } else if utf8_len(password) < MIN_PASSWORD_BYTES {
        Some(PASSWORD_TOO_SHORT@)
    } else {
        None
    }
}

/// The three answers a login can get.
pub enum LoginVerdict {
    Accepted,
    Refused,
    Failed,
}

/// How a login with `password` ends, given the stored hash of the named
/// user (`None` when no such user exists).
pub open spec fn login_verdict(password: Seq<char>, stored: Option<Seq<char>>) -> LoginVerdict {
    match stored {
        None => LoginVerdict::Refused,
        Some(h) => match bcrypt_verify_result(password, h) {
            Some(true) => LoginVerdict::Accepted,
            Some(false) => LoginVerdict::Refused,
            None => LoginVerdict::Failed,
        },
    }
}

impl LoginForm {
    /// The form as submitted.
    pub fn new(username: String, password: String) -> (f: LoginForm)
        ensures
            f.username == username,
            f.password == password,
    {
        LoginForm { username, password }
    }
}

impl SignupForm {
    /// The form as submitted.
    pub fn new(username: String, password: String) -> (f: SignupForm)
        ensures
            f.username == username,
            f.password == password,
    {
        SignupForm { username, password }
    }
}

/// The login page.
pub fn login_page() -> (page: String)
    ensures
        page@ == layout_html(LOGIN_TITLE@, LOGIN_FORM@, None),
{
    layout(LOGIN_TITLE, LOGIN_FORM, None)
}

/// The signup page.
pub fn signup_page() -> (page: String)
    ensures
        page@ == layout_html(SIGNUP_TITLE@, SIGNUP_FORM@, None),
{
    layout(SIGNUP_TITLE, SIGNUP_FORM, None)
}

/// Checks a signup: the name must not be blank and the password must have
/// at least eight bytes. Gives the name to store: the trimmed one.
pub fn check_signup(form: &SignupForm) -> (r: Result<String, AppError>)
    ensures
        match signup_problem(form.username@, form.password@) {
            Some(m) => r matches Err(AppError::BadRequest(x)) && x@ == m,
            None => r matches Ok(u) && u@ == trim(form.username@),
        },
{
    let name = trimmed(form.username.as_str());
    if name.as_str().is_empty() {
        return Err(AppError::BadRequest(USERNAME_REQUIRED.to_string()));
    }
    if !has_at_least_bytes(form.password.as_str(), MIN_PASSWORD_BYTES) {
        return Err(AppError::BadRequest(PASSWORD_TOO_SHORT.to_string()));
    }
    Ok(name)
}

/// Checks a signup and hashes its password: the user to store. A valid form
/// fails only where hashing fails, with an internal error.
pub fn prepare_signup(form: &SignupForm) -> (r: Result<NewUser, AppError>)
    ensures
        match signup_problem(form.username@, form.password@) {
            Some(m) => r matches Err(AppError::BadRequest(x)) && x@ == m,
            None => match r {
                Ok(u) => u.username@ == trim(form.username@) && bcrypt_verify_result(
                    form.password@,
                    u.password_hash@,
                ) == Some(true) && is_default_cost_hash(u.password_hash@),
                Err(e) => e matches AppError::Internal(m) && is_random_source_failure(m@),
            },
        },
{
    let username = check_signup(form)?;
    let password_hash = hash_password(form.password.as_str())?;
    Ok(NewUser { username, password_hash })
}

/// The answer once the user has been stored (or not): on success the
/// session cookie holds the name as typed in the form.
pub fn signup_reply(form_username: &str, stored: Result<(), AppError>) -> (r: Result<
    SessionReply,
    AppError,
>)
    ensures
        match stored {
            Ok(_) => r matches Ok(reply) && is_login_reply(reply, form_username@),
            Err(e) => r == Err::<SessionReply, AppError>(e),
        },
{
    match stored {
        Ok(()) => Ok(login_success(form_username)),
        Err(e) => Err(e),
    }
}

/// Signs `username` in and sends the browser to the dashboard.
fn login_success(username: &str) -> (reply: SessionReply)
    ensures
        is_login_reply(reply, username@),
{
    SessionReply {
        cookie: login_cookie(username),
        navigation: Navigation::HxRedirect,
        location: DASHBOARD_PATH.to_string(),
    }
}

/// The answer to a login once the password has been checked: a match signs
/// the user in, a mismatch is refused, a failed check is passed on.
pub fn decide_login(username: &str, checked: Result<bool, AppError>) -> (r: Result<
    SessionReply,
    AppError,
>)
    ensures
        match checked {
            Ok(true) => r matches Ok(reply) && is_login_reply(reply, username@),
            Ok(false) => r matches Err(AppError::Unauthorized(m)) && m@ == INVALID_LOGIN@,
            Err(e) => r == Err::<SessionReply, AppError>(e),
        },
{
    match checked {
        Ok(true) => Ok(login_success(username)),
        Ok(false) => Err(AppError::Unauthorized(INVALID_LOGIN.to_string())),
        Err(e) => Err(e),
    }
}

/// The answer to a login, given the stored password hash of the named user
/// (`None` when there is no such user).
pub fn login_reply(form: &LoginForm, stored: Option<String>) -> (r: Result<SessionReply, AppError>)
    ensures
        match login_verdict(form.password@, match stored {
            Some(h) => Some(h@),
            None => None,
        }) {
            LoginVerdict::Accepted => r matches Ok(reply) && is_login_reply(reply, form.username@),
            LoginVerdict::Refused => r matches Err(AppError::Unauthorized(m)) && m@
                == INVALID_LOGIN@,
            LoginVerdict::Failed => r matches Err(e) && e is Internal,
        },
{
    match stored {
        Some(hash) => {
            let checked = verify_password(form.password.as_str(), hash.as_str());
            decide_login(form.username.as_str(), checked)
        },
        None => Err(AppError::Unauthorized(INVALID_LOGIN.to_string())),
    }
}

/// The answer to a logout: the emptied session cookie and a redirect home.
pub fn logout_reply() -> (reply: SessionReply)
    ensures
        reply.cookie@ == logout_cookie_view(),
        reply.navigation == Navigation::SeeOther,
        reply.location@ == HOME_PATH@,
{
    SessionReply {
        cookie: logout_cookie(),
        navigation: Navigation::SeeOther,
        location: HOME_PATH.to_string(),
    }
}

/// An accepted signup stores a name that is not empty, neither starts nor
/// ends with white space, and is left alone by trimming again.
pub proof fn accepted_signup_name_is_clean(username: Seq<char>, password: Seq<char>)
    requires
        signup_problem(username, password) is None,
    ensures
        trim(username).len() > 0,
        !is_white_space(trim(username)[0]),
        !is_white_space(trim(username).last()),
        trim(trim(username)) == trim(username),
{
    trimmed_has_no_outer_white_space(username);
    trim_is_idempotent(username);
}

/// Signup refuses exactly two things: a name made only of white space (the
/// empty name included), and otherwise a password of fewer than eight bytes.
/// Every name with a character that is not white space, with a password of
/// eight bytes or more, is accepted.
pub proof fn signup_refuses_exactly_blank_names_and_short_passwords(
    username: Seq<char>,
    password: Seq<char>,
)
    ensures
        signup_problem(username, password) == Some(USERNAME_REQUIRED@) <==> forall|i: int|
            0 <= i < username.len() ==> is_white_space(#[trigger] username[i]),
        signup_problem(username, password) == Some(PASSWORD_TOO_SHORT@) <==> (exists|i: int|
            0 <= i < username.len() && !is_white_space(#[trigger] username[i])) && utf8_len(
            password,
        ) < 8,
        signup_problem(username, password) is None <==> (exists|i: int|
            0 <= i < username.len() && !is_white_space(#[trigger] username[i])) && utf8_len(
            password,
        ) >= 8,
{
    trim_is_empty_iff_all_white_space(username);
    reveal_strlit("Username is required");
    reveal_strlit("Password must be at least 8 characters");
    assert(USERNAME_REQUIRED@.len() != PASSWORD_TOO_SHORT@.len());
}

/// A password that signup hashed is accepted at login against that hash.
pub proof fn signed_up_password_is_accepted(password: Seq<char>, hash: Seq<char>)
    requires
        bcrypt_verify_result(password, hash) == Some(true),
    ensures
        login_verdict(password, Some(hash)) == LoginVerdict::Accepted,
{
}

/// A wrong password and an unknown user name get the same answer, so a
/// refusal does not tell whether the name exists.
pub proof fn unknown_user_looks_like_wrong_password(password: Seq<char>, hash: Seq<char>)
    requires
        bcrypt_verify_result(password, hash) == Some(false),
    ensures
        login_verdict(password, None) == login_verdict(password, Some(hash)),
        login_verdict(password, None) == LoginVerdict::Refused,
{
}

} // verus!
