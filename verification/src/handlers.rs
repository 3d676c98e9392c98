//! A plainer set of page handlers: no htmx forms and no error box; a refused
//! login or a taken name is answered with a page, and the session cookie is
//! set through a `Set-Cookie` header on a redirect.

use vstd::prelude::*;

use crate::auth::LoginVerdict;
use crate::cookies::{login_cookie, logout_cookie, CookieView, SessionCookie};
use crate::error::STATUS_INTERNAL_SERVER_ERROR;
use crate::password::{bcrypt_verify_result, hash_password, is_default_cost_hash, verify_password};
use crate::text::{contains, contains_seq, escape_html, push_escaped};
use crate::user::UNIQUE_VIOLATION;

verus! {

/// Markup from the document start to the title text.
pub const PLAIN_PAGE_START: &'static str = "<html><head><title>";

/// Markup from the title's end to the header's contents.
pub const PLAIN_HEAD_END: &'static str = "</title><script src=\"/static/htmx.min.js\"></script></head><body><header>";

/// Markup that closes the header.
pub const PLAIN_HEADER_END: &'static str = "</header>";

/// Markup that closes the document.
pub const PLAIN_PAGE_END: &'static str = "</body></html>";

/// Header markup before the signed-in user's name.
pub const PLAIN_GREETING_START: &'static str = "<span>Hello ";

/// Header markup after the signed-in user's name: the logout form.
pub const PLAIN_GREETING_END: &'static str = "</span><form action=\"/logout\" method=\"post\"><button type=\"submit\">Logout</button></form>";

/// Header markup for a visitor who is not signed in.
pub const PLAIN_GUEST_LINKS: &'static str = "<a href=\"/login\">Login</a> <a href=\"/signup\">Sign up</a>";

/// Title of the home page.
pub const PLAIN_HOME_TITLE: &'static str = "Home";

/// The home page's content: a clock that htmx refreshes every second.
pub const PLAIN_HOME_CONTENT: &'static str = "<h1>Hello</h1><div id=\"clock\" hx-get=\"/time\" hx-trigger=\"every 1s\">Loading...</div>";

/// Title of the dashboard.
pub const PLAIN_DASHBOARD_TITLE: &'static str = "Dashboard";

/// Dashboard markup before the user's name.
pub const WELCOME_START: &'static str = "<h1>Welcome ";

/// Dashboard markup after the user's name.
pub const WELCOME_END: &'static str = "</h1>";

/// Title of the login page and of a refused login.
pub const PLAIN_LOGIN_TITLE: &'static str = "Login";

/// The login form, posted as a plain form.
pub const PLAIN_LOGIN_FORM: &'static str = "<form action=\"/login\" method=\"post\"><label>Username<input type=\"text\" name=\"username\"></label><label>Password<input type=\"password\" name=\"password\"></label><button type=\"submit\">Login</button></form>";

/// The signup form, posted as a plain form; it is served without a page frame.
pub const PLAIN_SIGNUP_FORM: &'static str = "<form action=\"/signup\" method=\"post\"><label>Username<input type=\"text\" name=\"username\"></label><label>Password<input type=\"password\" name=\"password\"></label><button type=\"submit\">Sign up</button></form>";

/// Content of the page that answers a refused login.
pub const LOGIN_FAILED_CONTENT: &'static str = "<p>Invalid username or password</p><a href=\"/login\">Try again</a>";

/// Title of the page that answers a taken name.
pub const SIGNUP_FAILED_TITLE: &'static str = "Signup";

/// Content of the page that answers a taken name.
pub const SIGNUP_FAILED_CONTENT: &'static str = "<p>Username already taken</p><a href=\"/signup\">Try again</a>";

/// Where a signed-in user is sent.
pub const PLAIN_DASHBOARD_PATH: &'static str = "/dashboard";

/// Where a signed-out user is sent.
pub const PLAIN_HOME_PATH: &'static str = "/";

/// The user named by the (unsigned) session cookie.
pub struct LoggedInUser(pub String);

/// The fields of the login form.
pub struct LoginForm {
    pub username: String,
    pub password: String,
}

/// The fields of the signup form.
pub struct SignupForm {
    pub username: String,
    pub password: String,
}

/// An answer: a `303 See Other` redirect that sets a cookie, or a page.
pub enum PlainReply {
    Redirect { location: String, set_cookie: String },
    Page(String),
}

/// The text of a signed 64-bit number in decimal, as `Display` writes it.
pub open spec fn decimal_text(n: int) -> Seq<char>
    decreases (if n < 0 { -n + 1 } else { n }),
{
    if n < 0 {
        seq!['-'] + decimal_text(-n)
    } else if n < 10 {
        seq![(n + '0' as int) as char]
    } else {
        decimal_text(n / 10).push(((n % 10) + '0' as int) as char)
    }
}

/// The `Set-Cookie` header text that the `cookie` crate writes for `c`:
/// `name=value`, then `; HttpOnly` when set, the path, and the max age.
pub open spec fn set_cookie_text(c: CookieView) -> Seq<char> {
    c.name + seq!['='] + c.value + (if c.http_only {
        "; HttpOnly"@
    } else {
        Seq::empty()
    }) + "; Path="@ + c.path + match c.max_age_seconds {
        Some(n) => "; Max-Age="@ + decimal_text(n as int),
        None => Seq::empty(),
    }
}

/// `Cookie::to_string` of the `cookie` crate (re-exported by `axum_extra`)
/// for a cookie built from `c`.
/// Trusted: the text is `set_cookie_text(c@)`, which is what its `Display`
/// writes for a cookie with only these attributes (no encoding of the value).
#[verifier::external_body]
fn set_cookie_header(c: &SessionCookie) -> (t: String)
    ensures
        t@ == set_cookie_text(c@),
{
    let mut cookie = axum_extra::extract::cookie::Cookie::build((c.name.clone(), c.value.clone()))
        .http_only(c.http_only)
        .path(c.path.clone())
        .build();
    cookie.set_max_age(c.max_age_seconds.map(time::Duration::seconds));
    cookie.to_string()
}

/// The plain page frame around `content`.
pub open spec fn plain_layout_html(title: Seq<char>, content: Seq<char>, name: Option<Seq<char>>) -> Seq<
    char,
> {
    PLAIN_PAGE_START@ + escape_html(title) + PLAIN_HEAD_END@ + match name {
        Some(n) => PLAIN_GREETING_START@ + escape_html(n) + PLAIN_GREETING_END@,
        None => PLAIN_GUEST_LINKS@,
    } + PLAIN_HEADER_END@ + content + PLAIN_PAGE_END@
}

/// Wraps `content` in the plain page frame.
fn plain_layout(title: &str, content: &str, username: Option<&str>) -> (page: String)
    ensures
        page@ == plain_layout_html(
            title@,
            content@,
            match username {
                Some(n) => Some(n@),
                None => None,
            },
        ),
{
    let mut page = String::new();
    page.append(PLAIN_PAGE_START);
    push_escaped(&mut page, title);
    page.append(PLAIN_HEAD_END);
    match username {
        Some(name) => {
            page.append(PLAIN_GREETING_START);
            push_escaped(&mut page, name);
            page.append(PLAIN_GREETING_END);
        },
        None => {
            page.append(PLAIN_GUEST_LINKS);
        },
    }
    page.append(PLAIN_HEADER_END);
    page.append(content);
    page.append(PLAIN_PAGE_END);
    proof {
        assert(page@ =~= plain_layout_html(
            title@,
            content@,
            match username {
                Some(n) => Some(n@),
                None => None,
            },
        ));
    }
    page
}

impl LoggedInUser {
    /// The user for a request whose session cookie holds `value`; without
    /// that cookie the request is refused with `401 Unauthorized`.
    pub fn from_session_cookie(value: Option<String>) -> (r: Result<LoggedInUser, u16>)
        ensures
            match value {
                Some(v) => r matches Ok(u) && u.0@ == v@,
                None => r == Err::<LoggedInUser, u16>(crate::error::STATUS_UNAUTHORIZED),
            },
    {
        match value {
            Some(v) => Ok(LoggedInUser(v)),
            None => Err(crate::error::STATUS_UNAUTHORIZED),
        }
    }

    /// The user, if the request carries a session cookie.
    pub fn from_optional_session_cookie(value: Option<String>) -> (r: Option<LoggedInUser>)
        ensures
            match value {
                Some(v) => r matches Some(u) && u.0@ == v@,
                None => r is None,
            },
    {
        match value {
            Some(v) => Some(LoggedInUser(v)),
            None => None,
        }
    }
}

impl LoginForm {
    /// The form as submitted.
    pub fn new(username: String, password: String) -> (f: LoginForm)
        ensures
            f.username == username,
            f.password == password,
    {
        LoginForm { username, password }
    }
}

impl SignupForm {
    /// The form as submitted.
    pub fn new(username: String, password: String) -> (f: SignupForm)
        ensures
            f.username == username,
            f.password == password,
    {
        SignupForm { username, password }
    }
}

/// The home page, greeting the signed-in user if there is one.
pub fn hello(user: Option<&LoggedInUser>) -> (page: String)
    ensures
        page@ == plain_layout_html(
            PLAIN_HOME_TITLE@,
            PLAIN_HOME_CONTENT@,
            match user {
                Some(u) => Some(u.0@),
                None => None,
            },
        ),
{
    let name = match user {
        Some(u) => Some(u.0.as_str()),
        None => None,
    };
    plain_layout(PLAIN_HOME_TITLE, PLAIN_HOME_CONTENT, name)
}

/// The dashboard content that welcomes `name`.
pub open spec fn welcome_html(name: Seq<char>) -> Seq<char> {
    WELCOME_START@ + escape_html(name) + WELCOME_END@
}

/// The dashboard of `user`: a welcome.
pub fn dashboard(user: &LoggedInUser) -> (page: String)
    ensures
        page@ == plain_layout_html(PLAIN_DASHBOARD_TITLE@, welcome_html(user.0@), Some(user.0@)),
{
    let mut content = String::new();
    content.append(WELCOME_START);
    push_escaped(&mut content, user.0.as_str());
    content.append(WELCOME_END);
    proof {
        assert(content@ =~= welcome_html(user.0@));
    }
    plain_layout(PLAIN_DASHBOARD_TITLE, content.as_str(), Some(user.0.as_str()))
}

/// The clock fragment at the current local time.
pub fn time() -> (fragment: String)
    ensures
        exists|t: Seq<char>|
            crate::pages::is_clock_text(t) && fragment@ == crate::pages::clock_html(t),
{
    crate::pages::time()
}

/// The login page.
pub fn login() -> (page: String)
    ensures
        page@ == plain_layout_html(PLAIN_LOGIN_TITLE@, PLAIN_LOGIN_FORM@, None),
{
    plain_layout(PLAIN_LOGIN_TITLE, PLAIN_LOGIN_FORM, None)
}

/// The signup form, without a page frame.
pub fn signup() -> (form: String)
    ensures
        form@ == PLAIN_SIGNUP_FORM@,
{
    PLAIN_SIGNUP_FORM.to_string()
}

/// A character that may stand in an HTTP header value, as
/// `http::HeaderValue::from_str` checks it byte by byte: no control
/// character but the tab, and no DEL (the bytes of other characters are all
/// at least `0x80`).
pub open spec fn is_header_char(c: char) -> bool {
    (c as u32 >= 0x20 && c as u32 != 0x7f) || c == '\t'
}

/// Text that can be an HTTP header value.
pub open spec fn is_header_text(s: Seq<char>) -> bool {
    forall|i: int| 0 <= i < s.len() ==> is_header_char(#[trigger] s[i])
}

/// Whether `text` can be an HTTP header value.
pub fn is_header_value(text: &str) -> (b: bool)
    ensures
        b == is_header_text(text@),
{
    let v = crate::text::chars_of(text);
    let mut i: usize = 0;
    while i < v.len()
        invariant
            v@ == text@,
            i <= v.len(),
            forall|k: int| 0 <= k < i ==> is_header_char(#[trigger] v@[k]),
        decreases v.len() - i,
    {
        let c = v[i];
        let code = c as u32;
        if !((code >= 0x20 && code != 0x7f) || c == '\t') {
            return false;
        }
        i = i + 1;
    }
    true
}

/// Header text joined with header text is header text, and only then.
proof fn lemma_header_concat(a: Seq<char>, b: Seq<char>)
    ensures
        is_header_text(a + b) <==> is_header_text(a) && is_header_text(b),
{
    if is_header_text(a + b) {
        assert forall|i: int| 0 <= i < a.len() implies is_header_char(#[trigger] a[i]) by {
            assert((a + b)[i] == a[i]);
        }
        assert forall|i: int| 0 <= i < b.len() implies is_header_char(#[trigger] b[i]) by {
            assert((a + b)[a.len() + i] == b[i]);
        }
    }
    if is_header_text(a) && is_header_text(b) {
        assert forall|i: int| 0 <= i < (a + b).len() implies is_header_char(#[trigger] (a + b)[i]) by {
            if i < a.len() {
                assert((a + b)[i] == a[i]);
            } else {
                assert((a + b)[i] == b[i - a.len()]);
            }
        }
    }
}

/// The login cookie's header text is valid exactly when the name is.
proof fn lemma_login_cookie_header(username: Seq<char>)
    ensures
        is_header_text(set_cookie_text(crate::cookies::login_cookie_view(username)))
            <==> is_header_text(username),
{
    reveal_strlit("username");
    reveal_strlit("; HttpOnly");
    reveal_strlit("; Path=");
    reveal_strlit("/");
    let c = crate::cookies::login_cookie_view(username);
    let head = c.name + seq!['='];
    let tail = "; HttpOnly"@ + "; Path="@ + c.path;
    assert(is_header_text(head));
    assert(is_header_text("; HttpOnly"@));
    assert(is_header_text("; Path="@));
    assert(is_header_text(c.path));
    lemma_header_concat("; HttpOnly"@, "; Path="@);
    lemma_header_concat("; HttpOnly"@ + "; Path="@, c.path);
    lemma_header_concat(head, username);
    lemma_header_concat(head + username, tail);
    assert(set_cookie_text(c) =~= (head + username) + tail);
}

/// The logout cookie's header text is valid.
proof fn lemma_logout_cookie_header()
    ensures
        is_header_text(set_cookie_text(crate::cookies::logout_cookie_view())),
{
    reveal_strlit("username");
    reveal_strlit("; Path=");
    reveal_strlit("/");
    reveal_strlit("; Max-Age=");
    let c = crate::cookies::logout_cookie_view();
    assert(decimal_text(0) =~= seq!['0']);
    let t = c.name + seq!['='] + c.value + Seq::<char>::empty() + "; Path="@ + c.path + (
    "; Max-Age="@ + decimal_text(0));
    assert(set_cookie_text(c) =~= t);
    assert(is_header_text(t));
}

/// A redirect to `uri` that sets `cookie`; the cookie's text must be able to
/// stand in a `Set-Cookie` header.
pub fn redirect_with_cookie(uri: &str, cookie: &SessionCookie) -> (reply: PlainReply)
    requires
        is_header_text(set_cookie_text(cookie@)),
    ensures
        reply matches PlainReply::Redirect { location, set_cookie } && location@ == uri@
            && set_cookie@ == set_cookie_text(cookie@),
{
    PlainReply::Redirect { location: uri.to_string(), set_cookie: set_cookie_header(cookie) }
}

/// `reply` signs `username` in and redirects to the dashboard.
pub open spec fn is_plain_login_reply(reply: PlainReply, username: Seq<char>) -> bool {
    reply matches PlainReply::Redirect { location, set_cookie } && location@ == PLAIN_DASHBOARD_PATH@
        && set_cookie@ == set_cookie_text(crate::cookies::login_cookie_view(username))
}

/// `reply` is the page that shows `content` under `title` to a guest.
pub open spec fn is_guest_page(reply: PlainReply, title: Seq<char>, content: Seq<char>) -> bool {
    reply matches PlainReply::Page(p) && p@ == plain_layout_html(title, content, None)
}

/// The answer to a login once the password has been checked: a match signs
/// the user in, a mismatch gets a page saying so, a failed check is a
/// `500 Internal Server Error`. A name that cannot stand in the `Set-Cookie`
/// header is answered with a `500` in place of the redirect.
pub fn decide_login_post(username: &str, checked: Option<bool>) -> (r: Result<PlainReply, u16>)
    ensures
        match checked {
            Some(true) => if is_header_text(username@) {
                r matches Ok(reply) && is_plain_login_reply(reply, username@)
            } else {
                r == Err::<PlainReply, u16>(STATUS_INTERNAL_SERVER_ERROR)
            },
            Some(false) => r matches Ok(reply) && is_guest_page(
                reply,
                PLAIN_LOGIN_TITLE@,
                LOGIN_FAILED_CONTENT@,
            ),
            None => r == Err::<PlainReply, u16>(STATUS_INTERNAL_SERVER_ERROR),
        },
{
    match checked {
        Some(true) => sign_in_redirect(username),
        Some(false) => Ok(
            PlainReply::Page(plain_layout(PLAIN_LOGIN_TITLE, LOGIN_FAILED_CONTENT, None)),
        ),
        None => Err(STATUS_INTERNAL_SERVER_ERROR),
    }
}

/// The redirect that signs `username` in, or a `500` when the name cannot
/// stand in the `Set-Cookie` header.
fn sign_in_redirect(username: &str) -> (r: Result<PlainReply, u16>)
    ensures
        if is_header_text(username@) {
            r matches Ok(reply) && is_plain_login_reply(reply, username@)
        } else {
            r == Err::<PlainReply, u16>(STATUS_INTERNAL_SERVER_ERROR)
        },
{
    proof {
        lemma_login_cookie_header(username@);
    }
    if is_header_value(username) {
        Ok(redirect_with_cookie(PLAIN_DASHBOARD_PATH, &login_cookie(username)))
    } else {
        Err(STATUS_INTERNAL_SERVER_ERROR)
    }
}

/// How a login with `password` ends here, given the stored hash of the
/// named user (`None` when looking it up failed, a missing user included).
pub open spec fn plain_login_verdict(password: Seq<char>, stored: Option<Seq<char>>) -> LoginVerdict {
    match stored {
        None => LoginVerdict::Failed,
        Some(h) => match bcrypt_verify_result(password, h) {
            Some(true) => LoginVerdict::Accepted,
            Some(false) => LoginVerdict::Refused,
            None => LoginVerdict::Failed,
        },
    }
}

/// The answer to a login, given the stored password hash of the named user
/// (`None` when looking it up failed, a missing user included): accepted
/// logins redirect with the session cookie (a `500` where the name cannot
/// stand in the header), refused ones get a page, failures are a `500`.
pub fn login_post(form: &LoginForm, stored_hash: Option<String>) -> (r: Result<PlainReply, u16>)
    ensures
        match plain_login_verdict(
            form.password@,
            match stored_hash {
                Some(h) => Some(h@),
                None => None,
            },
        ) {
            LoginVerdict::Accepted => if is_header_text(form.username@) {
                r matches Ok(reply) && is_plain_login_reply(reply, form.username@)
            } else {
                r == Err::<PlainReply, u16>(STATUS_INTERNAL_SERVER_ERROR)
            },
            LoginVerdict::Refused => r matches Ok(reply) && is_guest_page(
                reply,
                PLAIN_LOGIN_TITLE@,
                LOGIN_FAILED_CONTENT@,
            ),
            LoginVerdict::Failed => r == Err::<PlainReply, u16>(STATUS_INTERNAL_SERVER_ERROR),
        },
{
    match stored_hash {
        None => Err(STATUS_INTERNAL_SERVER_ERROR),
        Some(hash) => {
            let checked = match verify_password(form.password.as_str(), hash.as_str()) {
                Ok(b) => Some(b),
                Err(_) => None,
            };
            decide_login_post(form.username.as_str(), checked)
        },
    }
}

/// The answer to a logout: a redirect home that empties the session cookie.
pub fn logout_post() -> (reply: PlainReply)
    ensures
        reply matches PlainReply::Redirect { location, set_cookie } && location@ == PLAIN_HOME_PATH@
            && set_cookie@ == set_cookie_text(crate::cookies::logout_cookie_view()),
{
    proof {
        lemma_logout_cookie_header();
    }
    redirect_with_cookie(PLAIN_HOME_PATH, &logout_cookie())
}

/// The hash to store for a signup; the form is not checked. A failure to
/// hash is a `500 Internal Server Error`.
pub fn signup_hash(form: &SignupForm) -> (r: Result<String, u16>)
    ensures
        match r {
            Ok(h) => bcrypt_verify_result(form.password@, h@) == Some(true)
                && is_default_cost_hash(h@),
            Err(code) => code == STATUS_INTERNAL_SERVER_ERROR,
        },
{
    match hash_password(form.password.as_str()) {
        Ok(h) => Ok(h),
        Err(_) => Err(STATUS_INTERNAL_SERVER_ERROR),
    }
}

/// The answer once the user has been stored, given the database error's
/// message if the insert failed: success signs the user in, a taken name
/// gets a page saying so, any other failure is a `500`. A name that cannot
/// stand in the `Set-Cookie` header is answered with a `500` in place of the
/// redirect.
pub fn signup_post(username: &str, db_error: Option<String>) -> (r: Result<PlainReply, u16>)
    ensures
        match db_error {
            None => if is_header_text(username@) {
                r matches Ok(reply) && is_plain_login_reply(reply, username@)
            } else {
                r == Err::<PlainReply, u16>(STATUS_INTERNAL_SERVER_ERROR)
            },
            Some(msg) => if contains_seq(msg@, UNIQUE_VIOLATION@) {
                r matches Ok(reply) && is_guest_page(
                    reply,
                    SIGNUP_FAILED_TITLE@,
                    SIGNUP_FAILED_CONTENT@,
                )
            } else {
                r == Err::<PlainReply, u16>(STATUS_INTERNAL_SERVER_ERROR)
            },
        },
{
    match db_error {
        None => sign_in_redirect(username),
        Some(msg) => {
            if contains(msg.as_str(), UNIQUE_VIOLATION) {
                Ok(
                    PlainReply::Page(
                        plain_layout(SIGNUP_FAILED_TITLE, SIGNUP_FAILED_CONTENT, None),
                    ),
                )
            } else {
                Err(STATUS_INTERNAL_SERVER_ERROR)
            }
        },
    }
}

/// A password whose hash was stored at signup is accepted here too.
pub proof fn plain_signed_up_password_is_accepted(password: Seq<char>, hash: Seq<char>)
    requires
        bcrypt_verify_result(password, hash) == Some(true),
    ensures
        plain_login_verdict(password, Some(hash)) == LoginVerdict::Accepted,
{
}

} // verus!
