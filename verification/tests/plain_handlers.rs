use rust_web_template::handlers::is_header_value;
use rust_web_template::cookies::{login_cookie, logout_cookie};
use rust_web_template::handlers::{
    dashboard, decide_login_post, hello, login, login_post, logout_post, redirect_with_cookie,
    signup, signup_hash, signup_post, time, LoggedInUser, LoginForm, PlainReply, SignupForm,
};

const GUEST_HEADER: &str = "<header><a href=\"/login\">Login</a> <a href=\"/signup\">Sign up</a></header>";

fn redirect(reply: PlainReply) -> (String, String) {
    match reply {
        PlainReply::Redirect { location, set_cookie } => (location, set_cookie),
        PlainReply::Page(_) => panic!("expected a redirect"),
    }
}

fn page(reply: PlainReply) -> String {
    match reply {
        PlainReply::Page(p) => p,
        PlainReply::Redirect { .. } => panic!("expected a page"),
    }
}

#[test]
fn set_cookie_headers() {
    let (loc, header) = redirect(redirect_with_cookie("/dashboard", &login_cookie("ann")));
    assert_eq!(loc, "/dashboard");
    assert_eq!(header, "username=ann; HttpOnly; Path=/");
    let (loc, header) = redirect(redirect_with_cookie("/", &logout_cookie()));
    assert_eq!(loc, "/");
    assert_eq!(header, "username=; Path=/; Max-Age=0");
}

#[test]
fn logout_redirects_home() {
    let (loc, header) = redirect(logout_post());
    assert_eq!(loc, "/");
    assert_eq!(header, "username=; Path=/; Max-Age=0");
}

#[test]
fn plain_pages() {
    assert_eq!(
        hello(None),
        format!("<html><head><title>Home</title><script src=\"/static/htmx.min.js\"></script></head><body>{GUEST_HEADER}<h1>Hello</h1><div id=\"clock\" hx-get=\"/time\" hx-trigger=\"every 1s\">Loading...</div></body></html>")
    );
    let user = LoggedInUser("a&b".to_string());
    assert_eq!(
        dashboard(&user),
        "<html><head><title>Dashboard</title><script src=\"/static/htmx.min.js\"></script></head><body><header><span>Hello a&amp;b</span><form action=\"/logout\" method=\"post\"><button type=\"submit\">Logout</button></form></header><h1>Welcome a&amp;b</h1></body></html>"
    );
    assert!(login().contains("<form action=\"/login\" method=\"post\">"));
    assert_eq!(
        signup(),
        "<form action=\"/signup\" method=\"post\"><label>Username<input type=\"text\" name=\"username\"></label><label>Password<input type=\"password\" name=\"password\"></label><button type=\"submit\">Sign up</button></form>"
    );
    assert!(time().starts_with("<p>Time: "));
}

#[test]
fn plain_login() {
    let hash = match signup_hash(&SignupForm::new("ann".to_string(), "pw".to_string())) {
        Ok(h) => h,
        Err(_) => panic!("hashing failed"),
    };
    let ok = LoginForm::new("ann".to_string(), "pw".to_string());
    let (loc, header) = redirect(login_post(&ok, Some(hash.clone())).ok().unwrap());
    assert_eq!(loc, "/dashboard");
    assert_eq!(header, "username=ann; HttpOnly; Path=/");

    let bad = LoginForm::new("ann".to_string(), "px".to_string());
    let p = page(login_post(&bad, Some(hash)).ok().unwrap());
    assert!(p.contains(GUEST_HEADER));
    assert!(p.ends_with("<p>Invalid username or password</p><a href=\"/login\">Try again</a></body></html>"));

    assert!(matches!(login_post(&ok, None), Err(500)));
    assert!(matches!(login_post(&ok, Some("$2b$xx".to_string())), Err(500)));
    assert!(matches!(decide_login_post("ann", None), Err(500)));
}

#[test]
fn plain_signup() {
    let (loc, header) = redirect(signup_post("ann", None).ok().unwrap());
    assert_eq!(loc, "/dashboard");
    assert_eq!(header, "username=ann; HttpOnly; Path=/");
    let p = page(signup_post("ann", Some("UNIQUE constraint failed: users.username".to_string())).ok().unwrap());
    assert!(p.starts_with("<html><head><title>Signup</title>"));
    assert!(p.ends_with("<p>Username already taken</p><a href=\"/signup\">Try again</a></body></html>"));
    assert!(matches!(signup_post("ann", Some("disk I/O error".to_string())), Err(500)));
}

#[test]
fn plain_user_from_cookie() {
    assert!(matches!(LoggedInUser::from_session_cookie(None), Err(401)));
    assert!(LoggedInUser::from_optional_session_cookie(Some("x".to_string())).is_some());
}

#[test]
fn name_that_cannot_be_a_header_is_refused() {
    assert!(is_header_value("ann\tbo é"));
    assert!(!is_header_value("ann\nbo"));
    assert!(!is_header_value("a\u{7f}"));
    assert!(matches!(signup_post("ann\r\nX: y", None), Err(500)));
    assert!(matches!(decide_login_post("ann\n", Some(true)), Err(500)));
    assert!(matches!(decide_login_post("ann\n", Some(false)), Ok(PlainReply::Page(_))));
}

#[test]
fn plain_signup_hash_format() {
    let h = signup_hash(&SignupForm::new("a".to_string(), "secret".to_string())).ok().unwrap();
    assert_eq!(h.len(), 60);
    assert!(h.starts_with("$2b$12$"));
}
