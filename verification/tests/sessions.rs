use rust_web_template::auth::{
    check_signup, decide_login, login_page, login_reply, logout_reply, prepare_signup,
    signup_page, signup_reply, LoginForm, Navigation, SignupForm,
};
use rust_web_template::cookies::{login_cookie, logout_cookie, LoggedInUser};
use rust_web_template::error::AppError;
use rust_web_template::password::{hash_password, verify_password};
use rust_web_template::user::create_user_outcome;

fn signup(name: &str, password: &str) -> SignupForm {
    SignupForm::new(name.to_string(), password.to_string())
}

fn bad_request_message(r: Result<String, AppError>) -> String {
    match r {
        Err(AppError::BadRequest(m)) => m,
        _ => panic!("expected a bad request"),
    }
}

#[test]
fn blank_username_is_refused() {
    assert_eq!(bad_request_message(check_signup(&signup("", "password123"))), "Username is required");
    assert_eq!(bad_request_message(check_signup(&signup(" \t ", "password123"))), "Username is required");
}

#[test]
fn short_password_is_refused() {
    assert_eq!(
        bad_request_message(check_signup(&signup("ann", "1234567"))),
        "Password must be at least 8 characters"
    );
    // The blank name is reported first.
    assert_eq!(bad_request_message(check_signup(&signup("", "1"))), "Username is required");
}

#[test]
fn password_length_counts_bytes() {
    // Four two-byte characters are eight bytes.
    assert_eq!(check_signup(&signup("ann", "éééé")).ok(), Some("ann".to_string()));
    assert!(check_signup(&signup("ann", "ééé")).is_err());
}

#[test]
fn stored_name_is_trimmed() {
    assert_eq!(check_signup(&signup("  ann  ", "12345678")).ok(), Some("ann".to_string()));
}

#[test]
fn signup_then_login() {
    let form = signup(" ann ", "correct horse");
    let new_user = match prepare_signup(&form) {
        Ok(u) => u,
        Err(_) => panic!("signup failed"),
    };
    assert_eq!(new_user.username, "ann");
    assert_ne!(new_user.password_hash, "correct horse");
    assert!(new_user.password_hash.starts_with("$2b$12$"));

    let reply = match signup_reply(&form.username, Ok(())) {
        Ok(r) => r,
        Err(_) => panic!("signup reply failed"),
    };
    assert_eq!(reply.cookie.value, " ann ");
    assert_eq!(reply.location, "/dashboard");
    assert_eq!(reply.navigation, Navigation::HxRedirect);

    let login = LoginForm::new("ann".to_string(), "correct horse".to_string());
    match login_reply(&login, Some(new_user.password_hash.clone())) {
        Ok(r) => {
            assert_eq!(r.cookie.name, "username");
            assert_eq!(r.cookie.value, "ann");
            assert!(r.cookie.http_only);
            assert_eq!(r.cookie.path, "/");
            assert_eq!(r.cookie.max_age_seconds, None);
            assert_eq!(r.location, "/dashboard");
            assert_eq!(r.navigation, Navigation::HxRedirect);
        }
        Err(_) => panic!("login failed"),
    }

    let wrong = LoginForm::new("ann".to_string(), "wrong horse".to_string());
    match login_reply(&wrong, Some(new_user.password_hash)) {
        Err(AppError::Unauthorized(m)) => assert_eq!(m, "Invalid username or password"),
        _ => panic!("wrong password accepted"),
    }
}

#[test]
fn unknown_user_is_refused_like_a_wrong_password() {
    let login = LoginForm::new("nobody".to_string(), "whatever1".to_string());
    match login_reply(&login, None) {
        Err(AppError::Unauthorized(m)) => assert_eq!(m, "Invalid username or password"),
        _ => panic!("unknown user accepted"),
    }
}

#[test]
fn unreadable_stored_hash_is_internal() {
    let login = LoginForm::new("ann".to_string(), "whatever1".to_string());
    assert!(matches!(login_reply(&login, Some("not a hash".to_string())), Err(AppError::Internal(_))));
    assert!(matches!(verify_password("x", ""), Err(AppError::Internal(_))));
}

#[test]
fn password_hash_checks() {
    let h = match hash_password("hunter22") {
        Ok(h) => h,
        Err(_) => panic!("hashing failed"),
    };
    assert_eq!(h.len(), 60);
    assert!(matches!(verify_password("hunter22", &h), Ok(true)));
    assert!(matches!(verify_password("hunter23", &h), Ok(false)));
}

#[test]
fn decide_login_outcomes() {
    assert!(matches!(decide_login("a", Ok(true)), Ok(_)));
    assert!(matches!(decide_login("a", Ok(false)), Err(AppError::Unauthorized(_))));
    assert!(matches!(decide_login("a", Err(AppError::Internal("x".to_string()))), Err(AppError::Internal(_))));
}

#[test]
fn signup_reply_passes_store_errors_on() {
    assert!(matches!(signup_reply("ann", Err(AppError::DuplicateUser)), Err(AppError::DuplicateUser)));
}

#[test]
fn insert_errors() {
    assert!(create_user_outcome(None).is_ok());
    assert!(matches!(
        create_user_outcome(Some("error returned from database: (code: 2067) UNIQUE constraint failed: users.username".to_string())),
        Err(AppError::DuplicateUser)
    ));
    match create_user_outcome(Some("database is locked".to_string())) {
        Err(AppError::Internal(m)) => assert_eq!(m, "database is locked"),
        _ => panic!("expected an internal error"),
    }
}

#[test]
fn logout_clears_the_session_cookie() {
    let login = login_cookie("ann");
    let out = logout_cookie();
    assert_eq!(out.name, login.name);
    assert_eq!(out.path, login.path);
    assert_eq!(out.value, "");
    assert_eq!(out.max_age_seconds, Some(0));
    let reply = logout_reply();
    assert_eq!(reply.location, "/");
    assert_eq!(reply.navigation, Navigation::SeeOther);
    assert_eq!(reply.cookie.value, "");
}

#[test]
fn user_from_cookie() {
    match LoggedInUser::from_session_cookie(Some("ann".to_string())) {
        Ok(u) => assert_eq!(u.0, "ann"),
        Err(_) => panic!("cookie ignored"),
    }
    assert!(matches!(LoggedInUser::from_session_cookie(None), Err(401)));
    assert!(LoggedInUser::from_optional_session_cookie(None).is_none());
    assert!(LoggedInUser::from_optional_session_cookie(Some("b".to_string())).is_some());
}

#[test]
fn form_pages() {
    let login = login_page();
    assert!(login.starts_with("<html><head><title>Login</title>"));
    assert!(login.contains(
        "</header><form action=\"/login\" hx-post=\"/login\" hx-target=\"#error-box\" method=\"post\"><label>Username<input type=\"text\" name=\"username\"></label><label>Password<input type=\"password\" name=\"password\"></label><button type=\"submit\">Login</button></form><div id=\"error-box\"></div></body></html>"
    ));
    let signup = signup_page();
    assert!(signup.starts_with("<html><head><title>Sign up</title>"));
    assert!(signup.contains("<button type=\"submit\">Sign up</button>"));
}

#[test]
fn bcrypt_failure_is_internal_with_its_description() {
    match AppError::from_bcrypt(bcrypt::BcryptError::CostNotAllowed(3)) {
        AppError::Internal(m) => assert_eq!(m, "Cost needs to be between 4 and 31, got 3"),
        _ => panic!("expected an internal error"),
    }
}
