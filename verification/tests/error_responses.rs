use axum::http::StatusCode;
use rust_web_template::error::{AppError, Body};

fn status_of(err: AppError) -> StatusCode {
    let response = err.into_response();
    StatusCode::from_u16(response.status()).unwrap()
}

#[test]
fn bad_request_status_code() {
    let err = AppError::BadRequest("test error".to_string());
    assert_eq!(status_of(err), StatusCode::BAD_REQUEST);
}

#[test]
fn unauthorized_status_code() {
    let err = AppError::Unauthorized("no access".to_string());
    assert_eq!(status_of(err), StatusCode::UNAUTHORIZED);
}

#[test]
fn duplicate_user_status_code() {
    let err = AppError::DuplicateUser;
    assert_eq!(status_of(err), StatusCode::CONFLICT);
}

#[test]
fn internal_error_hides_its_cause() {
    let response = AppError::Internal("disk full".to_string()).into_response();
    assert_eq!(response.status(), 500);
    match response.body {
        Body::Text(t) => assert_eq!(t, "Internal server error"),
        Body::Html(_) => panic!("internal errors answer in plain text"),
    }
}

#[test]
fn bad_request_shows_escaped_message() {
    let response = AppError::BadRequest("<b>no</b>".to_string()).into_response();
    assert_eq!(response.status(), 400);
    match response.body {
        Body::Html(h) => assert_eq!(h, "<div class=\"error\">&lt;b&gt;no&lt;/b&gt;</div>"),
        Body::Text(_) => panic!("user errors answer in HTML"),
    }
}

#[test]
fn duplicate_user_message() {
    let response = AppError::DuplicateUser.into_response();
    match response.body {
        Body::Html(h) => assert_eq!(h, "<div class=\"error\">Username already taken</div>"),
        Body::Text(_) => panic!("user errors answer in HTML"),
    }
}
