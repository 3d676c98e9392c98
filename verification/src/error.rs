//! The application's error type and the HTTP answer each error gets.

use vstd::prelude::*;

use crate::layout::{error_box, error_box_html};

verus! {

/// HTTP status `400 Bad Request`.
pub const STATUS_BAD_REQUEST: u16 = 400;

/// HTTP status `401 Unauthorized`.
pub const STATUS_UNAUTHORIZED: u16 = 401;

/// HTTP status `404 Not Found`.
pub const STATUS_NOT_FOUND: u16 = 404;

/// HTTP status `409 Conflict`.
pub const STATUS_CONFLICT: u16 = 409;

/// HTTP status `500 Internal Server Error`.
pub const STATUS_INTERNAL_SERVER_ERROR: u16 = 500;

/// Plain-text body of every internal error answer; the cause is not shown.
pub const INTERNAL_ERROR_TEXT: &'static str = "Internal server error";

/// What a signup with an already registered name is told.
pub const DUPLICATE_USER_MESSAGE: &'static str = "Username already taken";

/// Everything a request can fail with.
pub enum AppError {
    /// A failure of the database or of password hashing; the text
    /// describes the cause for the log and is never sent to the client.
    Internal(String),
    /// The request was malformed; the text is shown to the user.
    BadRequest(String),
    /// The credentials were refused; the text is shown to the user.
    Unauthorized(String),
    /// The chosen user name is taken.
    DuplicateUser,
}

/// The body of an HTTP answer.
pub enum Body {
    /// `text/plain` contents.
    Text(String),
    /// `text/html` contents, already escaped markup.
    Html(String),
}

/// An HTTP answer: status code and body.
pub struct Response {
    pub status: u16,
    pub body: Body,
}

impl Response {
    /// The status code of the answer.
    pub fn status(&self) -> (s: u16)
        ensures
            s == self.status,
    {
        self.status
    }
}

/// The status code that answers `err`.
pub open spec fn status_of(err: AppError) -> u16 {
    match err {
        AppError::Internal(_) => STATUS_INTERNAL_SERVER_ERROR,
        AppError::BadRequest(_) => STATUS_BAD_REQUEST,
        AppError::Unauthorized(_) => STATUS_UNAUTHORIZED,
        AppError::DuplicateUser => STATUS_CONFLICT,
    }
}

impl AppError {
    /// The answer sent for this error: internal errors get a bare 500 with a
    /// fixed text; the others get their status and the message in an error box.
    pub fn into_response(self) -> (r: Response)
        ensures
            r.status == status_of(self),
            400 <= r.status < 600,
            r.status >= 500 <==> self is Internal,
            match self {
                AppError::Internal(_) => r.body matches Body::Text(t) && t@ == INTERNAL_ERROR_TEXT@,
                AppError::BadRequest(m) => r.body matches Body::Html(h) && h@ == error_box_html(m@),
                AppError::Unauthorized(m) => r.body matches Body::Html(h) && h@ == error_box_html(
                    m@,
                ),
                AppError::DuplicateUser => r.body matches Body::Html(h) && h@ == error_box_html(
                    DUPLICATE_USER_MESSAGE@,
                ),
            },
    {
        match self {
            AppError::Internal(_) => Response {
                status: STATUS_INTERNAL_SERVER_ERROR,
                body: Body::Text(INTERNAL_ERROR_TEXT.to_string()),
            },
            AppError::BadRequest(msg) => Response {
                status: STATUS_BAD_REQUEST,
                body: Body::Html(error_box(msg.as_str())),
            },
            AppError::Unauthorized(msg) => Response {
                status: STATUS_UNAUTHORIZED,
                body: Body::Html(error_box(msg.as_str())),
            },
            AppError::DuplicateUser => Response {
                status: STATUS_CONFLICT,
                body: Body::Html(error_box(DUPLICATE_USER_MESSAGE)),
            },
        }
    }
}

} // verus!
