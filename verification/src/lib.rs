//! Request handling logic of a small web application with signup, login,
//! logout, session cookies and server-rendered HTML pages.
//!
//! The library decides what each request gets; the server binary in `app/`
//! reads requests, talks to the database and writes the answers.

pub mod auth;
pub mod cookies;
pub mod error;
pub mod handlers;
pub mod layout;
pub mod pages;
pub mod password;
pub mod text;
pub mod user;
