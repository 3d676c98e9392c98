//! The HTML page frame and the error box.

use vstd::prelude::*;

use crate::cookies::LoggedInUser;
use crate::text::{escape_html, push_escaped};

verus! {

/// Markup from the document start to the opening of the title text.
pub const PAGE_START: &'static str = "<html><head><title>";

/// Markup from the end of the title to the opening of the page header.
pub const PAGE_HEAD_END: &'static str = "</title><script src=\"/static/htmx.min.js\"></script><script>document.addEventListener('htmx:beforeSwap', function(e) { if(e.detail.xhr.status >= 400) e.detail.shouldSwap = true; });</script><link rel=\"stylesheet\" href=\"/static/style.css\"></link></head><body><header>";

/// Markup that closes the page header.
pub const HEADER_END: &'static str = "</header>";

/// Markup that closes the document.
pub const PAGE_END: &'static str = "</body></html>";

/// Header markup before the signed-in user's name.
pub const GREETING_START: &'static str = "<span>Hello ";

/// Header markup after the signed-in user's name: the logout form.
pub const GREETING_END: &'static str = "</span><form action=\"/logout\" method=\"post\"><button type=\"submit\" class=\"btn btn-ghost\">Logout</button></form>";

/// Header markup for a visitor who is not signed in.
pub const GUEST_LINKS: &'static str = "<a href=\"/login\" class=\"btn\">Login</a> <a href=\"/signup\" class=\"btn\">Sign up</a>";

/// Markup that opens the error box.
pub const ERROR_BOX_START: &'static str = "<div class=\"error\">";

/// Markup that closes the error box.
pub const ERROR_BOX_END: &'static str = "</div>";

/// The name shown in the header, if a user is signed in.
pub open spec fn shown_name(username: Option<&LoggedInUser>) -> Option<Seq<char>> {
    match username {
        Some(u) => Some(u.0@),
        None => None,
    }
}

/// The page header's contents.
pub open spec fn header_html(name: Option<Seq<char>>) -> Seq<char> {
    match name {
        Some(n) => GREETING_START@ + escape_html(n) + GREETING_END@,
        None => GUEST_LINKS@,
    }
}

/// A whole page: head with the escaped title, the header, then `content`
/// as given (it is markup already).
pub open spec fn layout_html(title: Seq<char>, content: Seq<char>, name: Option<Seq<char>>) -> Seq<
    char,
> {
    PAGE_START@ + escape_html(title) + PAGE_HEAD_END@ + header_html(name) + HEADER_END@ + content
        + PAGE_END@
}

/// The error box around the escaped `message`.
pub open spec fn error_box_html(message: Seq<char>) -> Seq<char> {
    ERROR_BOX_START@ + escape_html(message) + ERROR_BOX_END@
}

/// Wraps the markup `content` in the full page, with `title` and a header
/// that greets `username` (with a logout button) or offers login and signup.
pub fn layout(title: &str, content: &str, username: Option<&LoggedInUser>) -> (page: String)
    ensures
        page@ == layout_html(title@, content@, shown_name(username)),
{
    let mut page = String::new();
    page.append(PAGE_START);
    push_escaped(&mut page, title);
    page.append(PAGE_HEAD_END);
    match username {
        Some(user) => {
            page.append(GREETING_START);
            push_escaped(&mut page, user.0.as_str());
            page.append(GREETING_END);
        },
        None => {
            page.append(GUEST_LINKS);
        },
    }
    page.append(HEADER_END);
    page.append(content);
    page.append(PAGE_END);
    proof {
        assert(page@ =~= layout_html(title@, content@, shown_name(username)));
    }
    page
}

/// The markup that shows `message` as an error.
pub fn error_box(message: &str) -> (markup: String)
    ensures
        markup@ == error_box_html(message@),
{
    let mut markup = String::new();
    markup.append(ERROR_BOX_START);
    push_escaped(&mut markup, message);
    markup.append(ERROR_BOX_END);
    proof {
        assert(markup@ =~= error_box_html(message@));
    }
    markup
}

} // verus!
