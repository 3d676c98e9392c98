use rust_web_template::error::Body;
use rust_web_template::pages::not_found_response;
use rust_web_template::cookies::LoggedInUser;
use rust_web_template::layout::{error_box, layout};
use rust_web_template::pages::{
    clock_fragment, dashboard, dashboard_page, greeting_for_hour, hello, hour_from_text,
    not_found, parse_u32, time,
};
use rust_web_template::text::{contains, is_whitespace, push_escaped, trimmed};

const HEAD: &str = "<html><head><title>";
const HEAD_END: &str = "</title><script src=\"/static/htmx.min.js\"></script><script>document.addEventListener('htmx:beforeSwap', function(e) { if(e.detail.xhr.status >= 400) e.detail.shouldSwap = true; });</script><link rel=\"stylesheet\" href=\"/static/style.css\"></link></head><body><header>";
const GUEST: &str = "<a href=\"/login\" class=\"btn\">Login</a> <a href=\"/signup\" class=\"btn\">Sign up</a>";

#[test]
fn escaping_replaces_the_four_markup_characters() {
    let mut out = String::from("x");
    push_escaped(&mut out, "<script>a & \"b\"</script> it's");
    assert_eq!(out, "x&lt;script&gt;a &amp; &quot;b&quot;&lt;/script&gt; it's");
}

#[test]
fn escaping_keeps_other_text() {
    let mut out = String::new();
    push_escaped(&mut out, "héllo wörld 👋");
    assert_eq!(out, "héllo wörld 👋");
}

#[test]
fn error_box_wraps_message() {
    assert_eq!(error_box("Bad & worse"), "<div class=\"error\">Bad &amp; worse</div>");
}

#[test]
fn layout_for_guest() {
    let page = layout("A<B", "<p>x</p>", None);
    let expected = format!("{HEAD}A&lt;B{HEAD_END}{GUEST}</header><p>x</p></body></html>");
    assert_eq!(page, expected);
}

#[test]
fn layout_for_signed_in_user() {
    let user = LoggedInUser("<al>".to_string());
    let page = layout("Home", "", Some(&user));
    let expected = format!(
        "{HEAD}Home{HEAD_END}<span>Hello &lt;al&gt;</span><form action=\"/logout\" method=\"post\"><button type=\"submit\" class=\"btn btn-ghost\">Logout</button></form></header></body></html>"
    );
    assert_eq!(page, expected);
}

#[test]
fn home_page() {
    let page = hello(None);
    assert!(page.starts_with("<html><head><title>Home</title>"));
    assert!(page.contains(GUEST));
    assert!(page.contains(
        "<h1>Hello</h1><div id=\"clock\" hx-get=\"/time\" hx-trigger=\"every 1s\">Loading...</div></body></html>"
    ));
}

#[test]
fn not_found_page() {
    let page = not_found();
    assert!(page.starts_with("<html><head><title>Not Found</title>"));
    assert!(page.ends_with(
        "</header><h1>404</h1><p>The page you're looking for doesn't exist.</p><a href=\"/\">Go home</a></body></html>"
    ));
}

#[test]
fn greeting_boundaries() {
    assert_eq!(greeting_for_hour(0), "Good morning");
    assert_eq!(greeting_for_hour(11), "Good morning");
    assert_eq!(greeting_for_hour(12), "Good afternoon");
    assert_eq!(greeting_for_hour(17), "Good afternoon");
    assert_eq!(greeting_for_hour(18), "Good evening");
    assert_eq!(greeting_for_hour(23), "Good evening");
}

#[test]
fn parse_u32_like_std() {
    for s in ["", "+", "-1", "0", "07", "+5", "12a", " 1", "4294967295", "4294967296", "99999999999"] {
        assert_eq!(parse_u32(s), s.parse::<u32>().ok(), "input {s:?}");
    }
}

#[test]
fn hour_text_falls_back_to_noon() {
    assert_eq!(hour_from_text("09"), 9);
    assert_eq!(hour_from_text("23"), 23);
    assert_eq!(hour_from_text("xx"), 12);
}

#[test]
fn dashboard_greets_by_hour() {
    let user = LoggedInUser("ann".to_string());
    let page = dashboard_page(&user, "08");
    assert!(page.starts_with("<html><head><title>Dashboard</title>"));
    assert!(page.contains("<span>Hello ann</span>"));
    assert!(page.contains(
        "</header><h2>Good morning, ann</h2><div class=\"cards\"><div class=\"card\"><h3>Your Account</h3><p>Manage your profile and settings</p></div><div class=\"card\"><h3>Activity</h3><p>View your recent activity</p></div></div></body></html>"
    ));
    assert!(dashboard_page(&user, "13").contains("<h2>Good afternoon, ann</h2>"));
    assert!(dashboard_page(&user, "20").contains("<h2>Good evening, ann</h2>"));
}

#[test]
fn dashboard_now_has_a_greeting() {
    let user = LoggedInUser("bo".to_string());
    let page = dashboard(&user);
    assert!(
        page.contains("<h2>Good morning, bo</h2>")
            || page.contains("<h2>Good afternoon, bo</h2>")
            || page.contains("<h2>Good evening, bo</h2>")
    );
}

#[test]
fn clock_fragments() {
    assert_eq!(clock_fragment("10:11:12"), "<p>Time: 10:11:12</p>");
    let now = time();
    assert!(now.starts_with("<p>Time: ") && now.ends_with("</p>"));
    let t = &now["<p>Time: ".len()..now.len() - "</p>".len()];
    assert_eq!(t.len(), 8);
    assert_eq!(&t[2..3], ":");
    assert_eq!(&t[5..6], ":");
}

#[test]
fn trimming() {
    assert_eq!(trimmed("  al ice \t\n"), "al ice");
    assert_eq!(trimmed("\u{3000}x\u{a0}"), "x");
    assert_eq!(trimmed(" \t "), "");
    assert_eq!(trimmed(""), "");
    for c in ['\t', '\n', ' ', '\u{85}', '\u{2028}', 'a', '_', '\u{200b}'] {
        assert_eq!(is_whitespace(c), c.is_whitespace(), "char {c:?}");
    }
}

#[test]
fn substring_search() {
    assert!(contains("UNIQUE constraint failed: users.username", "UNIQUE constraint"));
    assert!(contains("abc", ""));
    assert!(!contains("UNIQUE", "UNIQUE constraint"));
    assert!(!contains("unique constraint", "UNIQUE constraint"));
    assert!(contains("aab", "ab"));
}

#[test]
fn unknown_paths_get_404() {
    let r = not_found_response();
    assert_eq!(r.status(), 404);
    match r.body {
        Body::Html(p) => assert_eq!(p, not_found()),
        Body::Text(_) => panic!("the not-found answer is a page"),
    }
}
