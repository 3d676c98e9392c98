//! The home, dashboard, clock and not-found pages.

use vstd::prelude::*;

use crate::cookies::LoggedInUser;
use crate::error::{Body, Response, STATUS_NOT_FOUND};
use crate::layout::{layout, layout_html, shown_name};
use crate::text::{chars_of, escape_html, plain_text_is_unchanged, push_escaped};

verus! {

/// Title of the home page.
pub const HOME_TITLE: &'static str = "Home";

/// The home page's content: a clock that htmx refreshes every second.
pub const HOME_CONTENT: &'static str = "<h1>Hello</h1><div id=\"clock\" hx-get=\"/time\" hx-trigger=\"every 1s\">Loading...</div>";

/// Title of the dashboard.
pub const DASHBOARD_TITLE: &'static str = "Dashboard";

/// Dashboard markup before the greeting.
pub const DASHBOARD_START: &'static str = "<h2>";

/// Between the greeting and the user's name.
pub const GREETING_SEPARATOR: &'static str = ", ";

/// Dashboard markup after the user's name: the two cards.
pub const DASHBOARD_END: &'static str = "</h2><div class=\"cards\"><div class=\"card\"><h3>Your Account</h3><p>Manage your profile and settings</p></div><div class=\"card\"><h3>Activity</h3><p>View your recent activity</p></div></div>";

/// Title of the page for unknown paths.
pub const NOT_FOUND_TITLE: &'static str = "Not Found";

/// Content of the page for unknown paths.
pub const NOT_FOUND_CONTENT: &'static str = "<h1>404</h1><p>The page you're looking for doesn't exist.</p><a href=\"/\">Go home</a>";

/// The clock fragment before the time.
pub const CLOCK_START: &'static str = "<p>Time: ";

/// The clock fragment after the time.
pub const CLOCK_END: &'static str = "</p>";

/// `chrono` format of the hour of the day, `00` to `23`.
pub const HOUR_FORMAT: &'static str = "%H";

/// `chrono` format of the clock shown on the home page.
pub const CLOCK_FORMAT: &'static str = "%H:%M:%S";

/// The hour assumed when the hour text cannot be read.
pub const DEFAULT_HOUR: u32 = 12;

/// Greeting before noon.
pub const MORNING: &'static str = "Good morning";

/// Greeting from noon to six.
pub const AFTERNOON: &'static str = "Good afternoon";

/// Greeting from six on.
pub const EVENING: &'static str = "Good evening";

/// An ASCII decimal digit.
pub open spec fn is_digit(c: char) -> bool {
    '0' <= c <= '9'
}

/// Every character of `s` is a decimal digit.
pub open spec fn all_digits(s: Seq<char>) -> bool {
    forall|i: int| 0 <= i < s.len() ==> is_digit(#[trigger] s[i])
}

/// The number that the decimal digits `s` write.
pub open spec fn digits_value(s: Seq<char>) -> int
    decreases s.len(),
{
    if s.len() == 0 {
        0
    } else {
        digits_value(s.drop_last()) * 10 + (s.last() as int - '0' as int)
    }
}

/// `s` without the `+` sign that may lead it.
pub open spec fn unsigned_part(s: Seq<char>) -> Seq<char> {
    if s.len() > 0 && s[0] == '+' {
        s.drop_first()
    } else {
        s
    }
}

/// What `s.parse::<u32>()` gives: an optional `+`, then one or more decimal
/// digits whose value fits in a `u32`; anything else fails.
pub open spec fn parse_u32_result(s: Seq<char>) -> Option<u32> {
    let d = unsigned_part(s);
    if d.len() > 0 && all_digits(d) && digits_value(d) <= u32::MAX {
        Some(digits_value(d) as u32)
    } else {
        None
    }
}

/// The text that `chrono` writes for `%H`: two digits, from `00` to `23`.
pub open spec fn is_hour_text(t: Seq<char>) -> bool {
    t.len() == 2 && all_digits(t) && digits_value(t) < 24
}

/// Two decimal digits whose value is below `bound`.
pub open spec fn is_two_digits_below(t: Seq<char>, bound: int) -> bool {
    t.len() == 2 && all_digits(t) && digits_value(t) < bound
}

/// The text that `chrono` writes for `%H:%M:%S`: hour `00`-`23`, minute
/// `00`-`59` and second `00`-`60` (a leap second), joined by colons.
pub open spec fn is_clock_text(t: Seq<char>) -> bool {
    &&& t.len() == 8
    &&& t[2] == ':' && t[5] == ':'
    &&& is_two_digits_below(t.subrange(0, 2), 24)
    &&& is_two_digits_below(t.subrange(3, 5), 60)
    &&& is_two_digits_below(t.subrange(6, 8), 61)
}

/// The hour that the dashboard reads from `t`, falling back to noon.
pub open spec fn hour_of_text(t: Seq<char>) -> u32 {
    match parse_u32_result(t) {
        Some(h) => h,
        None => DEFAULT_HOUR,
    }
}

/// The greeting for an hour of the day.
pub open spec fn greeting(hour: u32) -> Seq<char> {
    if hour <= 11 {
        MORNING@
    } else if hour <= 17 {
        AFTERNOON@
    } else {
        EVENING@
    }
}

/// The dashboard's content for the greeting `g` and the user `name`.
pub open spec fn dashboard_content(g: Seq<char>, name: Seq<char>) -> Seq<char> {
    DASHBOARD_START@ + escape_html(g) + GREETING_SEPARATOR@ + escape_html(name) + DASHBOARD_END@
}

/// The dashboard page of `name` at the hour given by the text `hour_text`.
pub open spec fn dashboard_html(name: Seq<char>, hour_text: Seq<char>) -> Seq<char> {
    layout_html(
        DASHBOARD_TITLE@,
        dashboard_content(greeting(hour_of_text(hour_text)), name),
        Some(name),
    )
}

/// The clock fragment showing `now`.
pub open spec fn clock_html(now: Seq<char>) -> Seq<char> {
    CLOCK_START@ + escape_html(now) + CLOCK_END@
}

/// `chrono::Local::now().format(fmt).to_string()`: the local time as text.
/// Only the two formats the pages use are admitted; `chrono` panics on some
/// others. Trusted: the text has the shape that `chrono`'s documentation
/// gives each format (two-digit, zero-padded fields within their ranges).
/// Which time it is depends on the clock and is not stated.
#[verifier::external_body]
fn local_time_text(fmt: &str) -> (t: String)
    requires
        fmt@ == HOUR_FORMAT@ || fmt@ == CLOCK_FORMAT@,
    ensures
        fmt@ == HOUR_FORMAT@ ==> is_hour_text(t@),
        fmt@ == CLOCK_FORMAT@ ==> is_clock_text(t@),
{
    chrono::Local::now().format(fmt).to_string()
}

/// Decimal digits keep or raise the value of any prefix of them.
proof fn lemma_prefix_value_le(s: Seq<char>, k: int)
    requires
        all_digits(s),
        0 <= k <= s.len(),
    ensures
        0 <= digits_value(s.subrange(0, k)) <= digits_value(s),
    decreases s.len(),
{
    if s.len() == k {
        assert(s.subrange(0, k) =~= s);
        lemma_value_nonneg(s);
    } else {
        assert(all_digits(s.drop_last()));
        lemma_prefix_value_le(s.drop_last(), k);
        assert(s.drop_last().subrange(0, k) =~= s.subrange(0, k));
        lemma_value_nonneg(s.drop_last());
    }
}

/// The value of digits is never negative.
proof fn lemma_value_nonneg(s: Seq<char>)
    requires
        all_digits(s),
    ensures
        digits_value(s) >= 0,
    decreases s.len(),
{
    if s.len() > 0 {
        assert(all_digits(s.drop_last()));
        lemma_value_nonneg(s.drop_last());
    }
}

/// `text.parse::<u32>().ok()`.
pub fn parse_u32(text: &str) -> (r: Option<u32>)
    ensures
        r == parse_u32_result(text@),
{
    let v = chars_of(text);
    let n = v.len();
    let mut i: usize = 0;
    if n > 0 && v[0] == '+' {
        i = 1;
    }
    let start = i;
    let ghost d = unsigned_part(text@);
    proof {
        assert(d =~= v@.subrange(start as int, n as int));
    }
    if start == n {
        return None;
    }
    let mut acc: u32 = 0;
    while i < n
        invariant
            v@ == text@,
            n == v.len(),
            start <= i <= n,
            d == v@.subrange(start as int, n as int),
            d == unsigned_part(text@),
            d.len() > 0,
            all_digits(v@.subrange(start as int, i as int)),
            acc == digits_value(v@.subrange(start as int, i as int)),
        decreases n - i,
    {
        let c = v[i];
        if c < '0' || c > '9' {
            proof {
                assert(d[i - start] == v@[i as int]);
                assert(!is_digit(d[i - start]));
            }
            return None;
        }
        let digit = (c as u32) - ('0' as u32);
        proof {
            let p = v@.subrange(start as int, i + 1);
            assert(p.drop_last() =~= v@.subrange(start as int, i as int));
            assert(all_digits(p));
            assert(digits_value(p) == acc * 10 + digit);
            assert(d.subrange(0, i + 1 - start) =~= p);
        }
        match acc.checked_mul(10) {
            Some(m) => match m.checked_add(digit) {
                Some(a) => {
                    acc = a;
                },
                None => {
                    proof {
                        lemma_overflow_fails(d, i + 1 - start);
                    }
                    return None;
                },
            },
            None => {
                proof {
                    lemma_value_nonneg(v@.subrange(start as int, i as int));
                    lemma_overflow_fails(d, i + 1 - start);
                }
                return None;
            },
        }
        i = i + 1;
    }
    proof {
        assert(v@.subrange(start as int, n as int) =~= d);
    }
    Some(acc)
}

/// Once a prefix of the digits is too large for a `u32`, parsing fails.
proof fn lemma_overflow_fails(d: Seq<char>, k: int)
    requires
        0 < k <= d.len(),
        all_digits(d.subrange(0, k)),
        digits_value(d.subrange(0, k)) > u32::MAX,
    ensures
        !(all_digits(d) && digits_value(d) <= u32::MAX),
{
    if all_digits(d) {
        lemma_prefix_value_le(d, k);
    }
}

/// The text that `chrono` writes for `%H` is read as the hour it writes:
/// the dashboard greets by the value of those two digits, never by the
/// fallback hour.
pub proof fn hour_text_is_read_as_its_hour(t: Seq<char>)
    requires
        is_hour_text(t),
    ensures
        hour_of_text(t) as int == digits_value(t),
        0 <= hour_of_text(t) < 24,
{
    lemma_value_nonneg(t);
    assert(t[0] != '+') by {
        assert(is_digit(t[0]));
    }
    assert(unsigned_part(t) == t);
}

/// The hour the dashboard reads from `hour_text`: its value as a `u32`, or
/// noon when it is not one.
pub fn hour_from_text(hour_text: &str) -> (h: u32)
    ensures
        h == hour_of_text(hour_text@),
{
    match parse_u32(hour_text) {
        Some(h) => h,
        None => DEFAULT_HOUR,
    }
}

/// The greeting for `hour`: morning until 11, afternoon until 17, evening after.
pub fn greeting_for_hour(hour: u32) -> (g: &'static str)
    ensures
        g@ == greeting(hour),
{
    if hour <= 11 {
        MORNING
    } else if hour <= 17 {
        AFTERNOON
    } else {
        EVENING
    }
}

/// The home page, greeting the signed-in user if there is one.
pub fn hello(user: Option<&LoggedInUser>) -> (page: String)
    ensures
        page@ == layout_html(HOME_TITLE@, HOME_CONTENT@, shown_name(user)),
{
    layout(HOME_TITLE, HOME_CONTENT, user)
}

/// The dashboard of `user`, greeting by the hour that `hour_text` gives.
pub fn dashboard_page(user: &LoggedInUser, hour_text: &str) -> (page: String)
    ensures
        page@ == dashboard_html(user.0@, hour_text@),
{
    let g = greeting_for_hour(hour_from_text(hour_text));
    let mut content = String::new();
    content.append(DASHBOARD_START);
    push_escaped(&mut content, g);
    content.append(GREETING_SEPARATOR);
    push_escaped(&mut content, user.0.as_str());
    content.append(DASHBOARD_END);
    proof {
        assert(content@ =~= dashboard_content(greeting(hour_of_text(hour_text@)), user.0@));
    }
    layout(DASHBOARD_TITLE, content.as_str(), Some(user))
}

/// The dashboard of `user` at the current local hour: the greeting is the
/// one for the value of the hour that the clock reads as `%H`.
pub fn dashboard(user: &LoggedInUser) -> (page: String)
    ensures
        exists|t: Seq<char>|
            is_hour_text(t) && page@ == dashboard_html(user.0@, t) && page@ == layout_html(
                DASHBOARD_TITLE@,
                dashboard_content(greeting(digits_value(t) as u32), user.0@),
                Some(user.0@),
            ),
{
    let hour_text = local_time_text(HOUR_FORMAT);
    let page = dashboard_page(user, hour_text.as_str());
    proof {
        hour_text_is_read_as_its_hour(hour_text@);
    }
    assert(is_hour_text(hour_text@) && page@ == dashboard_html(user.0@, hour_text@));
    page
}

/// The clock fragment for the time text `now`.
pub fn clock_fragment(now: &str) -> (fragment: String)
    ensures
        fragment@ == clock_html(now@),
{
    let mut fragment = String::new();
    fragment.append(CLOCK_START);
    push_escaped(&mut fragment, now);
    fragment.append(CLOCK_END);
    proof {
        assert(fragment@ =~= clock_html(now@));
    }
    fragment
}

/// The clock fragment at the current local time; the time needs no escaping.
pub fn time() -> (fragment: String)
    ensures
        exists|t: Seq<char>|
            is_clock_text(t) && fragment@ == clock_html(t) && fragment@ == CLOCK_START@ + t
                + CLOCK_END@,
{
    let now = local_time_text(CLOCK_FORMAT);
    let fragment = clock_fragment(now.as_str());
    proof {
        let t = now@;
        assert forall|i: int| 0 <= i < t.len() implies {
            let c = #[trigger] t[i];
            c != '&' && c != '<' && c != '>' && c != '"'
        } by {
            if i < 2 {
                assert(t.subrange(0, 2)[i] == t[i]);
            } else if 3 <= i < 5 {
                assert(t.subrange(3, 5)[i - 3] == t[i]);
            } else if 6 <= i {
                assert(t.subrange(6, 8)[i - 6] == t[i]);
            }
        }
        plain_text_is_unchanged(t);
        assert(is_clock_text(t) && fragment@ == clock_html(t) && fragment@ == CLOCK_START@ + t
            + CLOCK_END@);
    }
    fragment
}

/// The page for paths the application does not serve.
pub fn not_found() -> (page: String)
    ensures
        page@ == layout_html(NOT_FOUND_TITLE@, NOT_FOUND_CONTENT@, None),
{
    layout(NOT_FOUND_TITLE, NOT_FOUND_CONTENT, None)
}

/// The answer for paths the application does not serve: `404 Not Found`
/// with the not-found page.
pub fn not_found_response() -> (r: Response)
    ensures
        r.status == STATUS_NOT_FOUND,
        r.body matches Body::Html(page) && page@ == layout_html(
            NOT_FOUND_TITLE@,
            NOT_FOUND_CONTENT@,
            None,
        ),
{
    Response { status: STATUS_NOT_FOUND, body: Body::Html(not_found()) }
}

} // verus!
