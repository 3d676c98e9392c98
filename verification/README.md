# rust_web_template

A small web application (signup, login, logout, a dashboard and a live clock)
whose request logic is a library verified with Verus.

- `src/` — the verified library:
  - `text`: HTML escaping, white-space trimming, substring search, UTF-8 length checks;
  - `layout`, `pages`: the pages and fragments, rendered as escaped HTML text;
  - `cookies`: the session cookie and the signed-in user;
  - `password`: bcrypt hashing and checking (trusted wrappers around the `bcrypt` crate);
  - `auth`, `user`: signup checks, login decisions, logout, and the meaning of database answers;
  - `error`: the error type and the HTTP answer of each error;
  - `handlers`: a plainer variant of the handlers that answers with pages and `Set-Cookie` redirects.
- `app/` — the axum server: routing, extractors, the SQLite queries and the conversions to
  axum, maud and cookie-jar types.
- `tests/` — tests of the library.
