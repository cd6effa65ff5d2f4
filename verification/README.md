# rust_web_app

The verified core of a small web application (JSON-RPC over HTTP, cookie
login, PostgreSQL storage), written in Verus.

- `src/` — the library. Its functions are verified, except the small
  wrappers (marked `#[verifier::external_body]`) that call base64, hmac, argon2,
  uuid, regex-syntax, time and std, whose contracts are trusted:
  - `pwd/` multi-scheme password hashing (`#<scheme>#<hash>`): scheme "01"
    (HMAC-SHA512, base64url) and scheme "02" (Argon2id), parsing of stored
    passwords, validation with outdated-scheme detection;
  - `uuid.rs`, `b64.rs`, `text.rs`, `utc.rs` — UUIDs, base64, string helpers,
    RFC 3339 instants;
  - `token.rs` — signed web tokens (parse, print, sign, generate, validate);
  - `ctx.rs` — the request context;
  - `model/` — entities, their column lists, list filters, the SQL statements
    of each database call as pieces, the rules around each call (timestamps and
    owner on create/update, list limits, not-found results), and a model of a
    table over which the create/get/update/delete laws are proved;
  - `rpc/` — the JSON-RPC routing table and the services' method tables;
  - `web/` — the steps of request authentication (token from the cookie, then
    checks against the fetched user and the path) and of the login, and the
    mapping of server errors to HTTP status and client errors.
- `tests/` — tests of the library.
- `app/` — the server program: configuration, the database pool, sending the
  library's statements, the axum routes and middleware, and the wire (serde) forms of the
  library's types.
