# website_editor

The verified core of a small website-editor API (users, authentication,
projects with members and versioned snapshots, items), written in Verus.

- `src/` — the library. Its own logic is verified; the calls into outside
  code sit behind small trusted wrappers (marked `#[verifier::external_body]`)
  whose contracts state what that code's source or documentation shows:
  bcrypt's `hash` and `verify`, SHA-256, the operating system's random
  bytes, jsonwebtoken's Ed25519 PEM parsing, `str::parse::<i64>`,
  `char::is_whitespace`, `String::push`, the `validator` crate's e-mail,
  length and range checks, and an empty `serde_json` object. The modules:
  - `validation`, `dto` — field rules of each request body (backed by the
    `validator` crate's checks), the failures they report, and the
    `{field: [messages]}` error they become;
  - `error`, `codes` — service errors, their codes and HTTP statuses;
  - `token`, `password` — access-token claims and lifetimes, Ed25519 keys,
    refresh tokens (random, hex, stored as SHA-256), bcrypt;
  - `service`, `gate` — what each service decides between its database
    calls, and the checks in front of protected routes;
  - `text` — trimming, comparison, decimal and hex rendering.
- `app/` — the Axum server around it: SQLite through sqlx, JWT encoding,
  logging, configuration and routes.
- `tests/` — tests of the library.
