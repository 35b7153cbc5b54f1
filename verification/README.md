# my_axum_app

A user-account web service (Axum + PostgreSQL) whose decisions are proved
with Verus.

- `src/` is the verified library: settings, errors and their HTTP answers,
  the response envelope, request validation, password hashing and bearer
  tokens (argon2, jsonwebtoken, uuid, chrono and validator are called behind
  small trusted wrappers in `security.rs` and `validation.rs`), the
  registration and login decisions, and bearer authentication.
- `app/` is the server around it: environment, logging, the database
  queries, routes, extractors, OpenAPI document and graceful shutdown.
- `tests/` runs the library against the real outside crates.

Laws proved in `src/` include: parsing the decimal text of a number gives it
back (`numeric`), a token read back names the user it was issued to
(`security::parse_token`, `middleware::authenticate`), a registered password
logs in while the account is active, and an unknown email is answered like a
wrong password (`features::user::service`).

`serde_json` is not named by the service's own sources: it is a dependency
of `jsonwebtoken`, and the library uses its `RawValue` so that the token's
claims text, which `claims.rs` writes and reads itself, passes through
`jsonwebtoken` unchanged.
