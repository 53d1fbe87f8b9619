# jwt_auth_api

A small user API guarded by JSON Web Tokens: users register with a role, log
in to receive an HS256 token, and present it as a bearer token to reach the
user and admin routes.

- `src/` is the verified library (Verus): roles and user records, issuing and
  checking tokens through `jsonwebtoken`, and every decision the routes make
  (field checks, login and registration replies, access to the protected
  routes), each with its contract, plus the proofs of the properties that tie
  them together.
- `app/` is the server around it: axum routes, the SQLite store (sqlx), the
  environment, and the serialized forms of the library's types.
- `tests/` runs the library on concrete values.
