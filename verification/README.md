# realworld_axum_api

The authentication core of a RealWorld-style HTTP API, verified with Verus.

* `src/` is the verified library. Every request handler is a state machine
  (`handlers/`): it hands out an `Effect` (a database query, a clock read, a
  mail to send, the final answer) and takes back the `Outcome`. Request
  validation (`schemas.rs`, `validation.rs`), bearer-token extraction and
  authentication (`auth.rs`), the per-client sliding-window rate limiter
  (`rate_limit.rs`), token generation (`token.rs`) and the mails
  (`email.rs`) are verified functions with exact contracts.
* `world.rs` gives each effect its meaning over a model of the database, so
  that properties of whole requests are stated and proved: refresh-token
  rotation with reuse detection, single-use verification and reset links,
  identical answers to reset-link requests whether or not the email exists,
  at most ten admitted requests per client per minute.
* `app/` is the server around the library: axum routes, the PostgreSQL
  repositories (sqlx), JWT signing, password hashing and SMTP delivery. It
  performs the effects and drives each handler to its answer.
* `tests/` runs the library on concrete values.
