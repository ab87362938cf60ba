# todo

A small to-do web service whose logic is verified with Verus.

- `src/` is the verified library: session tokens (`token.rs`, JWT signed with
  HMAC-SHA256 through the `jwt` crate), stored records and password hashing
  (`structs.rs`, through `bcrypt`), the session check (`auth.rs`), account
  creation (`login.rs`) and the to-do handlers (`handlers.rs`). Every request
  handler is a sequence of steps: a step decides and names the store
  operation to run next; the answer model is in `reply.rs`.
- `app/` is the HTTP server (actix-web) and the document store (MongoDB):
  it runs the store operations the steps ask for and turns answers into HTTP
  responses.
- `tests/` runs the library with the real outside crates.
