# chatapp

Request handling of a chat server (sign-up with e-mailed one-time codes,
login, password reset and change, per-user WebSocket sessions), verified
with Verus.

- `src/` — the verified library. Each HTTP handler is a state machine
  (`routes/*.rs`): it names the next outside operation as an `Effect`,
  takes what came back as an `Outcome`, and ends with a `Reply`. The
  WebSocket side (`ws/ws_handler.rs`) turns client commands into
  connection-manager operations and decides, per connection event, what to
  do and when the user is cleaned up. `laws.rs` proves properties that span
  handlers (session keys, round trips, code gating, single cleanup,
  in-order delivery). `utils.rs` builds the code e-mail body.
- `app/` — the server: actix-web endpoints, the executor that performs the
  effects with the `fr-rust` services (Postgres, Redis, Argon2, SMTP), JSON
  shapes, and the WebSocket task.
- `tests/` — concrete runs of every handler and of the WebSocket logic.
