# kanban_backend

The back end of a kanban board service: users sign up and log in with JWT sessions,
join teams, keep boards of columns and cards, and are told on Slack when a card is
assigned to them; a separate "company" grouping is managed by one privileged user.

## Layout

- `src/` — the verified library (Verus). It holds the rules of the service as functions
  from plain values to plain values, each with a contract:
  - `oid`, `text` — object ids and their hex form; text helpers, JSON string writing.
  - `models/` — users, teams (roles, members, permissions), companies, boards and cards.
  - `services/` — the decisions of every request: sign-up and log-in, sessions and
    refresh tokens, team and company administration, board and card edits, access checks,
    the Slack notice to send and its message body.
  - `routes/` — the status and body that answer each outcome.
  - `utils/` — errors and their HTTP answers, signing access tokens and checking
    the bearer token of a request, hashing refresh tokens, the clock.
  - `db/indexes` — which indexes still have to be created.
  Calls into bcrypt, jsonwebtoken, serde_json, sha2, uuid, chrono and bson stand behind small trusted
  wrappers whose contracts say what those crates do.
- `app/` — the web server (axum, tokio, MongoDB driver, reqwest): it reads requests and
  the database, hands the library plain values, and writes back what the library decides.
- `tests/` — tests of the library on concrete values.
