# task_api

A small task-tracking web service (users, projects, tasks, bearer-token
authentication) whose logic is a Verus-verified library.

- `src/` — the verified library (`task_api`):
  - `text` — Unicode white space, `trim`, character search, prefixes;
  - `ids` — identifiers as `u128` and their hyphenated text;
  - `clock` — the current second;
  - `error` — `AppError` and the reply each error is answered with;
  - `models` — users, projects, tasks and the request bodies;
  - `auth` — registration checks, HS256 access tokens, authentication of a request;
  - `routes` — the decisions each handler makes between its database steps,
    and the laws of updates (idempotence, empty updates, trimmed names).
- `tests/` — tests of the library, run with the real `jsonwebtoken`,
  `bcrypt`, `uuid` and `chrono`.
- `app/` — the axum server: routing, the PostgreSQL queries (sqlx), JSON
  (serde), logging, and shutdown. It calls the library for every decision.
