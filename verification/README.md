# Socky backend

The session and access-control core of the Socky backend, verified with Verus,
and the server around it.

- `src/` is the verified library: access and refresh tokens (`token`), the
  login, refresh and logout flows as state machines (`auth`), the SQL
  statements of the repositories and what their results mean (`repository`),
  error answers, role checks, the request context and middleware decisions
  (`web`), the request log line (`log`) and the batch cleanup of expired
  tokens (`worker`). The laws that the flows keep are proof functions in
  `auth/laws.rs`, `auth/service_laws.rs` and `auth/table_laws.rs`, the last
  over what the refresh-token statements do to the table's rows
  (`statement_effect` in `repository/token_repo.rs`); the steps
  issue tokens and hash refresh tokens themselves (`token/hash.rs`), and
  `auth/password.rs` hashes passwords with Argon2, checks a password against
  its stored hash and decides a password change.
- `app/` is the server: configuration, the PostgreSQL pool, the thread that
  password checks run on, the HTTP
  routes and middleware. It performs the actions that the library's machines
  ask for and feeds their outcomes back.
- `tests/` runs the library on concrete values.
