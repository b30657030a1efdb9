# superoxide

The rules of the Superoxide account server, verified with Verus.

- `src/` is the library. `state` holds the account rules (username and
  password validation, username availability, registration and login
  decisions, session credentials); `database` the decisions taken on what the
  database answers and the stored test rows; `http_server` the status codes,
  replies, rate limits and session cookie of the HTTP API; `error` the server's
  errors and exit codes; `logger` the log line layout; `startup` the start-up
  decisions. `hashing` holds the calls into `argon2`, `sha2`, `hex` and the
  operating system's random generator, with the contracts they are trusted on.
- `app/` is the server program: it reads the environment, runs the MySQL
  queries with `sqlx`, serves HTTP with `axum`, and hands every decision to the
  library.
- `tests/` runs the library on concrete values.
