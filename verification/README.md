# partal-gallery-api

A small HTTP API that stores per-address gallery documents in Postgres behind a
shared bearer token. The request-handling decisions form a library whose
contracts are proved; the server around them is ordinary Rust.

- `src/` — the library:
  - `problem.rs` — RFC 7807 problem values and the status they are sent with;
  - `address.rs` — the storage key of an address (lowercased) and the laws that
    make reads and writes meet whatever the caller's casing;
  - `auth.rs` — the constant-time bearer-token check and the 401 problem;
  - `gallery.rs` — what GET, PUT and DELETE answer, given what the store did;
  - `logging.rs` — colour selection and the pieces of a log line (level,
    timestamp, span fields with ANSI escapes stripped and recoloured);
  - `startup.rs` — the database connection retry policy and required settings.
- `app/` — the server: axum routing, sqlx storage, clap arguments, the
  `tracing` subscriber and the OpenAPI document.
- `tests/` — tests of the library.
