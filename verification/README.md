# hermes_rs

Session storage for an LLM agent: message, tool and session types, a shared
error type with `.context()` helpers, and a SQLite session store with
full-text search.

- `src/` is the verified library:
  - `error.rs`: the shared `Error`, `FromMessage`, and `Context` on `Result`/`Option`.
  - `types/`: message roles, tool calls, tool schemas and registry entries.
  - `state/error.rs`: the store's `Error` and its `Context`.
  - `state/search.rs`: turning a user query into a safe FTS5 match expression.
  - `state/counters.rs`: what appending a message adds to the tool-call counter.
  - `state/sqlite.rs`: the connect options built from a database path.
  - `state/json.rs`: parsing and serializing the JSON columns.
  - `outside.rs`: the outside types the library carries.
- `app/` is ordinary Rust: the serde/thiserror forms of the library's types,
  the `Message` and `Session` records, the `SessionStore` trait and its SQLite
  implementation.
- `tests/` runs the library on concrete values.
