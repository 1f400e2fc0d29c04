# rememnemosyne

Verified core of two RemeMnemosyne tools:

- **clone tracking** (`src/tracker.rs`): the event recorded when the repository
  is built, CI detection, the bounded local event log, opt-out and log paths,
  and the decisions of a tracking run;
- **opencode ingestion** (`src/config.rs`, `src/db.rs`, `src/transform.rs`,
  `src/ingest.rs`): the SQL an ingestion issues, the rules that turn message
  parts into memories (`src/model.rs`), and the tallies of a run.

`src/text.rs` and `src/paths.rs` hold the string and path operations these
rely on, stated over the `Seq<char>` view of strings.

`app/` holds what touches the outside world: environment variables, the
clock (through `chrono`), files, the SQLite database (through `rusqlite`),
JSON (through `serde_json`), remote delivery of tracked events when a
configuration switches it on (through `reqwest`) and the memory engine, which it reaches through the `MemoryEngine`
trait.
