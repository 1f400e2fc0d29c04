//! Ingestion settings: which sessions to read and what to keep of them.
use vstd::prelude::*;

verus! {

/// Which sessions an ingestion reads.
#[derive(Debug, Clone)]
pub enum IngestScope {
    /// One session, by its id.
    Session { id: String },
    /// The sessions recorded for one project directory.
    Project { directory: String },
    /// Every session.
    Global,
}

impl Default for IngestScope {
    fn default() -> (r: Self)
        ensures
            r is Global,
    {
        IngestScope::Global
    }
}

/// What an ingestion reads and which parts of a message become memories.
#[derive(Debug, Clone)]
pub struct IngestConfig {
    pub scope: IngestScope,
    pub batch_size: usize,
    pub include_compacted: bool,
    pub include_errors: bool,
    pub include_tool_outputs: bool,
    pub include_reasoning: bool,
    /// Earliest session creation time, in seconds since the Unix epoch. When
    /// set, the session listing gains a condition whose placeholder no value
    /// fills (see `db::session_query`), so the database rejects the listing
    /// and the ingestion fails.
    pub since: Option<i64>,
    /// Latest session creation time, in seconds since the Unix epoch; when set
    /// it leaves an unfilled placeholder in the listing, as `since` does.
    pub until: Option<i64>,
    pub dry_run: bool,
    pub max_content_length: usize,
}

impl Default for IngestConfig {
    fn default() -> (r: Self)
        ensures
            r.scope is Global,
            r.batch_size == 50,
            r.include_compacted,
            r.include_errors,
            r.include_tool_outputs,
            r.include_reasoning,
            r.since is None,
            r.until is None,
            r.max_content_length == 10_000,
            !r.dry_run,
    {
        IngestConfig {
            scope: IngestScope::Global,
            batch_size: 50,
            include_compacted: true,
            include_errors: true,
            include_tool_outputs: true,
            include_reasoning: true,
            since: None,
            until: None,
            max_content_length: 10_000,
            dry_run: false,
        }
    }
}

} // verus!
