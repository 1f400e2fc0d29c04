//! Records read from an opencode session database, and the queries that read them.
use vstd::prelude::*;
use crate::config::{IngestConfig, IngestScope};
use crate::text::{
    concat3, count_char, lemma_count_absent, lemma_count_concat, lemma_count_only_last, str_eq,
};

verus! {

/// A session row.
#[derive(Debug, Clone)]
pub struct SessionInfo {
    pub id: String,
    pub title: String,
    pub directory: String,
    pub created_at: i64,
}

/// A message row with the parts recorded for it.
#[derive(Debug, Clone)]
pub struct MessageInfo {
    pub id: String,
    pub _session_id: String,
    pub role: String,
    pub _created_at: i64,
    pub parts: Vec<PartInfo>,
}

/// A part row: a piece of text, reasoning, or a tool call of a message.
#[derive(Debug, Clone)]
pub struct PartInfo {
    pub _id: String,
    pub part_type: String,
    pub text: Option<String>,
    pub tool_name: Option<String>,
    pub tool_input: Option<String>,
    pub tool_output: Option<String>,
    pub tool_error: Option<String>,
    pub is_compacted: bool,
}

/// The statement listing sessions and the values bound to its placeholders.
#[derive(Debug, Clone)]
pub struct SessionQuery {
    pub sql: String,
    pub params: Vec<String>,
}

/// The condition the scope adds to the session listing.
pub open spec fn scope_clause(scope: IngestScope) -> Seq<char> {
    match scope {
        IngestScope::Project { .. } => " AND directory = ?"@,
        IngestScope::Session { .. } => " AND id = ?"@,
        IngestScope::Global => Seq::empty(),
    }
}

/// The values bound for the scope's condition.
pub open spec fn scope_params(scope: IngestScope) -> Seq<Seq<char>> {
    match scope {
        IngestScope::Project { directory } => seq![directory@],
        IngestScope::Session { id } => seq![id@],
        IngestScope::Global => Seq::empty(),
    }
}

/// The session listing: the sessions in scope, with conditions for the
/// configured time bounds, newest first.
pub open spec fn spec_session_sql(config: IngestConfig) -> Seq<char> {
    "SELECT id, title, directory, time_created FROM session WHERE 1=1"@ + scope_clause(config.scope)
        + (if config.since is Some {
        " AND time_created >= ?"@
    } else {
        Seq::empty()
    }) + (if config.until is Some {
        " AND time_created <= ?"@
    } else {
        Seq::empty()
    }) + " ORDER BY time_created DESC"@
}

/// The statement that lists the session ids an ingestion reads, and the
/// values for its placeholders. Only the scope binds a value: the conditions
/// for the time bounds are written with placeholders that no value fills.
pub fn session_query(config: &IngestConfig) -> (r: SessionQuery)
    ensures
        r.sql@ == spec_session_sql(*config),
        r.params.deep_view() == scope_params(config.scope),
{
    let mut sql = "SELECT id, title, directory, time_created FROM session WHERE 1=1".to_owned();
    let mut params: Vec<String> = Vec::new();
    match &config.scope {
        IngestScope::Project { directory } => {
            sql.append(" AND directory = ?");
            params.push(directory.clone());
        },
        IngestScope::Session { id } => {
            sql.append(" AND id = ?");
            params.push(id.clone());
        },
        IngestScope::Global => {},
    }
    let ghost after_scope = sql@;
    if config.since.is_some() {
        sql.append(" AND time_created >= ?");
    }
    let ghost after_since = sql@;
    if config.until.is_some() {
        sql.append(" AND time_created <= ?");
    }
    sql.append(" ORDER BY time_created DESC");
    proof {
        assert(params.deep_view() =~= scope_params(config.scope));
        assert(after_scope =~= "SELECT id, title, directory, time_created FROM session WHERE 1=1"@
            + scope_clause(config.scope));
    }
    SessionQuery { sql, params }
}

/// The session listing has one placeholder for each value bound to it, plus
/// one for each configured time bound (which no value fills); so every
/// placeholder is filled exactly when no time bound is set.
pub proof fn law_session_placeholders(config: IngestConfig)
    ensures
        count_char(spec_session_sql(config), '?') == scope_params(config.scope).len() + (if config.since is Some {
            1nat
        } else {
            0nat
        }) + (if config.until is Some {
            1nat
        } else {
            0nat
        }),
        config.since is None && config.until is None ==> count_char(spec_session_sql(config), '?')
            == scope_params(config.scope).len(),
{
    let base = "SELECT id, title, directory, time_created FROM session WHERE 1=1"@;
    let project = " AND directory = ?"@;
    let session = " AND id = ?"@;
    let since = " AND time_created >= ?"@;
    let until = " AND time_created <= ?"@;
    let order = " ORDER BY time_created DESC"@;
    reveal_strlit("SELECT id, title, directory, time_created FROM session WHERE 1=1");
    reveal_strlit(" AND directory = ?");
    reveal_strlit(" AND id = ?");
    reveal_strlit(" AND time_created >= ?");
    reveal_strlit(" AND time_created <= ?");
    reveal_strlit(" ORDER BY time_created DESC");
    assert forall|i: int| 0 <= i < base.len() implies base[i] != '?' by {}
    assert forall|i: int| 0 <= i < order.len() implies order[i] != '?' by {}
    assert forall|i: int| 0 <= i < project.len() - 1 implies project[i] != '?' by {}
    assert forall|i: int| 0 <= i < session.len() - 1 implies session[i] != '?' by {}
    assert forall|i: int| 0 <= i < since.len() - 1 implies since[i] != '?' by {}
    assert forall|i: int| 0 <= i < until.len() - 1 implies until[i] != '?' by {}
    lemma_count_absent(base, '?');
    lemma_count_absent(order, '?');
    lemma_count_absent(Seq::empty(), '?');
    lemma_count_only_last(project, '?');
    lemma_count_only_last(session, '?');
    lemma_count_only_last(since, '?');
    lemma_count_only_last(until, '?');
    let scope = scope_clause(config.scope);
    let s_part: Seq<char> = if config.since is Some {
        since
    } else {
        Seq::empty()
    };
    let u_part: Seq<char> = if config.until is Some {
        until
    } else {
        Seq::empty()
    };
    lemma_count_concat(base, scope, '?');
    lemma_count_concat(base + scope, s_part, '?');
    lemma_count_concat(base + scope + s_part, u_part, '?');
    lemma_count_concat(base + scope + s_part + u_part, order, '?');
}

/// The statement that reads the messages of a session, oldest first; its one
/// placeholder takes the session id.
pub fn message_query() -> (r: String)
    ensures
        r@ == "SELECT id, session_id, role, time_created FROM message WHERE session_id = ? ORDER BY time_created"@,
{
    "SELECT id, session_id, role, time_created FROM message WHERE session_id = ? ORDER BY time_created".to_owned()
}

/// The statement that succeeds exactly when a `part` table exists.
pub fn part_table_probe() -> (r: String)
    ensures
        r@ == "SELECT 1 FROM part WHERE 1=0 LIMIT 1"@,
{
    "SELECT 1 FROM part WHERE 1=0 LIMIT 1".to_owned()
}

/// The statement that lists the columns of `table`.
pub fn table_info_query(table: &str) -> (r: String)
    ensures
        r@ == "PRAGMA table_info("@ + table@ + ")"@,
{
    concat3("PRAGMA table_info(", table, ")")
}

/// The statement that reads the parts of a message, and whether it reads the
/// `compacted` column (as its eighth column).
#[derive(Debug, Clone)]
pub struct PartQuery {
    pub sql: String,
    pub reads_compacted: bool,
}

/// The part listing: the `compacted` column is read when the table has one.
pub open spec fn spec_part_sql(reads_compacted: bool) -> Seq<char> {
    if reads_compacted {
        "SELECT id, type, text, tool, output, input, error, compacted FROM part WHERE message_id = ? ORDER BY id"@
    } else {
        "SELECT id, type, text, tool, output, input, error FROM part WHERE message_id = ? ORDER BY id"@
    }
}

/// The statement reading the parts of a message, given the columns of the
/// `part` table; its one placeholder takes the message id.
pub fn part_query(columns: &Vec<String>) -> (r: PartQuery)
    ensures
        r.reads_compacted == columns.deep_view().contains("compacted"@),
        r.sql@ == spec_part_sql(r.reads_compacted),
{
    let mut reads_compacted = false;
    let mut i: usize = 0;
    while i < columns.len()
        invariant
            i <= columns@.len(),
            reads_compacted == exists|j: int| 0 <= j < i && columns@[j]@ == "compacted"@,
        decreases columns@.len() - i,
    {
        if str_eq(columns[i].as_str(), "compacted") {
            reads_compacted = true;
        }
        i += 1;
    }
    proof {
        if reads_compacted {
            let j = choose|j: int| 0 <= j < i && columns@[j]@ == "compacted"@;
            assert(columns.deep_view()[j] == columns@[j]@);
        } else {
            assert forall|j: int| 0 <= j < columns.deep_view().len() implies columns.deep_view()[j]
                != "compacted"@ by {
                assert(columns.deep_view()[j] == columns@[j]@);
            }
        }
    }
    let sql = if reads_compacted {
        "SELECT id, type, text, tool, output, input, error, compacted FROM part WHERE message_id = ? ORDER BY id".to_owned()
    } else {
        "SELECT id, type, text, tool, output, input, error FROM part WHERE message_id = ? ORDER BY id".to_owned()
    };
    PartQuery { sql, reads_compacted }
}

/// Whether a part row is compacted: its `compacted` value, read when the
/// column exists, counts as set when present and non-zero.
pub fn decode_compacted(reads_compacted: bool, raw: Option<i64>) -> (r: bool)
    ensures
        r == (reads_compacted && match raw {
            Some(v) => v != 0,
            None => false,
        }),
{
    if reads_compacted {
        let v = match raw {
            Some(v) => v,
            None => 0,
        };
        v != 0
    } else {
        false
    }
}

} // verus!

