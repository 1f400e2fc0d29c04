use rememnemosyne::config::{IngestConfig, IngestScope};
use rememnemosyne::db::{
    decode_compacted, message_query, part_query, part_table_probe, session_query,
    table_info_query, MessageInfo, PartInfo, SessionInfo,
};
use rememnemosyne::ingest::IngestProgress;
use rememnemosyne::model::{Importance, MemoryTrigger, MemoryType};
use rememnemosyne::paths::{default_database_candidates, first_present, join_path};
use rememnemosyne::text::{join_strings, prefix_string, str_eq, trim_str};
use rememnemosyne::transform::{
    classify_importance, classify_trigger, generate_summary, transform_message, transform_part,
    truncate_content,
};

fn part(part_type: &str) -> PartInfo {
    PartInfo {
        _id: "p1".to_string(),
        part_type: part_type.to_string(),
        text: None,
        tool_name: None,
        tool_input: None,
        tool_output: None,
        tool_error: None,
        is_compacted: false,
    }
}

fn text_part(part_type: &str, text: &str) -> PartInfo {
    PartInfo { text: Some(text.to_string()), ..part(part_type) }
}

fn tool_part(name: Option<&str>, input: Option<&str>, output: Option<&str>, error: Option<&str>) -> PartInfo {
    PartInfo {
        tool_name: name.map(|s| s.to_string()),
        tool_input: input.map(|s| s.to_string()),
        tool_output: output.map(|s| s.to_string()),
        tool_error: error.map(|s| s.to_string()),
        ..part("tool")
    }
}

fn message(id: &str, role: &str, parts: Vec<PartInfo>) -> MessageInfo {
    MessageInfo {
        id: id.to_string(),
        _session_id: "s1".to_string(),
        role: role.to_string(),
        _created_at: 0,
        parts,
    }
}

#[test]
fn default_config_values() {
    let c = IngestConfig::default();
    assert!(matches!(c.scope, IngestScope::Global));
    assert_eq!(c.batch_size, 50);
    assert!(c.include_compacted && c.include_errors && c.include_tool_outputs && c.include_reasoning);
    assert_eq!(c.since, None);
    assert_eq!(c.until, None);
    assert!(!c.dry_run);
    assert_eq!(c.max_content_length, 10_000);
    assert!(matches!(IngestScope::default(), IngestScope::Global));
}

#[test]
fn truncation_keeps_short_content() {
    assert_eq!(truncate_content("hello", 5), "hello");
    assert_eq!(truncate_content("", 0), "");
}

#[test]
fn truncation_cuts_long_content() {
    assert_eq!(truncate_content("hello world", 5), "hello...[truncated]");
    assert_eq!(truncate_content("abc", 0), "...[truncated]");
}

#[test]
fn truncation_counts_bytes_but_cuts_characters() {
    // Three characters, six bytes: over a four-byte limit, yet all three are kept.
    assert_eq!(truncate_content("ééé", 4), "ééé...[truncated]");
    assert_eq!(truncate_content("ééé", 6), "ééé");
    assert_eq!(truncate_content("éééé", 2), "éé...[truncated]");
}

#[test]
fn importance_rules() {
    assert_eq!(classify_importance("assistant", "tool", Some("bash"), "x"), Importance::High);
    assert_eq!(classify_importance("assistant", "tool", Some("bash"), "Error: boom"), Importance::High);
    assert_eq!(classify_importance("assistant", "tool", None, "x"), Importance::Low);
    assert_eq!(classify_importance("user", "text", None, &"a".repeat(200)), Importance::Medium);
    assert_eq!(classify_importance("user", "text", None, &"a".repeat(201)), Importance::High);
    // 101 two-byte characters: 202 bytes, so the long-message rule applies.
    assert_eq!(classify_importance("user", "text", None, &"é".repeat(101)), Importance::High);
    assert_eq!(classify_importance("assistant", "reasoning", None, "x"), Importance::Medium);
    assert_eq!(classify_importance("assistant", "text", None, "x"), Importance::Low);
    assert_eq!(classify_importance("system", "text", None, "x"), Importance::Low);
}

#[test]
fn trigger_rules() {
    assert!(matches!(classify_trigger("user", "text"), MemoryTrigger::UserInput));
    assert!(matches!(classify_trigger("assistant", "tool"), MemoryTrigger::Decision));
    assert!(matches!(classify_trigger("assistant", "reasoning"), MemoryTrigger::Insight));
    assert!(matches!(classify_trigger("assistant", "text"), MemoryTrigger::SystemOutput));
    match classify_trigger("user", "tool") {
        MemoryTrigger::Custom(label) => assert_eq!(label, "opencode_session"),
        _ => panic!("expected a custom trigger"),
    }
}

#[test]
fn summary_rules() {
    assert_eq!(generate_summary("user", "text", None, "hi"), "User request: hi");
    assert_eq!(generate_summary("assistant", "tool", Some("grep"), "whatever"), "Tool: grep");
    assert_eq!(generate_summary("assistant", "tool", None, "ran"), "Tool call: ran");
    assert_eq!(generate_summary("assistant", "reasoning", None, "think"), "Reasoning: think");
    assert_eq!(generate_summary("assistant", "text", None, "ok"), "Response: ok");
    assert_eq!(generate_summary("system", "text", None, "ok"), "Message: ok");
    let long = "x".repeat(100);
    assert_eq!(
        generate_summary("user", "text", None, &long),
        format!("User request: {}...", "x".repeat(80))
    );
    assert_eq!(generate_summary("user", "text", None, &"x".repeat(80)), format!("User request: {}", "x".repeat(80)));
    // 50 characters but 100 bytes: nothing is cut, yet the ellipsis is added.
    let wide = "é".repeat(50);
    assert_eq!(generate_summary("user", "text", None, &wide), format!("User request: {}...", wide));
}

#[test]
fn text_part_becomes_memory() {
    let config = IngestConfig::default();
    let m = transform_part("m1", "user", &text_part("text", "  hello there \n"), &config).unwrap();
    assert_eq!(m.content, "hello there");
    assert_eq!(m.summary, "User request: hello there");
    assert!(matches!(m.trigger, MemoryTrigger::UserInput));
    assert_eq!(m.memory_type, MemoryType::Semantic);
    assert_eq!(m.importance, Importance::Medium);
    assert_eq!(m.tags, vec!["opencode".to_string(), "role:user".to_string()]);
    assert_eq!(m.namespace, "opencode");
    assert_eq!(m.source_id, "opencode:m1");
}

#[test]
fn blank_or_missing_text_yields_nothing() {
    let config = IngestConfig::default();
    assert!(transform_part("m", "user", &text_part("text", " \t\n\u{3000}"), &config).is_none());
    assert!(transform_part("m", "user", &part("text"), &config).is_none());
}

#[test]
fn reasoning_depends_on_config() {
    let mut config = IngestConfig::default();
    let p = text_part("reasoning", "because");
    let m = transform_part("m", "assistant", &p, &config).unwrap();
    assert!(matches!(m.trigger, MemoryTrigger::Insight));
    assert_eq!(m.summary, "Reasoning: because");
    config.include_reasoning = false;
    assert!(transform_part("m", "assistant", &p, &config).is_none());
}

#[test]
fn unknown_part_types_yield_nothing() {
    let config = IngestConfig::default();
    assert!(transform_part("m", "user", &text_part("image", "x"), &config).is_none());
    assert!(transform_part("m", "user", &text_part("Text", "x"), &config).is_none());
}

#[test]
fn tool_part_becomes_memory() {
    let config = IngestConfig::default();
    let p = tool_part(Some("bash"), Some("ls"), Some("a b"), Some("oops"));
    let m = transform_part("m7", "assistant", &p, &config).unwrap();
    assert_eq!(m.content, "[bash]\nInput: ls\nOutput: a b\nError: oops");
    assert_eq!(m.summary, "Tool: bash");
    assert!(matches!(m.trigger, MemoryTrigger::Decision));
    assert_eq!(m.importance, Importance::High);
    assert_eq!(m.tags, vec!["opencode".to_string(), "role:assistant".to_string(), "tool:bash".to_string()]);
    assert_eq!(m.source_id, "opencode:m7");
}

#[test]
fn tool_part_respects_flags_and_limits() {
    let mut config = IngestConfig::default();
    config.max_content_length = 3;
    let p = tool_part(None, Some("abcdef"), Some("uvwxyz"), Some("long error"));
    let m = transform_part("m", "assistant", &p, &config).unwrap();
    assert_eq!(
        m.content,
        "Input: abc...[truncated]\nOutput: uvw...[truncated]\nError: long error"
    );
    assert_eq!(m.importance, Importance::Low);
    assert_eq!(m.summary, "Tool call: Input: abc...[truncated]\nOutput: uvw...[truncated]\nError: long error");

    config.include_tool_outputs = false;
    let m = transform_part("m", "assistant", &p, &config).unwrap();
    assert_eq!(m.content, "Input: abc...[truncated]\nError: long error");

    config.include_errors = false;
    assert!(transform_part("m", "assistant", &p, &config).is_none());
}

#[test]
fn compacted_tool_parts() {
    let mut config = IngestConfig::default();
    let mut p = tool_part(Some("read"), None, None, None);
    p.is_compacted = true;
    assert_eq!(transform_part("m", "assistant", &p, &config).unwrap().content, "[read]");
    config.include_compacted = false;
    assert!(transform_part("m", "assistant", &p, &config).is_none());
}

#[test]
fn empty_tool_part_yields_nothing() {
    let config = IngestConfig::default();
    assert!(transform_part("m", "assistant", &tool_part(None, None, None, None), &config).is_none());
    let mut no_outputs = IngestConfig::default();
    no_outputs.include_tool_outputs = false;
    no_outputs.include_errors = false;
    assert!(transform_part("m", "assistant", &tool_part(None, None, Some("x"), None), &config).is_some());
    assert!(transform_part("m", "assistant", &tool_part(Some("t"), None, None, None), &no_outputs).is_none());
}

#[test]
fn message_yields_one_memory_per_useful_part() {
    let config = IngestConfig::default();
    let msg = message(
        "m1",
        "assistant",
        vec![
            text_part("text", "first"),
            text_part("text", "   "),
            part("file"),
            tool_part(Some("bash"), Some("ls"), None, None),
            text_part("reasoning", "last"),
        ],
    );
    let items = transform_message(&msg, &config);
    let contents: Vec<&str> = items.iter().map(|m| m.content.as_str()).collect();
    assert_eq!(contents, vec!["first", "[bash]\nInput: ls", "last"]);
    assert!(items.len() <= msg.parts.len());
    assert!(items.iter().all(|m| m.source_id == "opencode:m1" && m.namespace == "opencode"));
    assert!(transform_message(&message("m2", "user", vec![]), &config).is_empty());
}

#[test]
fn progress_counts_sessions_messages_and_skips() {
    let config = IngestConfig::default();
    let mut progress = IngestProgress::new();
    let first = vec![
        message("a", "user", vec![text_part("text", "hello")]),
        message("b", "assistant", vec![]),
    ];
    let second = vec![message("c", "assistant", vec![text_part("text", "x"), text_part("text", "y")])];
    progress.absorb_session(&first, &config);
    progress.absorb_session(&second, &config);
    progress.absorb_session(&Vec::new(), &config);

    let contents: Vec<&str> = progress.items().iter().map(|m| m.content.as_str()).collect();
    assert_eq!(contents, vec!["hello", "x", "y"]);

    let elapsed = std::time::Duration::from_millis(7);
    let stats = progress.stats(false, 3, elapsed);
    assert_eq!(stats.sessions_scanned, 3);
    assert_eq!(stats.messages_scanned, 3);
    assert_eq!(stats.messages_skipped, 1);
    assert_eq!(stats.memories_ingested, 3);
    assert_eq!(stats.memories_available, 3);
    assert_eq!(stats.checkpoints_created, 0);
    assert_eq!(stats.elapsed, elapsed);

    assert!(stats.memories_available + stats.messages_skipped >= stats.messages_scanned);
    assert_eq!(progress.batch(false).unwrap().len(), 3);
    assert!(progress.batch(true).is_none());

    let dry = progress.stats(true, 3, elapsed);
    assert_eq!(dry.memories_ingested, 0);

    let preview = progress.preview();
    assert_eq!(preview.sessions, stats.sessions_scanned);
    assert_eq!(preview.total_messages, stats.messages_scanned);
    assert_eq!(preview.estimated_memories, stats.memories_available);
}

#[test]
fn session_query_per_scope() {
    let mut config = IngestConfig::default();
    let q = session_query(&config);
    assert_eq!(
        q.sql,
        "SELECT id, title, directory, time_created FROM session WHERE 1=1 ORDER BY time_created DESC"
    );
    assert!(q.params.is_empty());

    config.scope = IngestScope::Project { directory: "/work/app".to_string() };
    let q = session_query(&config);
    assert_eq!(
        q.sql,
        "SELECT id, title, directory, time_created FROM session WHERE 1=1 AND directory = ? ORDER BY time_created DESC"
    );
    assert_eq!(q.params, vec!["/work/app".to_string()]);

    config.scope = IngestScope::Session { id: "ses_1".to_string() };
    config.since = Some(1_700_000_000);
    config.until = Some(1_800_000_000);
    let q = session_query(&config);
    assert_eq!(
        q.sql,
        "SELECT id, title, directory, time_created FROM session WHERE 1=1 AND id = ? AND time_created >= ? AND time_created <= ? ORDER BY time_created DESC"
    );
    assert_eq!(q.params, vec!["ses_1".to_string()]);
}

#[test]
fn part_queries() {
    let with = part_query(&vec!["id".to_string(), "compacted".to_string()]);
    assert!(with.reads_compacted);
    assert_eq!(
        with.sql,
        "SELECT id, type, text, tool, output, input, error, compacted FROM part WHERE message_id = ? ORDER BY id"
    );
    let without = part_query(&vec!["id".to_string(), "compact".to_string()]);
    assert!(!without.reads_compacted);
    assert_eq!(
        without.sql,
        "SELECT id, type, text, tool, output, input, error FROM part WHERE message_id = ? ORDER BY id"
    );
    assert_eq!(table_info_query("part"), "PRAGMA table_info(part)");
    assert_eq!(part_table_probe(), "SELECT 1 FROM part WHERE 1=0 LIMIT 1");
    assert_eq!(
        message_query(),
        "SELECT id, session_id, role, time_created FROM message WHERE session_id = ? ORDER BY time_created"
    );
}

#[test]
fn compacted_flag_decoding() {
    assert!(decode_compacted(true, Some(1)));
    assert!(decode_compacted(true, Some(-3)));
    assert!(!decode_compacted(true, Some(0)));
    assert!(!decode_compacted(true, None));
    assert!(!decode_compacted(false, Some(1)));
}

#[test]
fn database_candidates() {
    assert_eq!(
        default_database_candidates(Some("/home/u"), Some("/data")),
        vec![
            ".opencode/data.db".to_string(),
            ".opencode/db.sqlite".to_string(),
            "opencode/data.db".to_string(),
            "/home/u/.opencode/data.db".to_string(),
            "/home/u/.local/share/opencode/data.db".to_string(),
            "/data/opencode/data.db".to_string(),
        ]
    );
    assert_eq!(
        default_database_candidates(None, Some("/data/")),
        vec![
            ".opencode/data.db".to_string(),
            ".opencode/db.sqlite".to_string(),
            "opencode/data.db".to_string(),
            "/data/opencode/data.db".to_string(),
        ]
    );
    assert_eq!(default_database_candidates(None, None).len(), 3);
    let candidates = default_database_candidates(Some("/root"), None);
    let present: Vec<bool> = candidates.iter().map(|c| c == "opencode/data.db").collect();
    assert_eq!(first_present(&candidates, &present), Some("opencode/data.db".to_string()));
}

#[test]
fn first_present_candidate() {
    let c = vec!["a".to_string(), "b".to_string(), "c".to_string()];
    assert_eq!(first_present(&c, &vec![false, true, true]), Some("b".to_string()));
    assert_eq!(first_present(&c, &vec![false, false, false]), None);
    assert_eq!(first_present(&c, &vec![false]), None);
}

#[test]
fn path_join_cases() {
    assert_eq!(join_path("/a", "b"), "/a/b");
    assert_eq!(join_path("/a/", "b"), "/a/b");
    assert_eq!(join_path("", "b"), "b");
    assert_eq!(join_path("/a", "/b"), "/b");
}

#[test]
fn text_helpers() {
    assert_eq!(trim_str("  x y \n"), "x y");
    assert_eq!(trim_str("\u{a0}é\u{2003}"), "é");
    assert_eq!(trim_str("   "), "");
    assert_eq!(prefix_string("héllo", 2), "hé");
    assert_eq!(prefix_string("hi", 5), "hi");
    assert!(str_eq("abc", "abc"));
    assert!(!str_eq("abc", "abd"));
    assert_eq!(join_strings(&vec!["a".to_string(), "b".to_string()], "\n"), "a\nb");
    assert_eq!(join_strings(&Vec::new(), "\n"), "");
}

#[test]
fn session_record_fields() {
    let s = SessionInfo {
        id: "s".to_string(),
        title: "t".to_string(),
        directory: "/d".to_string(),
        created_at: 5,
    };
    assert_eq!(s.clone().created_at, 5);
}

#[test]
fn placeholders_match_values_without_time_bounds() {
    let mut config = IngestConfig::default();
    config.scope = IngestScope::Session { id: "x".to_string() };
    let q = session_query(&config);
    assert_eq!(q.sql.matches('?').count(), q.params.len());
    config.since = Some(0);
    let q = session_query(&config);
    assert_eq!(q.sql.matches('?').count(), q.params.len() + 1);
}

#[test]
fn dry_run_reports_what_ingest_reports() {
    let config = IngestConfig::default();
    let sessions = vec![
        vec![message("a", "user", vec![text_part("text", "one"), text_part("text", " ")])],
        vec![message("b", "assistant", vec![]), message("c", "assistant", vec![text_part("reasoning", "r")])],
    ];
    let mut ingest_run = IngestProgress::new();
    let mut dry_run = IngestProgress::new();
    for s in &sessions {
        ingest_run.absorb_session(s, &config);
        dry_run.absorb_session(s, &config);
    }
    let stats = ingest_run.stats(false, 2, std::time::Duration::ZERO);
    let preview = dry_run.preview();
    assert_eq!(preview.sessions, stats.sessions_scanned);
    assert_eq!(preview.total_messages, stats.messages_scanned);
    assert_eq!(preview.estimated_memories, stats.memories_available);
    assert_eq!((stats.sessions_scanned, stats.messages_scanned, stats.memories_available), (2, 3, 2));
    assert_eq!(stats.messages_skipped, 1);
}
