//! Turning the parts of an opencode message into memories.
use vstd::prelude::*;
use crate::config::IngestConfig;
use crate::db::{MessageInfo, PartInfo};
use crate::model::{
    inputs_view, Importance, MemoryInput, MemoryInputView, MemoryTrigger, MemoryType, TriggerView,
};
use crate::text::{
    byte_len, concat, concat3, is_white_space, join_strings, join_with, law_trim_strips_both_ends,
    lemma_chars_within_bytes, prefix_chars, prefix_string, str_eq, trim, trim_str, utf8_len,
};

verus! {

/// The characters of an optional string.
pub open spec fn opt_chars(o: Option<&str>) -> Option<Seq<char>> {
    match o {
        Some(s) => Some(s@),
        None => None,
    }
}

/// `content` when its UTF-8 encoding has at most `max_len` bytes; otherwise its
/// first `max_len` characters followed by the truncation marker.
pub open spec fn spec_truncate_content(content: Seq<char>, max_len: nat) -> Seq<char> {
    if utf8_len(content) <= max_len {
        content
    } else {
        prefix_chars(content, max_len) + "...[truncated]"@
    }
}

/// The importance given to a part, by role, part type, tool and content size.
pub open spec fn spec_classify_importance(
    role: Seq<char>,
    part_type: Seq<char>,
    tool_name: Option<Seq<char>>,
    content: Seq<char>,
) -> Importance {
    if part_type == "tool"@ && tool_name is Some {
        Importance::High
    } else if role == "user"@ {
        if utf8_len(content) > 200 {
            Importance::High
        } else {
            Importance::Medium
        }
    } else if part_type == "reasoning"@ {
        Importance::Medium
    } else {
        Importance::Low
    }
}

/// The trigger recorded for a part, by role and part type.
pub open spec fn spec_classify_trigger(role: Seq<char>, part_type: Seq<char>) -> TriggerView {
    if role == "user"@ && part_type == "text"@ {
        TriggerView::UserInput
    } else if role == "assistant"@ && part_type == "tool"@ {
        TriggerView::Decision
    } else if role == "assistant"@ && part_type == "reasoning"@ {
        TriggerView::Insight
    } else if role == "assistant"@ && part_type == "text"@ {
        TriggerView::SystemOutput
    } else {
        TriggerView::Custom("opencode_session"@)
    }
}

/// The label that opens a summary, by role and part type.
pub open spec fn summary_prefix(role: Seq<char>, part_type: Seq<char>) -> Seq<char> {
    if role == "user"@ && part_type == "text"@ {
        "User request"@
    } else if role == "assistant"@ && part_type == "tool"@ {
        "Tool call"@
    } else if role == "assistant"@ && part_type == "reasoning"@ {
        "Reasoning"@
    } else if role == "assistant"@ && part_type == "text"@ {
        "Response"@
    } else {
        "Message"@
    }
}

/// The summary of a part: the tool's name for a named assistant tool call,
/// otherwise a label and the first 80 characters of the content, with an
/// ellipsis when the content has more than 80 bytes.
pub open spec fn spec_generate_summary(
    role: Seq<char>,
    part_type: Seq<char>,
    tool_name: Option<Seq<char>>,
    content: Seq<char>,
) -> Seq<char> {
    if role == "assistant"@ && part_type == "tool"@ && tool_name is Some {
        "Tool: "@ + tool_name->0
    } else {
        let head = summary_prefix(role, part_type) + ": "@ + prefix_chars(content, 80);
        if utf8_len(content) > 80 {
            head + "..."@
        } else {
            head
        }
    }
}

/// The tags of a memory: the source, the role, and the tool when there is one.
pub open spec fn spec_tags(role: Seq<char>, tool_name: Option<Seq<char>>) -> Seq<Seq<char>> {
    let base = seq!["opencode"@, "role:"@ + role];
    match tool_name {
        Some(name) => base.push("tool:"@ + name),
        None => base,
    }
}

/// The memory built for a part with the given content.
pub open spec fn spec_build_input(
    message_id: Seq<char>,
    role: Seq<char>,
    part_type: Seq<char>,
    content: Seq<char>,
    tool_name: Option<Seq<char>>,
) -> MemoryInputView {
    MemoryInputView {
        content: content,
        summary: spec_generate_summary(role, part_type, tool_name, content),
        trigger: spec_classify_trigger(role, part_type),
        memory_type: MemoryType::Semantic,
        importance: spec_classify_importance(role, part_type, tool_name, content),
        tags: spec_tags(role, tool_name),
        namespace: "opencode"@,
        source_id: "opencode:"@ + message_id,
    }
}

/// The line naming the tool, when the part names one.
pub open spec fn name_section(part: PartInfo) -> Seq<Seq<char>> {
    match part.tool_name {
        Some(n) => seq!["["@ + n@ + "]"@],
        None => Seq::empty(),
    }
}

/// The line holding the tool's input, truncated, when the part records one.
pub open spec fn input_section(part: PartInfo, config: IngestConfig) -> Seq<Seq<char>> {
    match part.tool_input {
        Some(i) => seq!["Input: "@ + spec_truncate_content(i@, config.max_content_length as nat)],
        None => Seq::empty(),
    }
}

/// The line holding the tool's output, truncated, when the part records one
/// and outputs are included.
pub open spec fn output_section(part: PartInfo, config: IngestConfig) -> Seq<Seq<char>> {
    match part.tool_output {
        Some(o) => if config.include_tool_outputs {
            seq!["Output: "@ + spec_truncate_content(o@, config.max_content_length as nat)]
        } else {
            Seq::empty()
        },
        None => Seq::empty(),
    }
}

/// The line holding the tool's error, when the part records one and errors
/// are included.
pub open spec fn error_section(part: PartInfo, config: IngestConfig) -> Seq<Seq<char>> {
    match part.tool_error {
        Some(e) => if config.include_errors {
            seq!["Error: "@ + e@]
        } else {
            Seq::empty()
        },
        None => Seq::empty(),
    }
}

/// The lines describing a tool call, in this order: name, input, output, error.
pub open spec fn tool_sections(part: PartInfo, config: IngestConfig) -> Seq<Seq<char>> {
    name_section(part) + input_section(part, config) + output_section(part, config)
        + error_section(part, config)
}

/// The content kept of a part and the type it is recorded under, or `None`
/// when the part yields no memory.
pub open spec fn part_content(part: PartInfo, config: IngestConfig) -> Option<(Seq<char>, Seq<char>)> {
    let pt = part.part_type@;
    if pt == "text"@ || pt == "reasoning"@ {
        let text = trim(
            match part.text {
                Some(t) => t@,
                None => Seq::empty(),
            },
        );
        if pt == "reasoning"@ && !config.include_reasoning {
            None
        } else if text.len() == 0 {
            None
        } else {
            Some((text, pt))
        }
    } else if pt == "tool"@ {
        let sections = tool_sections(part, config);
        if !config.include_tool_outputs && !config.include_errors {
            None
        } else if part.is_compacted && !config.include_compacted {
            None
        } else if sections.len() == 0 {
            None
        } else {
            Some((join_with(sections, "\n"@), "tool"@))
        }
    } else {
        None
    }
}

/// The memory a part yields, if any.
pub open spec fn spec_transform_part(
    message_id: Seq<char>,
    role: Seq<char>,
    part: PartInfo,
    config: IngestConfig,
) -> Option<MemoryInputView> {
    match part_content(part, config) {
        Some((content, part_type)) => Some(
            spec_build_input(message_id, role, part_type, content, part.tool_name.deep_view()),
        ),
        None => None,
    }
}

/// The memories yielded by `parts`, in order.
pub open spec fn spec_transform_parts(
    message_id: Seq<char>,
    role: Seq<char>,
    parts: Seq<PartInfo>,
    config: IngestConfig,
) -> Seq<MemoryInputView>
    decreases parts.len(),
{
    if parts.len() == 0 {
        Seq::empty()
    } else {
        let earlier = spec_transform_parts(message_id, role, parts.drop_last(), config);
        match spec_transform_part(message_id, role, parts.last(), config) {
            Some(m) => earlier.push(m),
            None => earlier,
        }
    }
}

/// The memories a message yields: one for each of its parts that yields one.
pub open spec fn spec_transform_message(msg: MessageInfo, config: IngestConfig) -> Seq<MemoryInputView> {
    spec_transform_parts(msg.id@, msg.role@, msg.parts@, config)
}

/// Cuts `content` to `max_len` characters, with a marker, when its UTF-8
/// encoding is longer than `max_len` bytes.
pub fn truncate_content(content: &str, max_len: usize) -> (r: String)
    ensures
        r@ == spec_truncate_content(content@, max_len as nat),
{
    if byte_len(content) <= max_len {
        content.to_owned()
    } else {
        let head = prefix_string(content, max_len);
        let mut r = head;
        r.append("...[truncated]");
        r
    }
}

/// The importance of a part.
pub fn classify_importance(role: &str, part_type: &str, tool_name: Option<&str>, content: &str) -> (r:
    Importance)
    ensures
        r == spec_classify_importance(role@, part_type@, opt_chars(tool_name), content@),
{
    if str_eq(part_type, "tool") && tool_name.is_some() {
        return Importance::High;
    }
    if str_eq(role, "user") {
        if byte_len(content) > 200 {
            return Importance::High;
        }
        Importance::Medium
    } else if str_eq(part_type, "reasoning") {
        Importance::Medium
    } else {
        Importance::Low
    }
}

/// The trigger of a part.
pub fn classify_trigger(role: &str, part_type: &str) -> (r: MemoryTrigger)
    ensures
        r@ == spec_classify_trigger(role@, part_type@),
{
    let user = str_eq(role, "user");
    let assistant = str_eq(role, "assistant");
    let text = str_eq(part_type, "text");
    let tool = str_eq(part_type, "tool");
    let reasoning = str_eq(part_type, "reasoning");
    if user && text {
        MemoryTrigger::UserInput
    } else if assistant && tool {
        MemoryTrigger::Decision
    } else if assistant && reasoning {
        MemoryTrigger::Insight
    } else if assistant && text {
        MemoryTrigger::SystemOutput
    } else {
        MemoryTrigger::Custom("opencode_session".to_owned())
    }
}

/// The summary of a part.
pub fn generate_summary(role: &str, part_type: &str, tool_name: Option<&str>, content: &str) -> (r:
    String)
    ensures
        r@ == spec_generate_summary(role@, part_type@, opt_chars(tool_name), content@),
{
    let user = str_eq(role, "user");
    let assistant = str_eq(role, "assistant");
    let text = str_eq(part_type, "text");
    let tool = str_eq(part_type, "tool");
    let reasoning = str_eq(part_type, "reasoning");
    let prefix: &str = if user && text {
        "User request"
    } else if assistant && tool {
        match tool_name {
            Some(name) => {
                return concat("Tool: ", name);
            },
            None => "Tool call",
        }
    } else if assistant && reasoning {
        "Reasoning"
    } else if assistant && text {
        "Response"
    } else {
        "Message"
    };
    proof {
        reveal_strlit("user");
        reveal_strlit("assistant");
        assert("user"@.len() != "assistant"@.len());
    }
    let truncated = prefix_string(content, 80);
    let mut r = concat3(prefix, ": ", truncated.as_str());
    if byte_len(content) > 80 {
        r.append("...");
    }
    r
}

/// The memory built for a part with the given content.
fn build_input(
    message_id: &str,
    role: &str,
    part_type: &str,
    content: &str,
    tool_name: Option<&str>,
) -> (r: MemoryInput)
    ensures
        r@ == spec_build_input(message_id@, role@, part_type@, content@, opt_chars(tool_name)),
{
    let importance = classify_importance(role, part_type, tool_name, content);
    let trigger = classify_trigger(role, part_type);
    let summary = generate_summary(role, part_type, tool_name, content);
    let mut tags: Vec<String> = Vec::new();
    tags.push("opencode".to_owned());
    tags.push(concat("role:", role));
    match tool_name {
        Some(name) => tags.push(concat("tool:", name)),
        None => {},
    }
    assert(tags.deep_view() =~= spec_tags(role@, opt_chars(tool_name)));
    MemoryInput {
        content: content.to_owned(),
        summary,
        trigger,
        memory_type: MemoryType::Semantic,
        importance,
        tags,
        namespace: "opencode".to_owned(),
        source_id: concat("opencode:", message_id),
    }
}

} // verus!

verus! {

/// The memory a part yields: text and reasoning parts keep their trimmed text,
/// tool parts the lines describing the call; other parts, and parts the
/// configuration leaves out, yield none.
pub fn transform_part(message_id: &str, role: &str, part: &PartInfo, config: &IngestConfig) -> (r:
    Option<MemoryInput>)
    ensures
        match r {
            Some(m) => spec_transform_part(message_id@, role@, *part, *config) == Some(m@),
            None => spec_transform_part(message_id@, role@, *part, *config) is None,
        },
{
    let tool_name: Option<&str> = match &part.tool_name {
        Some(n) => Some(n.as_str()),
        None => None,
    };
    assert(opt_chars(tool_name) == part.tool_name.deep_view());
    let pt = part.part_type.as_str();
    let is_text = str_eq(pt, "text");
    let is_reasoning = str_eq(pt, "reasoning");
    if is_text || is_reasoning {
        if is_reasoning && !config.include_reasoning {
            return None;
        }
        let raw: &str = match &part.text {
            Some(t) => t.as_str(),
            None => "",
        };
        proof {
            reveal_strlit("");
        }
        let text = trim_str(raw);
        if text.unicode_len() == 0 {
            return None;
        }
        Some(build_input(message_id, role, pt, text, tool_name))
    } else if str_eq(pt, "tool") {
        if !config.include_tool_outputs && !config.include_errors {
            return None;
        }
        if part.is_compacted && !config.include_compacted {
            return None;
        }
        let mut sections: Vec<String> = Vec::new();
        match &part.tool_name {
            Some(name) => sections.push(concat3("[", name.as_str(), "]")),
            None => {},
        }
        let ghost s1 = sections.deep_view();
        match &part.tool_input {
            Some(input) => {
                let t = truncate_content(input.as_str(), config.max_content_length);
                sections.push(concat("Input: ", t.as_str()));
            },
            None => {},
        }
        let ghost s2 = sections.deep_view();
        match &part.tool_output {
            Some(output) => {
                if config.include_tool_outputs {
                    let t = truncate_content(output.as_str(), config.max_content_length);
                    sections.push(concat("Output: ", t.as_str()));
                }
            },
            None => {},
        }
        let ghost s3 = sections.deep_view();
        match &part.tool_error {
            Some(error) => {
                if config.include_errors {
                    sections.push(concat("Error: ", error.as_str()));
                }
            },
            None => {},
        }
        proof {
            assert(s1 =~= name_section(*part));
            assert(s2 =~= name_section(*part) + input_section(*part, *config));
            assert(s3 =~= name_section(*part) + input_section(*part, *config) + output_section(
                *part,
                *config,
            ));
            assert(sections.deep_view() =~= tool_sections(*part, *config));
        }
        if sections.len() == 0 {
            return None;
        }
        let content = join_strings(&sections, "\n");
        Some(build_input(message_id, role, "tool", content.as_str(), tool_name))
    } else {
        None
    }
}

/// The memories a message yields, in the order of its parts.
pub fn transform_message(msg: &MessageInfo, config: &IngestConfig) -> (r: Vec<MemoryInput>)
    ensures
        inputs_view(r@) == spec_transform_message(*msg, *config),
{
    let mut items: Vec<MemoryInput> = Vec::new();
    let n = msg.parts.len();
    let ghost parts = msg.parts@;
    let mut i: usize = 0;
    assert(parts.take(0) =~= Seq::<PartInfo>::empty());
    assert(inputs_view(items@) =~= Seq::<MemoryInputView>::empty());
    while i < n
        invariant
            n == msg.parts@.len(),
            parts == msg.parts@,
            i <= n,
            inputs_view(items@) == spec_transform_parts(msg.id@, msg.role@, parts.take(i as int), *config),
        decreases n - i,
    {
        let part = &msg.parts[i];
        let produced = transform_part(msg.id.as_str(), msg.role.as_str(), part, config);
        proof {
            assert(parts.take(i + 1).drop_last() =~= parts.take(i as int));
            assert(parts.take(i + 1).last() == parts[i as int]);
        }
        let ghost before = items@;
        match produced {
            Some(m) => {
                items.push(m);
                assert(inputs_view(items@) =~= inputs_view(before).push(m@));
            },
            None => {},
        }
        i += 1;
    }
    assert(parts.take(n as int) =~= parts);
    items
}

} // verus!

verus! {

/// Truncation keeps at most `max_len` characters of the content and adds the
/// 14-character marker; what it keeps is the start of the content.
pub proof fn law_truncation_bound(content: Seq<char>, max_len: nat)
    ensures
        spec_truncate_content(content, max_len).len() <= max_len + 14,
        spec_truncate_content(content, max_len).len() <= content.len() + 14,
        ({
            let kept = if max_len <= content.len() { max_len } else { content.len() };
            spec_truncate_content(content, max_len).take(kept as int) =~= content.take(kept as int)
        }),
{
    reveal_strlit("...[truncated]");
    lemma_chars_within_bytes(content);
}

/// A message never yields more memories than it has parts.
pub proof fn law_at_most_one_memory_per_part(msg: MessageInfo, config: IngestConfig)
    ensures
        spec_transform_message(msg, config).len() <= msg.parts@.len(),
{
    lemma_parts_bounded(msg.id@, msg.role@, msg.parts@, config);
}

proof fn lemma_parts_bounded(
    message_id: Seq<char>,
    role: Seq<char>,
    parts: Seq<PartInfo>,
    config: IngestConfig,
)
    ensures
        spec_transform_parts(message_id, role, parts, config).len() <= parts.len(),
    decreases parts.len(),
{
    if parts.len() > 0 {
        lemma_parts_bounded(message_id, role, parts.drop_last(), config);
    }
}

/// Whether a memory is labelled as coming from the given opencode message.
pub open spec fn labelled_from(m: MemoryInputView, message_id: Seq<char>, role: Seq<char>) -> bool {
    &&& m.source_id == "opencode:"@ + message_id
    &&& m.namespace == "opencode"@
    &&& m.memory_type == MemoryType::Semantic
    &&& m.tags.len() >= 2
    &&& m.tags[0] == "opencode"@
    &&& m.tags[1] == "role:"@ + role
}

/// Every memory a message yields is labelled with the message's id and role
/// and filed under the opencode namespace.
pub proof fn law_memories_name_their_message(msg: MessageInfo, config: IngestConfig)
    ensures
        forall|i: int|
            0 <= i < spec_transform_message(msg, config).len() ==> labelled_from(
                #[trigger] spec_transform_message(msg, config)[i],
                msg.id@,
                msg.role@,
            ),
{
    lemma_parts_labelled(msg.id@, msg.role@, msg.parts@, config);
}

proof fn lemma_parts_labelled(
    message_id: Seq<char>,
    role: Seq<char>,
    parts: Seq<PartInfo>,
    config: IngestConfig,
)
    ensures
        forall|i: int|
            0 <= i < spec_transform_parts(message_id, role, parts, config).len() ==> labelled_from(
                #[trigger] spec_transform_parts(message_id, role, parts, config)[i],
                message_id,
                role,
            ),
    decreases parts.len(),
{
    if parts.len() > 0 {
        lemma_parts_labelled(message_id, role, parts.drop_last(), config);
        let earlier = spec_transform_parts(message_id, role, parts.drop_last(), config);
        match spec_transform_part(message_id, role, parts.last(), config) {
            Some(m) => {
                let tool = parts.last().tool_name.deep_view();
                let tags = spec_tags(role, tool);
                assert(tags[0] == "opencode"@ && tags[1] == "role:"@ + role);
                assert(labelled_from(m, message_id, role));
                assert forall|i: int| 0 <= i < earlier.push(m).len() implies labelled_from(
                    #[trigger] earlier.push(m)[i],
                    message_id,
                    role,
                ) by {
                    if i < earlier.len() {
                        assert(earlier.push(m)[i] == earlier[i]);
                    }
                }
            },
            None => {},
        }
    }
}

/// A text or reasoning part that yields a memory stores its text without
/// surrounding white space, and never an empty one.
pub proof fn law_text_memories_are_trimmed(
    message_id: Seq<char>,
    role: Seq<char>,
    part: PartInfo,
    config: IngestConfig,
)
    requires
        part.part_type@ == "text"@ || part.part_type@ == "reasoning"@,
        spec_transform_part(message_id, role, part, config) is Some,
    ensures
        ({
            let m = spec_transform_part(message_id, role, part, config)->0;
            &&& m.content.len() > 0
            &&& !is_white_space(m.content[0])
            &&& !is_white_space(m.content.last())
            &&& m.content == trim(
                match part.text {
                    Some(t) => t@,
                    None => Seq::empty(),
                },
            )
        }),
{
    law_trim_strips_both_ends(
        match part.text {
            Some(t) => t@,
            None => Seq::empty(),
        },
    );
}

} // verus!

verus! {

/// Importance by the rules: a named tool call is High; a user message is
/// High when its content has more than 200 bytes and Medium otherwise; any
/// other role gives Medium for reasoning and Low for everything else, and
/// for those the content plays no part.
pub proof fn law_importance_rules(
    role: Seq<char>,
    part_type: Seq<char>,
    tool_name: Option<Seq<char>>,
    content: Seq<char>,
    other_content: Seq<char>,
)
    ensures
        part_type == "tool"@ && tool_name is Some ==> spec_classify_importance(
            role,
            part_type,
            tool_name,
            content,
        ) == Importance::High,
        !(part_type == "tool"@ && tool_name is Some) && role == "user"@ ==> spec_classify_importance(
            role,
            part_type,
            tool_name,
            content,
        ) == (if utf8_len(content) > 200 {
            Importance::High
        } else {
            Importance::Medium
        }),
        !(part_type == "tool"@ && tool_name is Some) && role != "user"@ ==> {
            &&& spec_classify_importance(role, part_type, tool_name, content)
                == spec_classify_importance(role, part_type, tool_name, other_content)
            &&& spec_classify_importance(role, part_type, tool_name, content) == (if part_type
                == "reasoning"@ {
                Importance::Medium
            } else {
                Importance::Low
            })
        },
{
}

/// Unless the part is a named assistant tool call, a summary is the label for
/// the role and part type, `": "`, the first 80 characters of the content (all
/// of it when shorter), and `"..."` exactly when the content has more than 80
/// bytes. A named assistant tool call is summarised as `"Tool: "` and the name.
pub proof fn law_summary_shape(
    role: Seq<char>,
    part_type: Seq<char>,
    tool_name: Option<Seq<char>>,
    content: Seq<char>,
)
    ensures
        role == "assistant"@ && part_type == "tool"@ && tool_name is Some ==> spec_generate_summary(
            role,
            part_type,
            tool_name,
            content,
        ) == "Tool: "@ + tool_name->0,
        !(role == "assistant"@ && part_type == "tool"@ && tool_name is Some) ==> ({
            let s = spec_generate_summary(role, part_type, tool_name, content);
            let label = summary_prefix(role, part_type);
            let k: int = if content.len() < 80 {
                content.len() as int
            } else {
                80
            };
            &&& s.len() == label.len() + 2 + k + (if utf8_len(content) > 80 {
                3int
            } else {
                0int
            })
            &&& s.take(label.len() + 2 + k) == label + ": "@ + content.take(k)
            &&& utf8_len(content) > 80 ==> s.skip(label.len() + 2 + k) == "..."@
        }),
{
    reveal_strlit(": ");
    reveal_strlit("...");
    if !(role == "assistant"@ && part_type == "tool"@ && tool_name is Some) {
        let s = spec_generate_summary(role, part_type, tool_name, content);
        let label = summary_prefix(role, part_type);
        let k: int = if content.len() < 80 {
            content.len() as int
        } else {
            80
        };
        let head = label + ": "@ + prefix_chars(content, 80);
        assert(prefix_chars(content, 80) =~= content.take(k));
        assert(head.len() == label.len() + 2 + k);
        assert(s.take(label.len() + 2 + k) =~= head);
        if utf8_len(content) > 80 {
            assert(s.skip(label.len() + 2 + k) =~= "..."@);
        }
    }
}

/// With errors left out, a part's tool error plays no part in the memory it
/// yields; with outputs left out, neither does its tool output.
pub proof fn law_excluded_sections_ignored(
    message_id: Seq<char>,
    role: Seq<char>,
    part: PartInfo,
    config: IngestConfig,
)
    ensures
        !config.include_errors ==> spec_transform_part(message_id, role, part, config)
            == spec_transform_part(message_id, role, PartInfo { tool_error: None, ..part }, config),
        !config.include_tool_outputs ==> spec_transform_part(message_id, role, part, config)
            == spec_transform_part(message_id, role, PartInfo { tool_output: None, ..part }, config),
{
    let no_error = PartInfo { tool_error: None, ..part };
    let no_output = PartInfo { tool_output: None, ..part };
    if !config.include_errors {
        assert(tool_sections(part, config) =~= tool_sections(no_error, config));
        assert(part_content(part, config) == part_content(no_error, config));
    }
    if !config.include_tool_outputs {
        assert(tool_sections(part, config) =~= tool_sections(no_output, config));
        assert(part_content(part, config) == part_content(no_output, config));
    }
}

/// A tool part whose error is included ends its content with the line
/// `"Error: "` and the error; one whose output is included and which has no
/// error line has its truncated output as the last line.
pub proof fn law_included_error_is_last_line(
    message_id: Seq<char>,
    role: Seq<char>,
    part: PartInfo,
    config: IngestConfig,
)
    requires
        part.part_type@ == "tool"@,
        config.include_errors,
        part.tool_error is Some,
        !(part.is_compacted && !config.include_compacted),
    ensures
        spec_transform_part(message_id, role, part, config) is Some,
        tool_sections(part, config).last() == "Error: "@ + part.tool_error->0@,
{
    reveal_strlit("tool");
    reveal_strlit("text");
    reveal_strlit("reasoning");
    assert("tool"@ != "text"@ && "tool"@ != "reasoning"@) by {
        assert("tool"@[1] != "text"@[1]);
        assert("tool"@.len() != "reasoning"@.len());
    }
}

} // verus!
