//! The memory records that ingestion hands to the memory engine.
use vstd::prelude::*;

verus! {

/// How much weight a memory carries.
#[derive(Debug, Clone, Copy, PartialEq, Eq, Structural)]
pub enum Importance {
    Low,
    Medium,
    High,
}

/// The kind of store a memory belongs to.
#[derive(Debug, Clone, Copy, PartialEq, Eq, Structural)]
pub enum MemoryType {
    Semantic,
    Episodic,
    Graph,
    Temporal,
}

/// What caused a memory to be recorded.
#[derive(Debug, Clone)]
pub enum MemoryTrigger {
    UserInput,
    Decision,
    Insight,
    SystemOutput,
    Custom(String),
}

/// The view of a [`MemoryTrigger`], with the custom label as characters.
pub enum TriggerView {
    UserInput,
    Decision,
    Insight,
    SystemOutput,
    Custom(Seq<char>),
}

impl View for MemoryTrigger {
    type V = TriggerView;

    open spec fn view(&self) -> TriggerView {
        match self {
            MemoryTrigger::UserInput => TriggerView::UserInput,
            MemoryTrigger::Decision => TriggerView::Decision,
            MemoryTrigger::Insight => TriggerView::Insight,
            MemoryTrigger::SystemOutput => TriggerView::SystemOutput,
            MemoryTrigger::Custom(label) => TriggerView::Custom(label@),
        }
    }
}

/// A memory ready to be stored: verbatim content, its summary and its labels.
#[derive(Debug, Clone)]
pub struct MemoryInput {
    pub content: String,
    pub summary: String,
    pub trigger: MemoryTrigger,
    pub memory_type: MemoryType,
    pub importance: Importance,
    pub tags: Vec<String>,
    pub namespace: String,
    pub source_id: String,
}

/// The view of a [`MemoryInput`]: every text as its characters.
#[verifier::ext_equal]
pub struct MemoryInputView {
    pub content: Seq<char>,
    pub summary: Seq<char>,
    pub trigger: TriggerView,
    pub memory_type: MemoryType,
    pub importance: Importance,
    pub tags: Seq<Seq<char>>,
    pub namespace: Seq<char>,
    pub source_id: Seq<char>,
}

impl View for MemoryInput {
    type V = MemoryInputView;

    open spec fn view(&self) -> MemoryInputView {
        MemoryInputView {
            content: self.content@,
            summary: self.summary@,
            trigger: self.trigger@,
            memory_type: self.memory_type,
            importance: self.importance,
            tags: self.tags.deep_view(),
            namespace: self.namespace@,
            source_id: self.source_id@,
        }
    }
}

/// The views of a sequence of memories.
pub open spec fn inputs_view(items: Seq<MemoryInput>) -> Seq<MemoryInputView> {
    items.map_values(|m: MemoryInput| m@)
}

} // verus!
