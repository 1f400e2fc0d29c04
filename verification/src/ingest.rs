//! Tallying an ingestion: what was scanned, skipped, and produced.
use vstd::prelude::*;
use crate::config::IngestConfig;
use crate::db::MessageInfo;
use crate::model::{inputs_view, MemoryInput, MemoryInputView};
use crate::transform::{spec_transform_message, transform_message};

verus! {

/// The memories the messages of a session yield, message after message.
pub open spec fn spec_session_memories(messages: Seq<MessageInfo>, config: IngestConfig) -> Seq<
    MemoryInputView,
>
    decreases messages.len(),
{
    if messages.len() == 0 {
        Seq::empty()
    } else {
        spec_session_memories(messages.drop_last(), config) + spec_transform_message(
            messages.last(),
            config,
        )
    }
}

/// How many of `messages` yield no memory at all.
pub open spec fn spec_skipped_messages(messages: Seq<MessageInfo>, config: IngestConfig) -> nat
    decreases messages.len(),
{
    if messages.len() == 0 {
        0
    } else {
        spec_skipped_messages(messages.drop_last(), config) + if spec_transform_message(
            messages.last(),
            config,
        ).len() == 0 {
            1nat
        } else {
            0nat
        }
    }
}

/// No more messages are skipped than scanned, and every message that is not
/// skipped yields at least one memory.
pub proof fn law_skips_and_yield(messages: Seq<MessageInfo>, config: IngestConfig)
    ensures
        spec_skipped_messages(messages, config) <= messages.len(),
        spec_session_memories(messages, config).len() + spec_skipped_messages(messages, config)
            >= messages.len(),
    decreases messages.len(),
{
    if messages.len() > 0 {
        law_skips_and_yield(messages.drop_last(), config);
    }
}

/// Counts reported for a finished ingestion.
#[derive(Debug, Clone, Copy)]
pub struct IngestStats {
    pub sessions_scanned: usize,
    pub messages_scanned: usize,
    pub messages_skipped: usize,
    pub memories_ingested: usize,
    pub memories_available: usize,
    pub checkpoints_created: usize,
    pub elapsed: std::time::Duration,
}

/// Counts reported by a dry run.
#[derive(Debug, Clone, Copy)]
pub struct IngestPreview {
    pub sessions: usize,
    pub total_messages: usize,
    pub estimated_memories: usize,
}

/// The abstract state of an ingestion in progress.
#[verifier::ext_equal]
pub struct ProgressView {
    pub sessions: nat,
    pub messages: nat,
    pub skipped: nat,
    pub items: Seq<MemoryInputView>,
}

/// The state after adding one session, with `messages`, to `v`.
pub open spec fn run_step(v: ProgressView, messages: Seq<MessageInfo>, config: IngestConfig) -> ProgressView {
    ProgressView {
        sessions: v.sessions + 1,
        messages: v.messages + messages.len(),
        skipped: v.skipped + spec_skipped_messages(messages, config),
        items: v.items + spec_session_memories(messages, config),
    }
}

/// The state of an ingestion, started from nothing, that has added
/// `sessions` in order.
pub open spec fn run_view(sessions: Seq<Seq<MessageInfo>>, config: IngestConfig) -> ProgressView
    decreases sessions.len(),
{
    if sessions.len() == 0 {
        ProgressView { sessions: 0, messages: 0, skipped: 0, items: Seq::empty() }
    } else {
        run_step(run_view(sessions.drop_last(), config), sessions.last(), config)
    }
}

/// All the messages of `sessions`, session after session.
pub open spec fn all_messages(sessions: Seq<Seq<MessageInfo>>) -> Seq<MessageInfo>
    decreases sessions.len(),
{
    if sessions.len() == 0 {
        Seq::empty()
    } else {
        all_messages(sessions.drop_last()) + sessions.last()
    }
}

/// An ingestion and a dry run over the same sessions with the same
/// configuration go through the same states (`new`, then `absorb_session`
/// per session, give [`run_view`]), so they report the same counts: the
/// sessions scanned, every message of every session, and the memories those
/// messages yield. Neither count of skips exceeds the messages, and each
/// message not skipped yields a memory.
pub proof fn law_dry_run_matches_ingest(sessions: Seq<Seq<MessageInfo>>, config: IngestConfig)
    ensures
        run_view(sessions, config).sessions == sessions.len(),
        run_view(sessions, config).messages == all_messages(sessions).len(),
        run_view(sessions, config).skipped == spec_skipped_messages(all_messages(sessions), config),
        run_view(sessions, config).items == spec_session_memories(all_messages(sessions), config),
        run_view(sessions, config).skipped <= run_view(sessions, config).messages,
        run_view(sessions, config).items.len() + run_view(sessions, config).skipped
            >= run_view(sessions, config).messages,
    decreases sessions.len(),
{
    if sessions.len() > 0 {
        let earlier = sessions.drop_last();
        law_dry_run_matches_ingest(earlier, config);
        lemma_session_concat(all_messages(earlier), sessions.last(), config);
    }
    law_skips_and_yield(all_messages(sessions), config);
}

proof fn lemma_session_concat(a: Seq<MessageInfo>, b: Seq<MessageInfo>, config: IngestConfig)
    ensures
        spec_skipped_messages(a + b, config) == spec_skipped_messages(a, config)
            + spec_skipped_messages(b, config),
        spec_session_memories(a + b, config) == spec_session_memories(a, config)
            + spec_session_memories(b, config),
    decreases b.len(),
{
    if b.len() == 0 {
        assert(a + b =~= a);
        assert(spec_session_memories(a, config) + Seq::<MemoryInputView>::empty() =~= spec_session_memories(a, config));
    } else {
        lemma_session_concat(a, b.drop_last(), config);
        assert((a + b).drop_last() =~= a + b.drop_last());
        assert(spec_session_memories(a + b, config) =~= spec_session_memories(a, config)
            + spec_session_memories(b, config));
    }
}

/// An ingestion in progress: the sessions and messages scanned so far and the
/// memories they yielded.
pub struct IngestProgress {
    sessions_scanned: usize,
    messages_scanned: usize,
    messages_skipped: usize,
    items: Vec<MemoryInput>,
}

impl View for IngestProgress {
    type V = ProgressView;

    closed spec fn view(&self) -> ProgressView {
        ProgressView {
            sessions: self.sessions_scanned as nat,
            messages: self.messages_scanned as nat,
            skipped: self.messages_skipped as nat,
            items: inputs_view(self.items@),
        }
    }
}

impl IngestProgress {
    /// No more messages were skipped than scanned, and every scanned message
    /// that was not skipped yielded at least one memory.
    #[verifier::type_invariant]
    closed spec fn counts_consistent(self) -> bool {
        &&& self.messages_skipped <= self.messages_scanned
        &&& self.items@.len() + self.messages_skipped >= self.messages_scanned
    }

    /// Nothing scanned yet.
    pub fn new() -> (r: Self)
        ensures
            r@.sessions == 0,
            r@.messages == 0,
            r@.skipped == 0,
            r@.items == Seq::<MemoryInputView>::empty(),
            forall|c: IngestConfig| #[trigger] run_view(Seq::empty(), c) == r@,
    {
        let r = IngestProgress {
            sessions_scanned: 0,
            messages_scanned: 0,
            messages_skipped: 0,
            items: Vec::new(),
        };
        assert(inputs_view(r.items@) =~= Seq::<MemoryInputView>::empty());
        r
    }

    /// Adds one session: each of its messages is scanned, transformed, and
    /// counted as skipped when it yields no memory.
    pub fn absorb_session(&mut self, messages: &Vec<MessageInfo>, config: &IngestConfig)
        requires
            old(self)@.sessions < usize::MAX,
            old(self)@.messages + messages@.len() <= usize::MAX,
        ensures
            final(self)@.sessions == old(self)@.sessions + 1,
            final(self)@.messages == old(self)@.messages + messages@.len(),
            final(self)@.skipped == old(self)@.skipped + spec_skipped_messages(messages@, *config),
            final(self)@.items == old(self)@.items + spec_session_memories(messages@, *config),
            final(self)@.skipped <= final(self)@.messages,
            final(self)@.items.len() + final(self)@.skipped >= final(self)@.messages,
            final(self)@ == run_step(old(self)@, messages@, *config),
    {
        proof {
            use_type_invariant(&*self);
        }
        let n = messages.len();
        let ghost start = *self;
        let ghost msgs = messages@;
        let mut taken = IngestProgress::new();
        std::mem::swap(self, &mut taken);
        let IngestProgress {
            sessions_scanned,
            messages_scanned: mut scanned,
            messages_skipped: mut skipped,
            mut items,
        } = taken;
        let mut i: usize = 0;
        assert(msgs.take(0) =~= Seq::<MessageInfo>::empty());
        assert(inputs_view(items@) =~= start@.items + spec_session_memories(msgs.take(0), *config));
        while i < n
            invariant
                n == messages@.len(),
                msgs == messages@,
                i <= n,
                start@.messages + n <= usize::MAX,
                start.messages_skipped <= start.messages_scanned,
                scanned == start@.messages + i,
                skipped == start@.skipped + spec_skipped_messages(msgs.take(i as int), *config),
                skipped <= scanned,
                items@.len() + skipped >= scanned,
                inputs_view(items@) == start@.items + spec_session_memories(msgs.take(i as int), *config),
            decreases n - i,
        {
            let produced = transform_message(&messages[i], config);
            proof {
                assert(msgs.take(i + 1).drop_last() =~= msgs.take(i as int));
                assert(msgs.take(i + 1).last() == msgs[i as int]);
            }
            scanned = scanned + 1;
            if produced.len() == 0 {
                skipped = skipped + 1;
            }
            let ghost before = items@;
            let mut produced = produced;
            items.append(&mut produced);
            assert(inputs_view(items@) =~= inputs_view(before) + spec_transform_message(
                msgs[i as int],
                *config,
            ));
            i += 1;
        }
        assert(msgs.take(n as int) =~= msgs);
        *self = IngestProgress {
            sessions_scanned: sessions_scanned + 1,
            messages_scanned: scanned,
            messages_skipped: skipped,
            items,
        };
    }

    /// The memories gathered so far, in the order they were yielded.
    pub fn items(&self) -> (r: &Vec<MemoryInput>)
        ensures
            inputs_view(r@) == self@.items,
    {
        &self.items
    }

    /// The memories an ingestion hands to the memory engine: all of them,
    /// or none on a dry run, which stores nothing.
    pub fn batch(&self, dry_run: bool) -> (r: Option<&Vec<MemoryInput>>)
        ensures
            match r {
                Some(items) => !dry_run && inputs_view(items@) == self@.items,
                None => dry_run,
            },
    {
        if dry_run {
            None
        } else {
            Some(&self.items)
        }
    }

    /// The report of an ingestion that stored `stored` memories (none for a dry run).
    pub fn stats(&self, dry_run: bool, stored: usize, elapsed: std::time::Duration) -> (r: IngestStats)
        ensures
            r.sessions_scanned == self@.sessions,
            r.messages_scanned == self@.messages,
            r.messages_skipped == self@.skipped,
            r.memories_ingested == (if dry_run { 0 } else { stored }),
            r.memories_available == self@.items.len(),
            r.checkpoints_created == 0,
            r.elapsed == elapsed,
            r.messages_skipped <= r.messages_scanned,
            r.memories_available + r.messages_skipped >= r.messages_scanned,
    {
        proof {
            use_type_invariant(self);
        }
        IngestStats {
            sessions_scanned: self.sessions_scanned,
            messages_scanned: self.messages_scanned,
            messages_skipped: self.messages_skipped,
            memories_ingested: if dry_run {
                0
            } else {
                stored
            },
            memories_available: self.items.len(),
            checkpoints_created: 0,
            elapsed,
        }
    }

    /// The report of a dry run over what was scanned.
    pub fn preview(&self) -> (r: IngestPreview)
        ensures
            r.sessions == self@.sessions,
            r.total_messages == self@.messages,
            r.estimated_memories == self@.items.len(),
    {
        IngestPreview {
            sessions: self.sessions_scanned,
            total_messages: self.messages_scanned,
            estimated_memories: self.items.len(),
        }
    }
}

} // verus!
