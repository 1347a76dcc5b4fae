//! Session transcripts: appending, reading, compacting and clearing a
//! conversation history, and choosing a session backend by mode.

use vstd::prelude::*;
use crate::history::{trim_history, trimmed};
use crate::messages::{ConversationMessage, MessageView, duplicate_history, history_view};
use crate::text::{str_eq, to_string};

verus! {

/// Result of a compaction operation.
#[derive(Debug, Clone)]
pub struct CompactionResult {
    /// Number of messages that were removed.
    pub messages_removed: usize,
    /// Number of messages remaining after compaction.
    pub messages_remaining: usize,
}

/// Metadata about a session.
#[derive(Debug, Clone)]
pub struct SessionMetadata {
    /// Number of messages in the session.
    pub message_count: usize,
    /// Backend type name (e.g., "memory", "jsonl", "sqlite").
    pub backend: String,
}

/// A conversation transcript with a fixed identifier.
pub trait Session {
    spec fn spec_id(&self) -> Seq<char>;

    /// The messages of the transcript, in order.
    spec fn transcript(&self) -> Seq<MessageView>;

    /// The backend's name, as `metadata` reports it.
    spec fn spec_backend(&self) -> Seq<char>;

    /// Unique identifier for this session.
    fn id(&self) -> (r: &str)
        ensures
            r@ == self.spec_id(),
    ;

    /// Append a message to the session transcript.
    fn append(&mut self, message: ConversationMessage)
        ensures
            final(self).transcript() == old(self).transcript().push(message@),
            final(self).spec_id() == old(self).spec_id(),
            final(self).spec_backend() == old(self).spec_backend(),
    ;

    /// The full conversation history.
    fn history(&self) -> (r: Vec<ConversationMessage>)
        ensures
            history_view(r@) == self.transcript(),
    ;

    /// Compact the session by removing old messages, keeping `keep_recent`
    /// non-system messages plus all system messages; a transcript of at most
    /// `keep_recent` messages is left as it is.
    fn compact(&mut self, keep_recent: usize) -> (r: CompactionResult)
        ensures
            final(self).transcript() == trimmed(old(self).transcript(), keep_recent as nat),
            r.messages_remaining == final(self).transcript().len(),
            r.messages_removed == old(self).transcript().len() - final(self).transcript().len(),
            final(self).spec_id() == old(self).spec_id(),
            final(self).spec_backend() == old(self).spec_backend(),
    ;

    /// Clear all messages from the session.
    fn clear(&mut self)
        ensures
            final(self).transcript() == Seq::<MessageView>::empty(),
            final(self).spec_id() == old(self).spec_id(),
            final(self).spec_backend() == old(self).spec_backend(),
    ;

    /// Metadata about this session: its message count and backend name.
    fn metadata(&self) -> (r: SessionMetadata)
        ensures
            r.message_count == self.transcript().len(),
            r.backend@ == self.spec_backend(),
    ;
}

/// Ephemeral in-memory session.
pub struct InMemorySession {
    id: String,
    history: Vec<ConversationMessage>,
}

impl InMemorySession {
    /// An empty session with this identifier.
    pub fn new(id: &str) -> (r: InMemorySession)
        ensures
            r.spec_id() == id@,
            r.transcript() == Seq::<MessageView>::empty(),
            r.spec_backend() == "memory"@,
    {
        InMemorySession { id: to_string(id), history: Vec::new() }
    }
}

/// Drops old messages from `history` as `trimmed` states and reports how
/// many were removed and how many remain.
pub fn compact_history(history: &mut Vec<ConversationMessage>, keep_recent: usize) -> (r:
    CompactionResult)
    ensures
        history_view(final(history)@) == trimmed(history_view(old(history)@), keep_recent as nat),
        r.messages_remaining == final(history)@.len(),
        r.messages_removed == old(history)@.len() - final(history)@.len(),
{
    let length_before = history.len();
    trim_history(history, keep_recent);
    proof {
        crate::history::law_trim_keeps_system_and_bounds_dialogue(
            history_view(old(history)@),
            keep_recent as nat,
        );
    }
    let remaining = history.len();
    CompactionResult { messages_removed: length_before - remaining, messages_remaining: remaining }
}

impl Session for InMemorySession {
    closed spec fn spec_id(&self) -> Seq<char> {
        self.id@
    }

    closed spec fn transcript(&self) -> Seq<MessageView> {
        history_view(self.history@)
    }

    open spec fn spec_backend(&self) -> Seq<char> {
        "memory"@
    }

    fn id(&self) -> (r: &str) {
        self.id.as_str()
    }

    fn append(&mut self, message: ConversationMessage) {
        self.history.push(message);
        assert(history_view(self.history@) =~= history_view(old(self).history@).push(message@));
    }

    fn history(&self) -> (r: Vec<ConversationMessage>) {
        duplicate_history(&self.history)
    }

    fn compact(&mut self, keep_recent: usize) -> (r: CompactionResult) {
        compact_history(&mut self.history, keep_recent)
    }

    fn clear(&mut self) {
        self.history.clear();
        assert(history_view(self.history@) =~= Seq::<MessageView>::empty());
    }

    fn metadata(&self) -> (r: SessionMetadata) {
        SessionMetadata { message_count: self.history.len(), backend: to_string("memory") }
    }
}

/// Where a session keeps its transcript.
#[derive(Debug, Clone)]
pub enum SessionBackend {
    /// In memory, lost when the session is dropped.
    Memory,
    /// In the JSONL file `{dir}/{id}.jsonl`.
    Jsonl { dir: String },
}

/// The session to open: its identifier and its backend.
#[derive(Debug, Clone)]
pub struct SessionChoice {
    pub id: String,
    pub backend: SessionBackend,
}

impl SessionChoice {
    /// The identifier of the session to open.
    pub fn id(&self) -> (r: &str)
        ensures
            r@ == self.id@,
    {
        self.id.as_str()
    }
}

/// The directory a JSONL session uses: the given one, or "/tmp".
pub open spec fn jsonl_dir(path: Option<&str>) -> Seq<char> {
    match path {
        Some(p) => p@,
        None => "/tmp"@,
    }
}

/// Choose a session from a mode string: "jsonl" is a JSONL file-backed
/// session in `path` (or "/tmp" when no path is given); every other mode,
/// "memory" and "in-memory" among them, is an in-memory session.
pub fn create_session(mode: &str, id: &str, path: Option<&str>) -> (r: SessionChoice)
    ensures
        r.id@ == id@,
        mode@ == "jsonl"@ ==> (r.backend matches SessionBackend::Jsonl { dir } && dir@ == jsonl_dir(
            path,
        )),
        mode@ != "jsonl"@ ==> r.backend is Memory,
{
    proof {
        reveal_strlit("jsonl");
    }
    let backend = if str_eq(mode, "jsonl") {
        let dir = match path {
            Some(p) => to_string(p),
            None => to_string("/tmp"),
        };
        SessionBackend::Jsonl { dir }
    } else {
        SessionBackend::Memory
    };
    SessionChoice { id: to_string(id), backend }
}

/// Law: compaction never lengthens the history, and compacting again with
/// the same bound changes nothing.
pub proof fn law_compaction_shrinks_and_settles(h: Seq<MessageView>, keep_recent: nat)
    ensures
        trimmed(h, keep_recent).len() <= h.len(),
        trimmed(trimmed(h, keep_recent), keep_recent) == trimmed(h, keep_recent),
{
    crate::history::law_trim_keeps_system_and_bounds_dialogue(h, keep_recent);
    crate::history::law_trim_idempotent(h, keep_recent);
}

} // verus!
