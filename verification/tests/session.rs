use agent_core::messages::{ChatMessage, ConversationMessage};
use agent_core::session::{
    create_session, CompactionResult, InMemorySession, Session, SessionBackend, SessionMetadata,
};

#[test]
fn in_memory_session_append_and_history() {
    let mut session = InMemorySession::new("test-session");
    assert_eq!(session.id(), "test-session");

    session.append(ConversationMessage::Chat(ChatMessage::user("hello")));
    session.append(ConversationMessage::Chat(ChatMessage::assistant("hi")));

    let history = session.history();
    assert_eq!(history.len(), 2);
}

#[test]
fn in_memory_session_clear() {
    let mut session = InMemorySession::new("test");
    session.append(ConversationMessage::Chat(ChatMessage::user("hello")));
    session.clear();
    assert!(session.history().is_empty());
}

#[test]
fn in_memory_session_compact() {
    let mut session = InMemorySession::new("test");
    session.append(ConversationMessage::Chat(ChatMessage::system("sys")));
    for i in 0..5 {
        session.append(ConversationMessage::Chat(ChatMessage::user(&format!("msg {i}"))));
    }

    let result = session.compact(2);
    assert_eq!(result.messages_removed, 3);
    assert_eq!(result.messages_remaining, 3); // 1 system + 2 recent

    let history = session.history();
    assert_eq!(history.len(), 3);
    match &history[0] {
        ConversationMessage::Chat(msg) => assert_eq!(msg.role, "system"),
        _ => panic!("expected system message"),
    }
}

#[test]
fn in_memory_session_metadata() {
    let mut session = InMemorySession::new("test");
    session.append(ConversationMessage::Chat(ChatMessage::user("hi")));
    let meta = session.metadata();
    assert_eq!(meta.message_count, 1);
    assert_eq!(meta.backend, "memory");
}

#[test]
fn create_session_memory() {
    let session = create_session("memory", "test", None);
    assert_eq!(session.id(), "test");
}

#[test]
fn create_session_jsonl() {
    let session = create_session("jsonl", "test", Some("/var/sessions"));
    assert_eq!(session.id(), "test");
}

#[test]
fn create_session_default() {
    let session = create_session("unknown", "test", None);
    assert_eq!(session.id(), "test");
}

#[test]
fn compaction_result_debug() {
    let result = CompactionResult { messages_removed: 5, messages_remaining: 10 };
    let debug = format!("{result:?}");
    assert!(debug.contains("messages_removed: 5"));
    assert!(debug.contains("messages_remaining: 10"));
}

#[test]
fn session_metadata_debug() {
    let meta = SessionMetadata { message_count: 42, backend: "memory".to_string() };
    let debug = format!("{meta:?}");
    assert!(debug.contains("message_count: 42"));
    assert!(debug.contains("memory"));
}

#[test]
fn create_session_backends() {
    match create_session("jsonl", "s1", Some("/var/sessions")).backend {
        SessionBackend::Jsonl { dir } => assert_eq!(dir, "/var/sessions"),
        _ => panic!("expected a jsonl session"),
    }
    match create_session("jsonl", "s1", None).backend {
        SessionBackend::Jsonl { dir } => assert_eq!(dir, "/tmp"),
        _ => panic!("expected a jsonl session"),
    }
    assert!(matches!(create_session("in-memory", "s1", None).backend, SessionBackend::Memory));
    assert!(matches!(create_session("JSONL", "s1", None).backend, SessionBackend::Memory));
}

#[test]
fn compact_short_transcript_removes_nothing() {
    let mut session = InMemorySession::new("t");
    session.append(ConversationMessage::Chat(ChatMessage::user("a")));
    session.append(ConversationMessage::Chat(ChatMessage::user("b")));
    let result = session.compact(2);
    assert_eq!(result.messages_removed, 0);
    assert_eq!(result.messages_remaining, 2);
}

#[test]
fn compact_twice_removes_nothing_more() {
    let mut session = InMemorySession::new("t");
    session.append(ConversationMessage::Chat(ChatMessage::system("sys")));
    for i in 0..4 {
        session.append(ConversationMessage::Chat(ChatMessage::user(&format!("m{i}"))));
    }
    let first = session.compact(1);
    assert_eq!(first.messages_removed, 3);
    let second = session.compact(1);
    assert_eq!(second.messages_removed, 0);
    assert_eq!(second.messages_remaining, 2);
    match &session.history()[1] {
        ConversationMessage::Chat(msg) => assert_eq!(msg.content, "m3"),
        _ => panic!("expected chat message"),
    }
}

#[test]
fn history_returns_a_copy() {
    let mut session = InMemorySession::new("t");
    session.append(ConversationMessage::Chat(ChatMessage::user("a")));
    let mut copy = session.history();
    copy.clear();
    assert_eq!(session.history().len(), 1);
}
