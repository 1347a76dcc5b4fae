use agent_core::brain::{
    classify_model, create_brain, AgenticBrain, Brain, BrainInput, SimpleBrain, StopReason,
};
use agent_core::history::trim_history;
use agent_core::messages::{ChatMessage, ConversationMessage};

#[test]
fn agentic_brain_name() {
    let brain = AgenticBrain::new();
    assert_eq!(brain.name(), "agentic");
}

#[test]
fn simple_brain_name() {
    let brain = SimpleBrain::new();
    assert_eq!(brain.name(), "simple");
}

#[test]
fn agentic_brain_capabilities() {
    let brain = AgenticBrain::new();
    let caps = brain.capabilities();
    assert!(caps.supports_tool_calling);
    assert!(caps.supports_multi_turn);
}

#[test]
fn simple_brain_capabilities() {
    let brain = SimpleBrain::new();
    let caps = brain.capabilities();
    assert!(!caps.supports_tool_calling);
    assert!(!caps.supports_multi_turn);
}

#[test]
fn create_brain_agentic() {
    let brain = create_brain("agentic");
    assert_eq!(brain.name(), "agentic");
}

#[test]
fn create_brain_simple() {
    let brain = create_brain("simple");
    assert_eq!(brain.name(), "simple");
}

#[test]
fn create_brain_default_is_agentic() {
    let brain = create_brain("unknown");
    assert_eq!(brain.name(), "agentic");
}

#[test]
fn stop_reason_equality() {
    assert_eq!(StopReason::EndTurn, StopReason::EndTurn);
    assert_eq!(StopReason::MaxIterations, StopReason::MaxIterations);
    assert_ne!(StopReason::EndTurn, StopReason::MaxIterations);
}

#[test]
fn trim_history_preserves_system() {
    let mut history = vec![
        ConversationMessage::Chat(ChatMessage::system("sys")),
        ConversationMessage::Chat(ChatMessage::user("u1")),
        ConversationMessage::Chat(ChatMessage::assistant("a1")),
        ConversationMessage::Chat(ChatMessage::user("u2")),
        ConversationMessage::Chat(ChatMessage::assistant("a2")),
    ];
    trim_history(&mut history, 2);
    // System message preserved + last 2 non-system messages
    assert_eq!(history.len(), 3);
    match &history[0] {
        ConversationMessage::Chat(msg) => assert_eq!(msg.role, "system"),
        _ => panic!("expected system message"),
    }
}

fn content(m: &ConversationMessage) -> (String, String) {
    match m {
        ConversationMessage::Chat(c) => (c.role.clone(), c.content.clone()),
        _ => panic!("expected chat message"),
    }
}

#[test]
fn trim_history_keeps_last_dialogue_in_order() {
    let mut history = vec![
        ConversationMessage::Chat(ChatMessage::user("u1")),
        ConversationMessage::Chat(ChatMessage::system("s1")),
        ConversationMessage::Chat(ChatMessage::assistant("a1")),
        ConversationMessage::Chat(ChatMessage::user("u2")),
        ConversationMessage::Chat(ChatMessage::system("s2")),
        ConversationMessage::Chat(ChatMessage::assistant("a2")),
    ];
    trim_history(&mut history, 3);
    let got: Vec<(String, String)> = history.iter().map(content).collect();
    assert_eq!(
        got,
        vec![
            ("system".to_string(), "s1".to_string()),
            ("system".to_string(), "s2".to_string()),
            ("assistant".to_string(), "a1".to_string()),
            ("user".to_string(), "u2".to_string()),
            ("assistant".to_string(), "a2".to_string()),
        ]
    );
}

#[test]
fn trim_history_short_history_unchanged() {
    let mut history = vec![
        ConversationMessage::Chat(ChatMessage::user("u1")),
        ConversationMessage::Chat(ChatMessage::assistant("a1")),
    ];
    trim_history(&mut history, 2);
    assert_eq!(history.len(), 2);
    assert_eq!(content(&history[0]).1, "u1");
}

#[test]
fn trim_history_twice_is_trim_once() {
    let mut history = vec![
        ConversationMessage::Chat(ChatMessage::system("sys")),
        ConversationMessage::Chat(ChatMessage::user("u1")),
        ConversationMessage::Chat(ChatMessage::assistant("a1")),
        ConversationMessage::Chat(ChatMessage::user("u2")),
    ];
    trim_history(&mut history, 2);
    let once: Vec<(String, String)> = history.iter().map(content).collect();
    trim_history(&mut history, 2);
    let twice: Vec<(String, String)> = history.iter().map(content).collect();
    assert_eq!(once, twice);
    assert_eq!(once.len(), 3);
}

#[test]
fn trim_history_zero_keeps_only_system() {
    let mut history = vec![
        ConversationMessage::Chat(ChatMessage::user("u1")),
        ConversationMessage::Chat(ChatMessage::system("sys")),
    ];
    trim_history(&mut history, 0);
    assert_eq!(history.len(), 1);
    assert_eq!(content(&history[0]).0, "system");
}

#[test]
fn simple_brain_complete_turn_appends_exchange() {
    let brain = SimpleBrain::new();
    let input = BrainInput {
        message: "hello".to_string(),
        history: vec![ConversationMessage::Chat(ChatMessage::system("sys"))],
        system_prompt: None,
    };
    let out = brain.complete_turn(input, "hi there".to_string());
    assert_eq!(out.response, "hi there");
    assert_eq!(out.tool_calls_executed, 0);
    assert_eq!(out.stop_reason, StopReason::EndTurn);
    assert_eq!(out.history.len(), 3);
    assert_eq!(content(&out.history[1]), ("user".to_string(), "hello".to_string()));
    assert_eq!(content(&out.history[2]), ("assistant".to_string(), "hi there".to_string()));
}

#[test]
fn classify_model_uses_available_hint() {
    let hints = vec!["fast".to_string(), "reasoning".to_string()];
    assert_eq!(classify_model(&Some("reasoning".to_string()), &hints, "base"), "hint:reasoning");
}

#[test]
fn classify_model_falls_back_to_model() {
    let hints = vec!["fast".to_string()];
    assert_eq!(classify_model(&Some("slow".to_string()), &hints, "base"), "base");
    assert_eq!(classify_model(&None, &hints, "base"), "base");
}
