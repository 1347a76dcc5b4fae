use agent_core::brain::{BrainInput, StopReason};
use agent_core::messages::{ChatMessage, ConversationMessage, ToolCall, ToolResultMessage};
use agent_core::turn::{
    AgenticTurn, ParsedToolCall, ProviderReply, ToolOutcome, TurnAction, TurnEvent, TurnPhase,
    TurnSettings,
};
use serde_json::Value;

fn settings(max_iterations: usize, auto_save: bool) -> TurnSettings {
    TurnSettings {
        max_tool_iterations: max_iterations,
        max_history_messages: 50,
        auto_save,
        model_name: "base-model".to_string(),
        available_hints: vec!["fast".to_string()],
    }
}

fn input(history: Vec<ConversationMessage>) -> BrainInput {
    BrainInput { message: "what is 2+2?".to_string(), history, system_prompt: None }
}

fn chat(m: &ConversationMessage) -> (String, String) {
    match m {
        ConversationMessage::Chat(c) => (c.role.clone(), c.content.clone()),
        _ => panic!("expected chat message"),
    }
}

fn call(name: &str, id: &str) -> ParsedToolCall {
    ParsedToolCall {
        name: name.to_string(),
        arguments: Value::Null,
        tool_call_id: Some(id.to_string()),
    }
}

fn reply(text: &str, calls: Vec<ParsedToolCall>) -> ProviderReply {
    ProviderReply {
        text: text.to_string(),
        calls,
        response_text: Some(text.to_string()),
        response_tool_calls: vec![ToolCall {
            id: "c1".to_string(),
            name: "calc".to_string(),
            arguments: "{}".to_string(),
        }],
        reasoning_content: None,
    }
}

/// Runs the opening of a turn up to the first model call.
fn open(turn_settings: TurnSettings) -> AgenticTurn {
    let (mut turn, action) = AgenticTurn::start(input(Vec::new()), turn_settings);
    assert!(matches!(action, TurnAction::BuildSystemPrompt));
    let action = turn.step(TurnEvent::SystemPrompt("you are helpful".to_string()));
    let action = match action {
        TurnAction::SaveUserMessage { key, content } => {
            assert_eq!(key, "user_msg");
            assert_eq!(content, "what is 2+2?");
            turn.step(TurnEvent::UserMessageSaved(Ok(())))
        }
        other => other,
    };
    match action {
        TurnAction::LoadMemoryContext { message } => assert_eq!(message, "what is 2+2?"),
        _ => panic!("expected a memory context request"),
    }
    match turn.step(TurnEvent::MemoryContext(Ok("[ctx] ".to_string()))) {
        TurnAction::ClassifyQuery { message } => assert_eq!(message, "what is 2+2?"),
        _ => panic!("expected a classification request"),
    }
    turn
}

#[test]
fn turn_without_tools_ends_with_answer() {
    let mut turn = open(settings(3, true));
    match turn.step(TurnEvent::QueryClassified(Some("fast".to_string()))) {
        TurnAction::CallProvider { model } => assert_eq!(model, "hint:fast"),
        _ => panic!("expected a model call"),
    }
    assert_eq!(turn.history().len(), 2);
    assert_eq!(chat(&turn.history()[1]).1, "[ctx] what is 2+2?");
    match turn.step(TurnEvent::ProviderReplied(reply("4", Vec::new()))) {
        TurnAction::Finish(out) => {
            assert_eq!(out.response, "4");
            assert_eq!(out.stop_reason, StopReason::EndTurn);
            assert_eq!(out.tool_calls_executed, 0);
            assert_eq!(out.history.len(), 3);
            assert_eq!(chat(&out.history[0]), ("system".to_string(), "you are helpful".to_string()));
            assert_eq!(chat(&out.history[2]), ("assistant".to_string(), "4".to_string()));
        }
        _ => panic!("expected the turn to finish"),
    }
    assert_eq!(turn.phase(), TurnPhase::Finished);
    assert!(matches!(turn.step(TurnEvent::TextEmitted), TurnAction::Rejected));
}

#[test]
fn turn_with_tools_runs_each_call_then_answers() {
    let mut turn = open(settings(3, false));
    match turn.step(TurnEvent::QueryClassified(None)) {
        TurnAction::CallProvider { model } => assert_eq!(model, "base-model"),
        _ => panic!("expected a model call"),
    }
    let calls = vec![call("calc", "c1"), call("missing", "c2"), call("shell", "c3")];
    match turn.step(TurnEvent::ProviderReplied(reply("let me compute", calls))) {
        TurnAction::EmitText { text } => assert_eq!(text, "let me compute"),
        _ => panic!("expected text to show"),
    }
    match turn.step(TurnEvent::TextEmitted) {
        TurnAction::ExecuteTool { call } => assert_eq!(call.name, "calc"),
        _ => panic!("expected a tool call"),
    }
    let done = ToolOutcome::Completed { success: true, output: "4".to_string(), error: None };
    match turn.step(TurnEvent::ToolFinished(done)) {
        TurnAction::ExecuteTool { call } => assert_eq!(call.name, "missing"),
        _ => panic!("expected a tool call"),
    }
    match turn.step(TurnEvent::ToolFinished(ToolOutcome::UnknownTool)) {
        TurnAction::ExecuteTool { call } => assert_eq!(call.name, "shell"),
        _ => panic!("expected a tool call"),
    }
    let failed = ToolOutcome::Failed { error: "timeout".to_string() };
    let results = match turn.step(TurnEvent::ToolFinished(failed)) {
        TurnAction::FormatResults { results } => results,
        _ => panic!("expected results to format"),
    };
    assert_eq!(turn.tool_calls_executed(), 3);
    assert_eq!(results.len(), 3);
    assert_eq!(results[0].output, "4");
    assert!(results[0].success);
    assert_eq!(results[0].tool_call_id, Some("c1".to_string()));
    assert_eq!(results[1].output, "Unknown tool: missing");
    assert!(!results[1].success);
    assert_eq!(results[2].output, "Error executing shell: timeout");
    assert_eq!(results[2].name, "shell");
    let formatted = ConversationMessage::ToolResults(vec![ToolResultMessage {
        tool_call_id: "c1".to_string(),
        content: "4".to_string(),
    }]);
    match turn.step(TurnEvent::ResultsFormatted(formatted)) {
        TurnAction::CallProvider { model } => assert_eq!(model, "base-model"),
        _ => panic!("expected another model call"),
    }
    // system, user, assistant text, tool calls, tool results
    assert_eq!(turn.history().len(), 5);
    assert!(matches!(turn.history()[3], ConversationMessage::AssistantToolCalls { .. }));
    match turn.step(TurnEvent::ProviderReplied(reply("", Vec::new()))) {
        TurnAction::Finish(out) => {
            assert_eq!(out.response, "");
            assert_eq!(out.tool_calls_executed, 3);
            assert_eq!(out.stop_reason, StopReason::EndTurn);
        }
        _ => panic!("expected the turn to finish"),
    }
}

#[test]
fn turn_stops_after_max_iterations() {
    let mut turn = open(settings(1, false));
    assert!(matches!(
        turn.step(TurnEvent::QueryClassified(None)),
        TurnAction::CallProvider { .. }
    ));
    match turn.step(TurnEvent::ProviderReplied(reply("", vec![call("calc", "c1")]))) {
        TurnAction::ExecuteTool { call } => assert_eq!(call.tool_call_id, Some("c1".to_string())),
        _ => panic!("expected a tool call"),
    }
    let bad = ToolOutcome::Completed {
        success: false,
        output: "partial".to_string(),
        error: Some("bad input".to_string()),
    };
    let results = match turn.step(TurnEvent::ToolFinished(bad)) {
        TurnAction::FormatResults { results } => results,
        _ => panic!("expected results"),
    };
    assert_eq!(results[0].output, "Error: bad input");
    let formatted = ConversationMessage::Chat(ChatMessage::tool("done"));
    match turn.step(TurnEvent::ResultsFormatted(formatted)) {
        TurnAction::Finish(out) => {
            assert_eq!(out.response, "Agent exceeded maximum tool iterations (1)");
            assert_eq!(out.stop_reason, StopReason::MaxIterations);
            assert_eq!(out.tool_calls_executed, 1);
        }
        _ => panic!("expected the turn to stop"),
    }
}

#[test]
fn turn_with_zero_iterations_stops_at_once() {
    let mut turn = open(settings(0, false));
    match turn.step(TurnEvent::QueryClassified(None)) {
        TurnAction::Finish(out) => {
            assert_eq!(out.response, "Agent exceeded maximum tool iterations (0)");
            assert_eq!(out.stop_reason, StopReason::MaxIterations);
            assert_eq!(out.history.len(), 2);
        }
        _ => panic!("expected the turn to stop"),
    }
}

#[test]
fn turn_with_history_skips_system_prompt_and_rejects_misfits() {
    let history = vec![ConversationMessage::Chat(ChatMessage::user("earlier"))];
    let (mut turn, action) = AgenticTurn::start(input(history), settings(2, false));
    assert!(matches!(action, TurnAction::LoadMemoryContext { .. }));
    assert!(matches!(
        turn.step(TurnEvent::SystemPrompt("late".to_string())),
        TurnAction::Rejected
    ));
    assert_eq!(turn.phase(), TurnPhase::AwaitingContext);
    match turn.step(TurnEvent::MemoryContext(Ok(String::new()))) {
        TurnAction::ClassifyQuery { .. } => {}
        _ => panic!("expected a classification request"),
    }
    assert_eq!(chat(&turn.history()[1]).1, "what is 2+2?");
}

#[test]
fn unsuccessful_tool_without_error_reports_output() {
    let mut turn = open(settings(2, false));
    turn.step(TurnEvent::QueryClassified(None));
    turn.step(TurnEvent::ProviderReplied(reply("", vec![call("calc", "c1")])));
    let outcome =
        ToolOutcome::Completed { success: false, output: "bad args".to_string(), error: None };
    match turn.step(TurnEvent::ToolFinished(outcome)) {
        TurnAction::FormatResults { results } => {
            assert_eq!(results[0].output, "Error: bad args");
            assert!(!results[0].success);
        }
        _ => panic!("expected results"),
    }
}

#[test]
fn failed_system_prompt_ends_turn_with_its_error() {
    let (mut turn, action) = AgenticTurn::start(input(Vec::new()), settings(3, true));
    assert!(matches!(action, TurnAction::BuildSystemPrompt));
    match turn.step(TurnEvent::SystemPromptFailed("no identity file".to_string())) {
        TurnAction::Fail { error } => assert_eq!(error, "no identity file"),
        _ => panic!("expected the turn to fail"),
    }
    assert_eq!(turn.phase(), TurnPhase::Finished);
    assert!(matches!(
        turn.step(TurnEvent::SystemPrompt("late".to_string())),
        TurnAction::Rejected
    ));
}

#[test]
fn failed_model_call_ends_turn_with_its_error() {
    let mut turn = open(settings(3, false));
    assert!(matches!(
        turn.step(TurnEvent::QueryClassified(None)),
        TurnAction::CallProvider { .. }
    ));
    match turn.step(TurnEvent::ProviderFailed("rate limited".to_string())) {
        TurnAction::Fail { error } => assert_eq!(error, "rate limited"),
        _ => panic!("expected the turn to fail"),
    }
    assert_eq!(turn.phase(), TurnPhase::Finished);
    assert_eq!(turn.tool_calls_executed(), 0);
}

#[test]
fn memory_failures_do_not_end_turn() {
    let (mut turn, _) = AgenticTurn::start(input(Vec::new()), settings(3, true));
    assert!(matches!(
        turn.step(TurnEvent::SystemPrompt("sys".to_string())),
        TurnAction::SaveUserMessage { .. }
    ));
    match turn.step(TurnEvent::UserMessageSaved(Err("disk full".to_string()))) {
        TurnAction::LoadMemoryContext { message } => assert_eq!(message, "what is 2+2?"),
        _ => panic!("expected a memory context request"),
    }
    match turn.step(TurnEvent::MemoryContext(Err("db down".to_string()))) {
        TurnAction::ClassifyQuery { .. } => {}
        _ => panic!("expected a classification request"),
    }
    // the failed load counts as no context: the message goes in as it is
    assert_eq!(chat(&turn.history()[1]), ("user".to_string(), "what is 2+2?".to_string()));
}

#[test]
fn failure_events_out_of_place_are_rejected() {
    let mut turn = open(settings(3, false));
    assert!(matches!(
        turn.step(TurnEvent::ProviderFailed("early".to_string())),
        TurnAction::Rejected
    ));
    assert_eq!(turn.phase(), TurnPhase::AwaitingClassification);
}
