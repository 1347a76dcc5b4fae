//! The decisions of one agentic turn, as a state machine.
//!
//! A turn receives a user message, builds a system prompt for an empty
//! history, optionally saves the message to memory, enriches it with memory
//! context, picks the model, then calls the model in a loop: a reply without
//! tool calls ends the turn; a reply with tool calls has each call executed
//! and the results formatted into the history, up to a maximum number of
//! iterations. Everything that talks to the outside (prompt building,
//! memory, the classifier, the model, tools, printing) is an action that the
//! caller performs; what it gets back is the next event.

use vstd::prelude::*;
use crate::brain::{BrainInput, BrainOutput, OutputView, StopReason, StopReasonView, classify_model, effective_model};
use crate::history::{trim_history, trimmed};
use crate::messages::{
    is_system, ChatMessage, ConversationMessage, MessageView, ToolCall, ToolCallView, chat_view,
    duplicate_opt, history_view, opt_view,
};
use crate::text::{join, decimal, strings_view, usize_to_decimal};
use crate::tools::{all_tools_obey, has_tool_named, tool_entries, Tool, ToolRegistry};

verus! {

/// The settings of a turn.
#[derive(Debug, Clone)]
pub struct TurnSettings {
    /// How many times the model may be called in one turn.
    pub max_tool_iterations: usize,
    /// The history length above which it is trimmed.
    pub max_history_messages: usize,
    /// Whether the user's message is saved to memory first.
    pub auto_save: bool,
    /// The configured model.
    pub model_name: String,
    /// The classifier hints that have a model route.
    pub available_hints: Vec<String>,
}

pub struct SettingsView {
    pub max_tool_iterations: nat,
    pub max_history_messages: nat,
    pub auto_save: bool,
    pub model_name: Seq<char>,
    pub available_hints: Seq<Seq<char>>,
}

impl View for TurnSettings {
    type V = SettingsView;

    open spec fn view(&self) -> SettingsView {
        SettingsView {
            max_tool_iterations: self.max_tool_iterations as nat,
            max_history_messages: self.max_history_messages as nat,
            auto_save: self.auto_save,
            model_name: self.model_name@,
            available_hints: strings_view(self.available_hints@),
        }
    }
}

/// A tool call as the dispatcher parsed it from the model's reply.
#[derive(Debug)]
pub struct ParsedToolCall {
    pub name: String,
    pub arguments: serde_json::Value,
    pub tool_call_id: Option<String>,
}

/// The result of one executed tool call.
#[derive(Debug, Clone)]
pub struct ToolExecutionResult {
    pub name: String,
    pub output: String,
    pub success: bool,
    pub tool_call_id: Option<String>,
}

pub struct ResultView {
    pub name: Seq<char>,
    pub output: Seq<char>,
    pub success: bool,
    pub tool_call_id: Option<Seq<char>>,
}

impl View for ToolExecutionResult {
    type V = ResultView;

    open spec fn view(&self) -> ResultView {
        ResultView {
            name: self.name@,
            output: self.output@,
            success: self.success,
            tool_call_id: opt_view(self.tool_call_id),
        }
    }
}

pub open spec fn results_view(rs: Seq<ToolExecutionResult>) -> Seq<ResultView> {
    rs.map_values(|r: ToolExecutionResult| r@)
}

/// What came of executing a tool call.
#[derive(Debug, Clone)]
pub enum ToolOutcome {
    /// No registered tool has the call's name.
    UnknownTool,
    /// The tool ran and reported success or failure.
    Completed { success: bool, output: String, error: Option<String> },
    /// The tool could not run; the error's text.
    Failed { error: String },
}

pub enum OutcomeView {
    UnknownTool,
    Completed { success: bool, output: Seq<char>, error: Option<Seq<char>> },
    Failed { error: Seq<char> },
}

impl View for ToolOutcome {
    type V = OutcomeView;

    open spec fn view(&self) -> OutcomeView {
        match self {
            ToolOutcome::UnknownTool => OutcomeView::UnknownTool,
            ToolOutcome::Completed { success, output, error } => OutcomeView::Completed {
                success: *success,
                output: output@,
                error: opt_view(*error),
            },
            ToolOutcome::Failed { error } => OutcomeView::Failed { error: error@ },
        }
    }
}

/// The model's reply: the text and tool calls the dispatcher parsed from it,
/// and the response's own text, tool calls and reasoning.
#[derive(Debug)]
pub struct ProviderReply {
    pub text: String,
    pub calls: Vec<ParsedToolCall>,
    pub response_text: Option<String>,
    pub response_tool_calls: Vec<ToolCall>,
    pub reasoning_content: Option<String>,
}

pub struct ReplyView {
    pub text: Seq<char>,
    pub calls: Seq<ParsedToolCall>,
    pub response_text: Option<Seq<char>>,
    pub response_tool_calls: Seq<ToolCallView>,
    pub reasoning_content: Option<Seq<char>>,
}

impl View for ProviderReply {
    type V = ReplyView;

    open spec fn view(&self) -> ReplyView {
        ReplyView {
            text: self.text@,
            calls: self.calls@,
            response_text: opt_view(self.response_text),
            response_tool_calls: self.response_tool_calls@.map_values(|t: ToolCall| t@),
            reasoning_content: opt_view(self.reasoning_content),
        }
    }
}

/// What the caller reports back after performing an action.
#[derive(Debug)]
pub enum TurnEvent {
    /// The system prompt was built.
    SystemPrompt(String),
    /// Building the system prompt failed, with this error.
    SystemPromptFailed(String),
    /// Saving the user's message to memory ended, well or with an error.
    UserMessageSaved(Result<(), String>),
    /// Loading the memory context for the message ended: the context ("" when
    /// there is none), or an error.
    MemoryContext(Result<String, String>),
    /// The classifier's hint for the message, if any.
    QueryClassified(Option<String>),
    /// The model replied.
    ProviderReplied(ProviderReply),
    /// The model call failed, with this error.
    ProviderFailed(String),
    /// The text was shown to the user.
    TextEmitted,
    /// The tool call was executed.
    ToolFinished(ToolOutcome),
    /// The tool results were formatted into one history message.
    ResultsFormatted(ConversationMessage),
}

pub enum EventView {
    SystemPrompt(Seq<char>),
    SystemPromptFailed(Seq<char>),
    UserMessageSaved(Result<(), Seq<char>>),
    MemoryContext(Result<Seq<char>, Seq<char>>),
    QueryClassified(Option<Seq<char>>),
    ProviderReplied(ReplyView),
    ProviderFailed(Seq<char>),
    TextEmitted,
    ToolFinished(OutcomeView),
    ResultsFormatted(MessageView),
}

impl View for TurnEvent {
    type V = EventView;

    open spec fn view(&self) -> EventView {
        match self {
            TurnEvent::SystemPrompt(p) => EventView::SystemPrompt(p@),
            TurnEvent::SystemPromptFailed(m) => EventView::SystemPromptFailed(m@),
            TurnEvent::UserMessageSaved(r) => EventView::UserMessageSaved(
                match r {
                    Ok(()) => Ok(()),
                    Err(m) => Err(m@),
                },
            ),
            TurnEvent::MemoryContext(r) => EventView::MemoryContext(
                match r {
                    Ok(c) => Ok(c@),
                    Err(m) => Err(m@),
                },
            ),
            TurnEvent::QueryClassified(h) => EventView::QueryClassified(opt_view(*h)),
            TurnEvent::ProviderReplied(r) => EventView::ProviderReplied(r@),
            TurnEvent::ProviderFailed(m) => EventView::ProviderFailed(m@),
            TurnEvent::TextEmitted => EventView::TextEmitted,
            TurnEvent::ToolFinished(o) => EventView::ToolFinished(o@),
            TurnEvent::ResultsFormatted(m) => EventView::ResultsFormatted(m@),
        }
    }
}

/// What the caller is to do next.
#[derive(Debug)]
pub enum TurnAction {
    /// Build the system prompt from the tools, skills and identity.
    BuildSystemPrompt,
    /// Save the user's message to memory under this key.
    SaveUserMessage { key: String, content: String },
    /// Load memory context for the message.
    LoadMemoryContext { message: String },
    /// Ask the classifier for a hint for the message.
    ClassifyQuery { message: String },
    /// Send the current history to this model.
    CallProvider { model: String },
    /// Show this text to the user.
    EmitText { text: String },
    /// Execute this tool call.
    ExecuteTool { call: ParsedToolCall },
    /// Format these results into one history message.
    FormatResults { results: Vec<ToolExecutionResult> },
    /// The turn is over, with this output.
    Finish(BrainOutput),
    /// The turn is over, failed with this error.
    Fail { error: String },
    /// The event does not fit the turn's state; nothing changed.
    Rejected,
}

pub enum ActionView {
    BuildSystemPrompt,
    SaveUserMessage(Seq<char>, Seq<char>),
    LoadMemoryContext(Seq<char>),
    ClassifyQuery(Seq<char>),
    CallProvider(Seq<char>),
    EmitText(Seq<char>),
    ExecuteTool(ParsedToolCall),
    FormatResults(Seq<ResultView>),
    Finish(OutputView),
    Fail(Seq<char>),
    Rejected,
}

impl View for TurnAction {
    type V = ActionView;

    open spec fn view(&self) -> ActionView {
        match self {
            TurnAction::BuildSystemPrompt => ActionView::BuildSystemPrompt,
            TurnAction::SaveUserMessage { key, content } => ActionView::SaveUserMessage(
                key@,
                content@,
            ),
            TurnAction::LoadMemoryContext { message } => ActionView::LoadMemoryContext(message@),
            TurnAction::ClassifyQuery { message } => ActionView::ClassifyQuery(message@),
            TurnAction::CallProvider { model } => ActionView::CallProvider(model@),
            TurnAction::EmitText { text } => ActionView::EmitText(text@),
            TurnAction::ExecuteTool { call } => ActionView::ExecuteTool(*call),
            TurnAction::FormatResults { results } => ActionView::FormatResults(
                results_view(results@),
            ),
            TurnAction::Finish(o) => ActionView::Finish(o@),
            TurnAction::Fail { error } => ActionView::Fail(error@),
            TurnAction::Rejected => ActionView::Rejected,
        }
    }
}

/// Where a turn stands.
#[derive(Debug, Clone, Copy, PartialEq, Eq, Structural)]
pub enum TurnPhase {
    AwaitingSystemPrompt,
    AwaitingSave,
    AwaitingContext,
    AwaitingClassification,
    AwaitingReply,
    AwaitingEmit,
    AwaitingTool,
    AwaitingFormat,
    Finished,
}

/// The state of a turn.
pub struct TurnView {
    pub phase: TurnPhase,
    pub settings: SettingsView,
    /// The user's message.
    pub message: Seq<char>,
    pub history: Seq<MessageView>,
    /// The model the turn calls.
    pub model: Seq<char>,
    /// Model calls whose tool results were formatted.
    pub iterations: nat,
    /// Tool calls executed so far.
    pub executed: nat,
    /// The tool calls of the current reply, in order.
    pub batch: Seq<ParsedToolCall>,
    /// The calls of the batch not yet handed out.
    pub pending: Seq<ParsedToolCall>,
    /// The name and id of the call being executed.
    pub current_name: Seq<char>,
    pub current_id: Option<Seq<char>>,
    /// The results of the batch so far.
    pub results: Seq<ResultView>,
}

/// The text that ends a turn which ran out of iterations.
pub open spec fn max_iterations_message(n: nat) -> Seq<char> {
    "Agent exceeded maximum tool iterations ("@ + decimal(n) + ")"@
}

/// The user message of a turn: the memory context, when there is one,
/// followed by the message.
pub open spec fn enriched(context: Seq<char>, message: Seq<char>) -> Seq<char> {
    if context.len() == 0 {
        message
    } else {
        context + message
    }
}

/// The text that answers a reply without tool calls: the parsed text, or
/// the response's own text when the parsed text is empty.
pub open spec fn final_text(r: ReplyView) -> Seq<char> {
    if r.text.len() == 0 {
        match r.response_text {
            Some(t) => t,
            None => Seq::empty(),
        }
    } else {
        r.text
    }
}

/// The output and success of a tool call named `name` with this outcome.
pub open spec fn outcome_output(name: Seq<char>, o: OutcomeView) -> (Seq<char>, bool) {
    match o {
        OutcomeView::UnknownTool => ("Unknown tool: "@ + name, false),
        OutcomeView::Completed { success, output, error } => if success {
            (output, true)
        } else {
            (
                "Error: "@ + match error {
                    Some(e) => e,
                    None => output,
                },
                false,
            )
        },
        OutcomeView::Failed { error } => ("Error executing "@ + name + ": "@ + error, false),
    }
}

/// The turn is over: the history goes into the output.
pub open spec fn finish(s: TurnView, response: Seq<char>, reason: StopReasonView) -> (
    TurnView,
    ActionView,
) {
    (
        TurnView { phase: TurnPhase::Finished, history: Seq::empty(), ..s },
        ActionView::Finish(
            OutputView {
                response,
                tool_calls_executed: s.executed,
                history: s.history,
                stop_reason: reason,
            },
        ),
    )
}

/// The turn is over, failed with `error`.
pub open spec fn fail(s: TurnView, error: Seq<char>) -> (TurnView, ActionView) {
    (TurnView { phase: TurnPhase::Finished, ..s }, ActionView::Fail(error))
}

/// The memory context a load gives: what was loaded, or nothing when the
/// load failed.
pub open spec fn loaded_context(c: Result<Seq<char>, Seq<char>>) -> Seq<char> {
    match c {
        Ok(t) => t,
        Err(_) => Seq::empty(),
    }
}

/// Call the model again, or stop when the iterations are used up.
pub open spec fn call_or_stop(s: TurnView) -> (TurnView, ActionView) {
    if s.iterations < s.settings.max_tool_iterations {
        (TurnView { phase: TurnPhase::AwaitingReply, ..s }, ActionView::CallProvider(s.model))
    } else {
        finish(
            s,
            max_iterations_message(s.settings.max_tool_iterations),
            StopReasonView::MaxIterations,
        )
    }
}

/// After the system prompt: save the message first (under the key
/// "user_msg"), or load its context.
pub open spec fn after_prompt(s: TurnView) -> (TurnView, ActionView) {
    if s.settings.auto_save {
        (
            TurnView { phase: TurnPhase::AwaitingSave, ..s },
            ActionView::SaveUserMessage("user_msg"@, s.message),
        )
    } else {
        (
            TurnView { phase: TurnPhase::AwaitingContext, ..s },
            ActionView::LoadMemoryContext(s.message),
        )
    }
}

/// Hand out the next pending tool call.
pub open spec fn next_tool(s: TurnView) -> (TurnView, ActionView) {
    let call = s.pending[0];
    (
        TurnView {
            phase: TurnPhase::AwaitingTool,
            pending: s.pending.drop_first(),
            current_name: call.name@,
            current_id: opt_view(call.tool_call_id),
            ..s
        },
        ActionView::ExecuteTool(call),
    )
}

/// The model replied: without tool calls the turn ends with the reply's
/// text; with tool calls the parsed text (if any) and the tool-call message
/// join the history and the calls are executed one by one.
pub open spec fn on_reply(s: TurnView, r: ReplyView) -> (TurnView, ActionView) {
    if r.calls.len() == 0 {
        let text = final_text(r);
        let h = trimmed(
            s.history.push(chat_view("assistant"@, text)),
            s.settings.max_history_messages,
        );
        finish(TurnView { history: h, ..s }, text, StopReasonView::EndTurn)
    } else {
        let h1 = if r.text.len() > 0 {
            s.history.push(chat_view("assistant"@, r.text))
        } else {
            s.history
        };
        let h2 = h1.push(
            MessageView::AssistantToolCalls {
                text: r.response_text,
                tool_calls: r.response_tool_calls,
                reasoning_content: r.reasoning_content,
            },
        );
        let s2 = TurnView {
            history: h2,
            batch: r.calls,
            pending: r.calls,
            results: Seq::empty(),
            ..s
        };
        if r.text.len() > 0 {
            (TurnView { phase: TurnPhase::AwaitingEmit, ..s2 }, ActionView::EmitText(r.text))
        } else {
            next_tool(s2)
        }
    }
}

/// A tool call finished: its result is recorded and counted; then the next
/// call is handed out, or all results go to be formatted.
pub open spec fn on_tool(s: TurnView, o: OutcomeView) -> (TurnView, ActionView) {
    let (output, success) = outcome_output(s.current_name, o);
    let result = ResultView {
        name: s.current_name,
        output,
        success,
        tool_call_id: s.current_id,
    };
    let s2 = TurnView { results: s.results.push(result), executed: s.executed + 1, ..s };
    if s2.pending.len() > 0 {
        next_tool(s2)
    } else {
        (
            TurnView { phase: TurnPhase::AwaitingFormat, results: Seq::empty(), ..s2 },
            ActionView::FormatResults(s2.results),
        )
    }
}

/// The state machine of a turn: the next state and action for an event.
/// An event that does not fit the phase is rejected and changes nothing.
pub open spec fn transition(s: TurnView, e: EventView) -> (TurnView, ActionView) {
    match (s.phase, e) {
        (TurnPhase::AwaitingSystemPrompt, EventView::SystemPrompt(p)) => after_prompt(
            TurnView { history: s.history.push(chat_view("system"@, p)), ..s },
        ),
        (TurnPhase::AwaitingSystemPrompt, EventView::SystemPromptFailed(m)) => fail(s, m),
        (TurnPhase::AwaitingSave, EventView::UserMessageSaved(_)) => (
            TurnView { phase: TurnPhase::AwaitingContext, ..s },
            ActionView::LoadMemoryContext(s.message),
        ),
        (TurnPhase::AwaitingContext, EventView::MemoryContext(c)) => (
            TurnView {
                phase: TurnPhase::AwaitingClassification,
                history: s.history.push(chat_view("user"@, enriched(loaded_context(c), s.message))),
                ..s
            },
            ActionView::ClassifyQuery(s.message),
        ),
        (TurnPhase::AwaitingClassification, EventView::QueryClassified(h)) => call_or_stop(
            TurnView {
                model: effective_model(
                    h,
                    s.settings.available_hints,
                    s.settings.model_name,
                ),
                ..s
            },
        ),
        (TurnPhase::AwaitingReply, EventView::ProviderReplied(r)) => on_reply(s, r),
        (TurnPhase::AwaitingReply, EventView::ProviderFailed(m)) => fail(s, m),
        (TurnPhase::AwaitingEmit, EventView::TextEmitted) => next_tool(s),
        (TurnPhase::AwaitingTool, EventView::ToolFinished(o)) => on_tool(s, o),
        (TurnPhase::AwaitingFormat, EventView::ResultsFormatted(m)) => call_or_stop(
            TurnView {
                history: trimmed(s.history.push(m), s.settings.max_history_messages),
                iterations: s.iterations + 1,
                ..s
            },
        ),
        _ => (s, ActionView::Rejected),
    }
}

/// The state a turn starts in, and its first action: build a system prompt
/// when the history is empty, else go on as after the prompt.
pub open spec fn begin(settings: SettingsView, message: Seq<char>, history: Seq<MessageView>) -> (
    TurnView,
    ActionView,
) {
    let s = TurnView {
        phase: TurnPhase::AwaitingSystemPrompt,
        settings,
        message,
        history,
        model: settings.model_name,
        iterations: 0,
        executed: 0,
        batch: Seq::empty(),
        pending: Seq::empty(),
        current_name: Seq::empty(),
        current_id: None,
        results: Seq::empty(),
    };
    if history.len() == 0 {
        (s, ActionView::BuildSystemPrompt)
    } else {
        after_prompt(s)
    }
}

/// What holds in every state a turn reaches: the iterations never exceed
/// the maximum, and while a batch of tool calls is executed, the results so
/// far answer the first calls of the batch, in order, the call being
/// executed is the next one, and the pending calls are the rest.
pub open spec fn wf(s: TurnView) -> bool {
    &&& s.iterations <= s.settings.max_tool_iterations
    &&& (s.phase == TurnPhase::AwaitingReply || s.phase == TurnPhase::AwaitingEmit || s.phase
        == TurnPhase::AwaitingTool || s.phase == TurnPhase::AwaitingFormat) ==> s.iterations
        < s.settings.max_tool_iterations
    &&& s.phase == TurnPhase::AwaitingEmit ==> {
        &&& s.batch.len() > 0
        &&& s.pending == s.batch
        &&& s.results.len() == 0
    }
    &&& s.phase == TurnPhase::AwaitingTool ==> {
        &&& s.results.len() < s.batch.len()
        &&& s.pending == s.batch.skip(s.results.len() as int + 1)
        &&& s.current_name == s.batch[s.results.len() as int].name@
        &&& s.current_id == opt_view(s.batch[s.results.len() as int].tool_call_id)
        &&& forall|i: int|
            0 <= i < s.results.len() ==> (#[trigger] s.results[i]).name == s.batch[i].name@
                && s.results[i].tool_call_id == opt_view(s.batch[i].tool_call_id)
    }
}

/// The state of a turn in its concrete form.
struct TurnState {
    settings: TurnSettings,
    message: String,
    history: Vec<ConversationMessage>,
    model: String,
    iterations: usize,
    executed: usize,
    batch: Ghost<Seq<ParsedToolCall>>,
    pending: Vec<ParsedToolCall>,
    current_name: String,
    current_id: Option<String>,
    results: Vec<ToolExecutionResult>,
    phase: TurnPhase,
}

impl View for TurnState {
    type V = TurnView;

    closed spec fn view(&self) -> TurnView {
        TurnView {
            phase: self.phase,
            settings: self.settings@,
            message: self.message@,
            history: history_view(self.history@),
            model: self.model@,
            iterations: self.iterations as nat,
            executed: self.executed as nat,
            batch: self.batch@,
            pending: self.pending@,
            current_name: self.current_name@,
            current_id: opt_view(self.current_id),
            results: results_view(self.results@),
        }
    }
}

fn is_empty(s: &String) -> (r: bool)
    ensures
        r == (s@.len() == 0),
{
    s.as_str().is_empty()
}

/// Look up the tool a call names: the registry's tool of that name, or the
/// outcome `UnknownTool` when the registry holds no tool of that name.
pub fn lookup_tool<'a, R: ToolRegistry>(registry: &'a R, call: &ParsedToolCall) -> (r: Result<
    &'a R::Item,
    ToolOutcome,
>)
    ensures
        r matches Err(o) ==> o@ == OutcomeView::UnknownTool,
        r matches Ok(t) ==> registry.spec_tools().contains(*t) && (t.obeys_tool_spec()
            ==> t.spec_name() == call.name@),
        all_tools_obey(registry.spec_tools()) ==> (r is Err <==> !has_tool_named(
            tool_entries(registry.spec_tools()),
            call.name@,
        )),
{
    match registry.get(call.name.as_str()) {
        Some(t) => Ok(t),
        None => Err(ToolOutcome::UnknownTool),
    }
}

/// The output and success of a tool call named `name` with this outcome,
/// as `outcome_output` states.
fn tool_output(name: &String, outcome: ToolOutcome) -> (r: (String, bool))
    ensures
        (r.0@, r.1) == outcome_output(name@, outcome@),
{
    match outcome {
        ToolOutcome::UnknownTool => (join("Unknown tool: ", name.as_str()), false),
        ToolOutcome::Completed { success, output, error } => {
            if success {
                (output, true)
            } else {
                let detail = match error {
                    Some(e) => e,
                    None => output,
                };
                (join("Error: ", detail.as_str()), false)
            }
        },
        ToolOutcome::Failed { error } => {
            let head = join("Error executing ", name.as_str());
            let head = join(head.as_str(), ": ");
            let r = join(head.as_str(), error.as_str());
            assert(r@ =~= "Error executing "@ + name@ + ": "@ + error@);
            (r, false)
        },
    }
}

impl TurnState {
    /// A finished turn that holds nothing: no history, no calls, no
    /// results, nothing counted, with settings that allow no iteration.
    fn finished() -> (r: TurnState)
        ensures
            wf(r@),
            r@.phase == TurnPhase::Finished,
            r@.history == Seq::<MessageView>::empty(),
            r@.pending == Seq::<ParsedToolCall>::empty(),
            r@.results == Seq::<ResultView>::empty(),
            r@.iterations == 0,
            r@.executed == 0,
            r@.settings.max_tool_iterations == 0,
    {
        TurnState {
            settings: TurnSettings {
                max_tool_iterations: 0,
                max_history_messages: 0,
                auto_save: false,
                model_name: String::new(),
                available_hints: Vec::new(),
            },
            message: String::new(),
            history: Vec::new(),
            model: String::new(),
            iterations: 0,
            executed: 0,
            batch: Ghost(Seq::empty()),
            pending: Vec::new(),
            current_name: String::new(),
            current_id: None,
            results: Vec::new(),
            phase: TurnPhase::Finished,
        }
    }

    fn after_prompt(&mut self) -> (a: TurnAction)
        ensures
            (final(self)@, a@) == after_prompt(old(self)@),
    {
        if self.settings.auto_save {
            self.phase = TurnPhase::AwaitingSave;
            TurnAction::SaveUserMessage {
                key: crate::text::to_string("user_msg"),
                content: self.message.clone(),
            }
        } else {
            self.phase = TurnPhase::AwaitingContext;
            TurnAction::LoadMemoryContext { message: self.message.clone() }
        }
    }

    fn finish(&mut self, response: String, stop_reason: StopReason) -> (a: TurnAction)
        ensures
            (final(self)@, a@) == finish(old(self)@, response@, stop_reason@),
    {
        let mut history: Vec<ConversationMessage> = Vec::new();
        std::mem::swap(&mut history, &mut self.history);
        self.phase = TurnPhase::Finished;
        assert(history_view(self.history@) =~= Seq::<MessageView>::empty());
        TurnAction::Finish(
            BrainOutput { response, tool_calls_executed: self.executed, history, stop_reason },
        )
    }

    fn call_or_stop(&mut self) -> (a: TurnAction)
        ensures
            (final(self)@, a@) == call_or_stop(old(self)@),
    {
        if self.iterations < self.settings.max_tool_iterations {
            self.phase = TurnPhase::AwaitingReply;
            TurnAction::CallProvider { model: self.model.clone() }
        } else {
            let n = usize_to_decimal(self.settings.max_tool_iterations);
            let head = join("Agent exceeded maximum tool iterations (", n.as_str());
            let response = join(head.as_str(), ")");
            assert(response@ =~= max_iterations_message(self.settings.max_tool_iterations as nat));
            self.finish(response, StopReason::MaxIterations)
        }
    }

    fn next_tool(&mut self) -> (a: TurnAction)
        requires
            old(self).pending@.len() > 0,
        ensures
            (final(self)@, a@) == next_tool(old(self)@),
    {
        let call = self.pending.remove(0);
        self.current_name = call.name.clone();
        self.current_id = duplicate_opt(&call.tool_call_id);
        self.phase = TurnPhase::AwaitingTool;
        assert(self.pending@ =~= old(self).pending@.drop_first());
        TurnAction::ExecuteTool { call }
    }

    fn on_reply(&mut self, reply: ProviderReply) -> (a: TurnAction)
        ensures
            (final(self)@, a@) == on_reply(old(self)@, reply@),
    {
        let ghost rv = reply@;
        let ProviderReply { text, calls, response_text, response_tool_calls, reasoning_content } =
            reply;
        if calls.len() == 0 {
            let answer = if is_empty(&text) {
                match response_text {
                    Some(t) => t,
                    None => String::new(),
                }
            } else {
                text
            };
            assert(answer@ == final_text(rv));
            let ghost before = history_view(self.history@);
            self.history.push(
                ConversationMessage::Chat(ChatMessage::assistant(answer.as_str())),
            );
            assert(history_view(self.history@) =~= before.push(chat_view("assistant"@, answer@)));
            trim_history(&mut self.history, self.settings.max_history_messages);
            self.finish(answer, StopReason::EndTurn)
        } else {
            let ghost before = history_view(self.history@);
            let has_text = !is_empty(&text);
            if has_text {
                self.history.push(
                    ConversationMessage::Chat(ChatMessage::assistant(text.as_str())),
                );
                assert(history_view(self.history@) =~= before.push(chat_view("assistant"@, text@)));
            }
            let ghost middle = history_view(self.history@);
            self.history.push(
                ConversationMessage::AssistantToolCalls {
                    text: response_text,
                    tool_calls: response_tool_calls,
                    reasoning_content,
                },
            );
            assert(history_view(self.history@) =~= middle.push(
                MessageView::AssistantToolCalls {
                    text: rv.response_text,
                    tool_calls: rv.response_tool_calls,
                    reasoning_content: rv.reasoning_content,
                },
            ));
            self.batch = Ghost(calls@);
            self.pending = calls;
            self.results = Vec::new();
            assert(results_view(self.results@) =~= Seq::<ResultView>::empty());
            if has_text {
                self.phase = TurnPhase::AwaitingEmit;
                TurnAction::EmitText { text }
            } else {
                self.next_tool()
            }
        }
    }

    fn on_tool(&mut self, outcome: ToolOutcome) -> (a: TurnAction)
        requires
            old(self).executed < usize::MAX,
        ensures
            (final(self)@, a@) == on_tool(old(self)@, outcome@),
    {
        let (output, success) = tool_output(&self.current_name, outcome);
        let ghost before = results_view(self.results@);
        let result = ToolExecutionResult {
            name: self.current_name.clone(),
            output,
            success,
            tool_call_id: duplicate_opt(&self.current_id),
        };
        self.results.push(result);
        assert(results_view(self.results@) =~= before.push(result@));
        self.executed = self.executed + 1;
        if self.pending.len() > 0 {
            self.next_tool()
        } else {
            self.phase = TurnPhase::AwaitingFormat;
            let mut results: Vec<ToolExecutionResult> = Vec::new();
            std::mem::swap(&mut results, &mut self.results);
            assert(results_view(self.results@) =~= Seq::<ResultView>::empty());
            TurnAction::FormatResults { results }
        }
    }

    fn step(&mut self, event: TurnEvent) -> (a: TurnAction)
        requires
            wf(old(self)@),
            (old(self)@.phase == TurnPhase::AwaitingTool && event is ToolFinished) ==> old(
                self,
            )@.executed < usize::MAX,
        ensures
            (final(self)@, a@) == transition(old(self)@, event@),
    {
        match (self.phase, event) {
            (TurnPhase::AwaitingSystemPrompt, TurnEvent::SystemPrompt(prompt)) => {
                let ghost before = history_view(self.history@);
                self.history.push(ConversationMessage::Chat(ChatMessage::system(prompt.as_str())));
                assert(history_view(self.history@) =~= before.push(chat_view("system"@, prompt@)));
                self.after_prompt()
            },
            (TurnPhase::AwaitingSystemPrompt, TurnEvent::SystemPromptFailed(error)) => {
                self.phase = TurnPhase::Finished;
                TurnAction::Fail { error }
            },
            (TurnPhase::AwaitingSave, TurnEvent::UserMessageSaved(_)) => {
                self.phase = TurnPhase::AwaitingContext;
                TurnAction::LoadMemoryContext { message: self.message.clone() }
            },
            (TurnPhase::AwaitingContext, TurnEvent::MemoryContext(loaded)) => {
                let ghost lv = TurnEvent::MemoryContext(loaded)@;
                let context = match loaded {
                    Ok(c) => c,
                    Err(_) => String::new(),
                };
                assert(lv matches EventView::MemoryContext(c) && context@ == loaded_context(c));
                let content = if is_empty(&context) {
                    self.message.clone()
                } else {
                    join(context.as_str(), self.message.as_str())
                };
                let ghost before = history_view(self.history@);
                self.history.push(ConversationMessage::Chat(ChatMessage::user(content.as_str())));
                assert(history_view(self.history@) =~= before.push(
                    chat_view("user"@, enriched(context@, self.message@)),
                ));
                self.phase = TurnPhase::AwaitingClassification;
                TurnAction::ClassifyQuery { message: self.message.clone() }
            },
            (TurnPhase::AwaitingClassification, TurnEvent::QueryClassified(hint)) => {
                self.model = classify_model(
                    &hint,
                    &self.settings.available_hints,
                    self.settings.model_name.as_str(),
                );
                self.call_or_stop()
            },
            (TurnPhase::AwaitingReply, TurnEvent::ProviderReplied(reply)) => self.on_reply(reply),
            (TurnPhase::AwaitingReply, TurnEvent::ProviderFailed(error)) => {
                self.phase = TurnPhase::Finished;
                TurnAction::Fail { error }
            },
            (TurnPhase::AwaitingEmit, TurnEvent::TextEmitted) => self.next_tool(),
            (TurnPhase::AwaitingTool, TurnEvent::ToolFinished(outcome)) => self.on_tool(outcome),
            (TurnPhase::AwaitingFormat, TurnEvent::ResultsFormatted(message)) => {
                let ghost before = history_view(self.history@);
                let ghost mv = message@;
                self.history.push(message);
                assert(history_view(self.history@) =~= before.push(mv));
                trim_history(&mut self.history, self.settings.max_history_messages);
                self.iterations = self.iterations + 1;
                self.call_or_stop()
            },
            _ => TurnAction::Rejected,
        }
    }
}

/// Law: every state a turn reaches satisfies `wf`: starting states do,
/// and each transition keeps it.
pub proof fn law_transition_keeps_wf(s: TurnView, e: EventView)
    requires
        wf(s),
    ensures
        wf(transition(s, e).0),
{
    let t = transition(s, e).0;
    match (s.phase, e) {
        (TurnPhase::AwaitingEmit, EventView::TextEmitted) => {
            assert(s.batch.skip(1) =~= s.pending.drop_first());
        },
        (TurnPhase::AwaitingTool, EventView::ToolFinished(o)) => {
            let k = s.results.len() as int;
            if s.pending.len() > 0 {
                assert(s.pending.drop_first() =~= s.batch.skip(k + 2));
                assert(s.pending[0] == s.batch[k + 1]);
            }
        },
        (TurnPhase::AwaitingReply, EventView::ProviderReplied(r)) => {
            if r.calls.len() > 0 && r.text.len() == 0 {
                assert(r.calls.skip(1) =~= r.calls.drop_first());
            }
        },
        _ => {},
    }
}

/// Law: a failed system prompt and a failed model call end the turn with
/// that failure's error, and nothing else ends a turn with an error.
pub proof fn law_failures_end_turn(s: TurnView, e: EventView)
    ensures
        transition(s, e).1 is Fail <==> ((s.phase == TurnPhase::AwaitingSystemPrompt
            && e is SystemPromptFailed) || (s.phase == TurnPhase::AwaitingReply
            && e is ProviderFailed)),
        transition(s, e).1 matches ActionView::Fail(m) ==> {
            &&& transition(s, e).0.phase == TurnPhase::Finished
            &&& (e matches EventView::SystemPromptFailed(x) && x == m) || (e matches EventView::ProviderFailed(
                x,
            ) && x == m)
        },
{
}

/// Law: a failure to save the message or to load memory context never ends
/// the turn: a failed save goes on as a successful one, and a failed load
/// as a load that found no context.
pub proof fn law_memory_failures_are_ignored(s: TurnView, error: Seq<char>)
    ensures
        transition(s, EventView::UserMessageSaved(Err(error))) == transition(
            s,
            EventView::UserMessageSaved(Ok(())),
        ),
        transition(s, EventView::MemoryContext(Err(error))) == transition(
            s,
            EventView::MemoryContext(Ok(Seq::empty())),
        ),
        !(transition(s, EventView::UserMessageSaved(Err(error))).1 is Fail),
        !(transition(s, EventView::MemoryContext(Err(error))).1 is Fail),
{
}

/// Law: when a tool call finishes, the result recorded for it carries the
/// call's name and id and is a success exactly when the tool ran and
/// reported success. Its output is the tool's output then; "Unknown tool: "
/// and the name when no tool has the name; "Error: " and the tool's error
/// (or, without one, its output) when the tool reported failure; and
/// "Error executing ", the name, ": " and the error when the tool could not
/// run. The result is added after those of the earlier calls of the batch.
pub proof fn law_tool_result_reports_outcome(s: TurnView, o: OutcomeView)
    requires
        s.phase == TurnPhase::AwaitingTool,
    ensures
        ({
            let (t, a) = transition(s, EventView::ToolFinished(o));
            let rs = match a {
                ActionView::FormatResults(rs) => rs,
                _ => t.results,
            };
            let r = rs.last();
            &&& rs.len() == s.results.len() + 1
            &&& rs.drop_last() == s.results
            &&& r.name == s.current_name
            &&& r.tool_call_id == s.current_id
            &&& (r.success <==> (o matches OutcomeView::Completed { success, .. } && success))
            &&& (o is UnknownTool ==> r.output == "Unknown tool: "@ + s.current_name)
            &&& (o matches OutcomeView::Failed { error } ==> r.output == "Error executing "@
                + s.current_name + ": "@ + error)
            &&& (o matches OutcomeView::Completed { success, output, error } ==> r.output == (
            if success {
                output
            } else {
                "Error: "@ + match error {
                    Some(e) => e,
                    None => output,
                }
            }))
        }),
{
    let (t, a) = transition(s, EventView::ToolFinished(o));
    let rs = match a {
        ActionView::FormatResults(rs) => rs,
        _ => t.results,
    };
    assert(rs.drop_last() =~= s.results);
}

/// Law: a reply with tool calls puts one tool-call message at the end of the
/// history, carrying the reply's text, tool calls and reasoning unchanged,
/// after the reply's text as an assistant message when there is any; the
/// history before stays as it was, and the reply's parsed calls become the
/// batch to execute.
pub proof fn law_reply_records_tool_calls(s: TurnView, r: ReplyView)
    requires
        s.phase == TurnPhase::AwaitingReply,
        r.calls.len() > 0,
    ensures
        ({
            let t = transition(s, EventView::ProviderReplied(r)).0;
            &&& t.history.last() == MessageView::AssistantToolCalls {
                text: r.response_text,
                tool_calls: r.response_tool_calls,
                reasoning_content: r.reasoning_content,
            }
            &&& t.history.drop_last() == (if r.text.len() > 0 {
                s.history.push(chat_view("assistant"@, r.text))
            } else {
                s.history
            })
            &&& t.batch == r.calls
            &&& t.phase != TurnPhase::Finished
        }),
{
    let t = transition(s, EventView::ProviderReplied(r)).0;
    if r.text.len() > 0 {
        assert(t.history.drop_last() =~= s.history.push(chat_view("assistant"@, r.text)));
    } else {
        assert(t.history.drop_last() =~= s.history);
    }
}

/// Law: a turn starts in a state that satisfies `wf`.
pub proof fn law_begin_wf(settings: SettingsView, message: Seq<char>, history: Seq<MessageView>)
    ensures
        wf(begin(settings, message, history).0),
{
}

/// Law: a finished turn stays finished: every event is rejected and
/// changes nothing.
pub proof fn law_finished_is_terminal(s: TurnView, e: EventView)
    requires
        s.phase == TurnPhase::Finished,
    ensures
        transition(s, e) == (s, ActionView::Rejected),
{
}

/// Law: the count of executed tool calls goes up by one for each tool call
/// that finishes, and changes on no other event.
pub proof fn law_executed_counts_finished_calls(s: TurnView, e: EventView)
    ensures
        transition(s, e).0.executed == s.executed + (if s.phase == TurnPhase::AwaitingTool
            && e is ToolFinished {
            1nat
        } else {
            0nat
        }),
{
}

/// Law: the results handed out for formatting answer the calls of the
/// reply, one each and in order: same number, same names, same call ids.
pub proof fn law_results_answer_calls(s: TurnView, e: EventView)
    requires
        wf(s),
        transition(s, e).1 is FormatResults,
    ensures
        ({
            let rs = transition(s, e).1->FormatResults_0;
            &&& rs.len() == s.batch.len()
            &&& forall|i: int|
                0 <= i < rs.len() ==> (#[trigger] rs[i]).name == s.batch[i].name@
                    && rs[i].tool_call_id == opt_view(s.batch[i].tool_call_id)
        }),
{
    let k = s.results.len() as int;
    assert(s.pending.len() == s.batch.len() - (k + 1));
}

/// Law: a turn that ends normally ends with the reply: when the history may
/// hold at least one message, the last message of the history it hands
/// back is the assistant's answer, and the answer is the response.
pub proof fn law_end_turn_reply_is_last(s: TurnView, e: EventView)
    requires
        s.settings.max_history_messages >= 1,
        transition(s, e).1 matches ActionView::Finish(out) && out.stop_reason
            == StopReasonView::EndTurn,
    ensures
        ({
            let out = transition(s, e).1->Finish_0;
            out.history.len() > 0 && out.history.last() == chat_view("assistant"@, out.response)
        }),
{
    let r = e->ProviderReplied_0;
    let text = final_text(r);
    let m = chat_view("assistant"@, text);
    let h = s.history.push(m);
    let max = s.settings.max_history_messages;
    if h.len() > max {
        crate::history::lemma_trimmed_parts(h, max);
        crate::history::lemma_parts_concat(s.history, seq![m]);
        reveal_strlit("assistant");
        reveal_strlit("system");
        assert("assistant"@[0] != "system"@[0]);
        assert(!is_system(m));
        reveal_with_fuel(crate::history::dialogue_part, 2);
        reveal_with_fuel(crate::history::system_part, 2);
        assert(seq![m].drop_last() =~= Seq::<MessageView>::empty());
        let d = crate::history::dialogue_part(h);
        assert(d.last() == m);
        let kept = crate::history::keep_last(d, max);
        assert(kept.last() == m);
        assert(trimmed(h, max).last() == kept.last());
    }
}

/// Law: a turn ends normally only on a reply without tool calls, and ends
/// for want of iterations only when every allowed round was used, with the
/// message that says so.
pub proof fn law_stop_reasons(s: TurnView, e: EventView)
    requires
        wf(s),
        transition(s, e).1 is Finish,
    ensures
        transition(s, e).1->Finish_0.stop_reason == StopReasonView::EndTurn ==> (s.phase
            == TurnPhase::AwaitingReply && (e matches EventView::ProviderReplied(r) && r.calls.len()
            == 0)),
        transition(s, e).1->Finish_0.stop_reason == StopReasonView::MaxIterations ==> (
        transition(s, e).0.iterations == s.settings.max_tool_iterations && transition(
            s,
            e,
        ).1->Finish_0.response == max_iterations_message(s.settings.max_tool_iterations)),
        transition(s, e).0.phase == TurnPhase::Finished,
{
}

/// Law: the model is called once when classification is done, and again
/// only after a round of tool calls was formatted, each round counted;
/// since a turn never counts more rounds than the maximum, the model is
/// called at most that many times.
pub proof fn law_model_calls_are_counted(s: TurnView, e: EventView)
    requires
        wf(s),
        transition(s, e).1 is CallProvider,
    ensures
        (s.phase == TurnPhase::AwaitingClassification && transition(s, e).0.iterations
            == s.iterations) || (s.phase == TurnPhase::AwaitingFormat && transition(s, e).0.iterations
            == s.iterations + 1),
        transition(s, e).0.iterations < s.settings.max_tool_iterations,
{
}

/// One agentic turn in progress. Create it with `start`, perform each action
/// it returns, and report what came of it with `step`, until the action is
/// `Finish`.
pub struct AgenticTurn {
    state: TurnState,
}

impl AgenticTurn {
    #[verifier::type_invariant]
    spec fn well_formed(self) -> bool {
        wf(self.state@)
    }
}

impl View for AgenticTurn {
    type V = TurnView;

    closed spec fn view(&self) -> TurnView {
        self.state@
    }
}

impl AgenticTurn {
    /// Start a turn for `input` with `settings`, as `begin` states. The
    /// input's own system prompt is not used by this strategy.
    pub fn start(input: BrainInput, settings: TurnSettings) -> (r: (AgenticTurn, TurnAction))
        ensures
            (r.0@, r.1@) == begin(settings@, input.message@, history_view(input.history@)),
    {
        let empty = input.history.len() == 0;
        let model = settings.model_name.clone();
        let mut state = TurnState {
            settings,
            message: input.message,
            history: input.history,
            model,
            iterations: 0,
            executed: 0,
            batch: Ghost(Seq::empty()),
            pending: Vec::new(),
            current_name: String::new(),
            current_id: None,
            results: Vec::new(),
            phase: TurnPhase::AwaitingSystemPrompt,
        };
        assert(results_view(state.results@) =~= Seq::<ResultView>::empty());
        if empty {
            (AgenticTurn { state }, TurnAction::BuildSystemPrompt)
        } else {
            let action = state.after_prompt();
            (AgenticTurn { state }, action)
        }
    }

    /// Report an event, as `transition` states: the turn moves on and says
    /// what to do next; an event that does not fit is `Rejected` and changes
    /// nothing. A finished tool call must not bring the count of executed
    /// calls past `usize::MAX`.
    pub fn step(&mut self, event: TurnEvent) -> (a: TurnAction)
        requires
            (old(self)@.phase == TurnPhase::AwaitingTool && event is ToolFinished) ==> old(
                self,
            )@.executed < usize::MAX,
        ensures
            (final(self)@, a@) == transition(old(self)@, event@),
    {
        proof {
            use_type_invariant(&*self);
        }
        let ghost before = self@;
        let ghost ev = event@;
        let mut state = TurnState::finished();
        std::mem::swap(&mut state, &mut self.state);
        let action = state.step(event);
        proof {
            law_transition_keeps_wf(before, ev);
        }
        self.state = state;
        action
    }

    /// The history so far (the provider is sent this).
    pub fn history(&self) -> (r: &Vec<ConversationMessage>)
        ensures
            history_view(r@) == self@.history,
    {
        &self.state.history
    }

    /// Where the turn stands.
    pub fn phase(&self) -> (r: TurnPhase)
        ensures
            r == self@.phase,
    {
        self.state.phase
    }

    /// Tool calls executed so far.
    pub fn tool_calls_executed(&self) -> (r: usize)
        ensures
            r == self@.executed,
    {
        self.state.executed
    }
}

} // verus!
