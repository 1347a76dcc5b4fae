//! Brains: strategies that turn a user message into a response.
//!
//! [`AgenticBrain`] runs a multi-turn tool-calling loop (its decisions are
//! the state machine of [`crate::turn`]); [`SimpleBrain`] asks the model
//! once. [`create_brain`] picks one by mode.

use vstd::prelude::*;
use crate::messages::{
    ChatMessage, ConversationMessage, MessageView, chat_view, history_view, opt_view,
};
use crate::text::{join, str_eq, strings_view};

verus! {

/// Input to a brain turn.
#[derive(Debug, Clone)]
pub struct BrainInput {
    /// The user's message text.
    pub message: String,
    /// Conversation history accumulated so far.
    pub history: Vec<ConversationMessage>,
    /// Optional override for the system prompt.
    pub system_prompt: Option<String>,
}

/// Why the brain stopped producing output.
#[derive(Debug, Clone, PartialEq, Eq)]
pub enum StopReason {
    /// Natural end of response (no more tool calls).
    EndTurn,
    /// Exceeded the maximum number of tool iterations.
    MaxIterations,
    /// An error occurred during processing.
    Error(String),
}

/// The view of a stop reason.
pub enum StopReasonView {
    EndTurn,
    MaxIterations,
    Error(Seq<char>),
}

impl View for StopReason {
    type V = StopReasonView;

    open spec fn view(&self) -> StopReasonView {
        match self {
            StopReason::EndTurn => StopReasonView::EndTurn,
            StopReason::MaxIterations => StopReasonView::MaxIterations,
            StopReason::Error(e) => StopReasonView::Error(e@),
        }
    }
}

/// Output from a brain turn.
#[derive(Debug, Clone)]
pub struct BrainOutput {
    /// The final text response from the brain.
    pub response: String,
    /// Number of tool calls that were executed during this turn.
    pub tool_calls_executed: usize,
    /// Updated conversation history (including this turn).
    pub history: Vec<ConversationMessage>,
    /// The reason the brain stopped producing output.
    pub stop_reason: StopReason,
}

/// The view of a brain's output.
pub struct OutputView {
    pub response: Seq<char>,
    pub tool_calls_executed: nat,
    pub history: Seq<MessageView>,
    pub stop_reason: StopReasonView,
}

impl View for BrainOutput {
    type V = OutputView;

    open spec fn view(&self) -> OutputView {
        OutputView {
            response: self.response@,
            tool_calls_executed: self.tool_calls_executed as nat,
            history: history_view(self.history@),
            stop_reason: self.stop_reason@,
        }
    }
}

/// Capabilities declared by a brain implementation.
#[derive(Debug, Clone, Default)]
pub struct BrainCapabilities {
    /// Whether this brain supports multi-turn tool-calling loops.
    pub supports_tool_calling: bool,
    /// Whether this brain supports streaming responses.
    pub supports_streaming: bool,
    /// Whether this brain supports multi-turn conversations.
    pub supports_multi_turn: bool,
    /// Whether this brain supports extended reasoning / chain-of-thought.
    pub supports_reasoning: bool,
}

/// What a brain strategy declares of itself: its name and capabilities.
pub trait Brain {
    spec fn spec_name(&self) -> Seq<char>;

    spec fn spec_capabilities(&self) -> BrainCapabilities;

    /// Human-readable name of this brain strategy.
    fn name(&self) -> (r: &str)
        ensures
            r@ == self.spec_name(),
    ;

    /// Capabilities of this brain implementation.
    fn capabilities(&self) -> (r: BrainCapabilities)
        ensures
            r == self.spec_capabilities(),
    ;
}

/// The standard agentic brain: a multi-turn tool-calling loop.
pub struct AgenticBrain;

impl AgenticBrain {
    pub fn new() -> (r: Self) {
        AgenticBrain
    }
}

impl Brain for AgenticBrain {
    open spec fn spec_name(&self) -> Seq<char> {
        "agentic"@
    }

    open spec fn spec_capabilities(&self) -> BrainCapabilities {
        BrainCapabilities {
            supports_tool_calling: true,
            supports_streaming: false,
            supports_multi_turn: true,
            supports_reasoning: false,
        }
    }

    fn name(&self) -> (r: &str) {
        "agentic"
    }

    fn capabilities(&self) -> (r: BrainCapabilities) {
        BrainCapabilities {
            supports_tool_calling: true,
            supports_streaming: false,
            supports_multi_turn: true,
            supports_reasoning: false,
        }
    }
}

/// A simple single-shot brain: no tool calling, just one question and answer.
pub struct SimpleBrain;

impl SimpleBrain {
    pub fn new() -> (r: Self) {
        SimpleBrain
    }

    /// Finish a single-shot turn once the model has answered `response`: the
    /// history gains the user's message and the answer, and the turn ends
    /// normally with no tool call executed.
    pub fn complete_turn(&self, input: BrainInput, response: String) -> (r: BrainOutput)
        ensures
            r@.response == response@,
            r@.tool_calls_executed == 0,
            r@.history == history_view(input.history@).push(chat_view("user"@, input.message@)).push(
                chat_view("assistant"@, response@),
            ),
            r@.stop_reason == StopReasonView::EndTurn,
    {
        let mut history = input.history;
        let ghost before = history@;
        history.push(ConversationMessage::Chat(ChatMessage::user(input.message.as_str())));
        history.push(ConversationMessage::Chat(ChatMessage::assistant(response.as_str())));
        assert(history_view(history@) =~= history_view(before).push(
            chat_view("user"@, input.message@),
        ).push(chat_view("assistant"@, response@)));
        BrainOutput { response, tool_calls_executed: 0, history, stop_reason: StopReason::EndTurn }
    }
}

impl Brain for SimpleBrain {
    open spec fn spec_name(&self) -> Seq<char> {
        "simple"@
    }

    open spec fn spec_capabilities(&self) -> BrainCapabilities {
        BrainCapabilities {
            supports_tool_calling: false,
            supports_streaming: false,
            supports_multi_turn: false,
            supports_reasoning: false,
        }
    }

    fn name(&self) -> (r: &str) {
        "simple"
    }

    fn capabilities(&self) -> (r: BrainCapabilities) {
        BrainCapabilities {
            supports_tool_calling: false,
            supports_streaming: false,
            supports_multi_turn: false,
            supports_reasoning: false,
        }
    }
}

/// The name of the brain that `create_brain` builds for a mode: "simple"
/// for "simple", "agentic" for every other mode.
pub open spec fn brain_for_mode(mode: Seq<char>) -> Seq<char> {
    if mode == "simple"@ {
        "simple"@
    } else {
        "agentic"@
    }
}

/// A brain chosen by mode: one of the two strategies.
pub enum ChosenBrain {
    Agentic(AgenticBrain),
    Simple(SimpleBrain),
}

impl Brain for ChosenBrain {
    open spec fn spec_name(&self) -> Seq<char> {
        match self {
            ChosenBrain::Agentic(b) => b.spec_name(),
            ChosenBrain::Simple(b) => b.spec_name(),
        }
    }

    open spec fn spec_capabilities(&self) -> BrainCapabilities {
        match self {
            ChosenBrain::Agentic(b) => b.spec_capabilities(),
            ChosenBrain::Simple(b) => b.spec_capabilities(),
        }
    }

    fn name(&self) -> (r: &str) {
        match self {
            ChosenBrain::Agentic(b) => b.name(),
            ChosenBrain::Simple(b) => b.name(),
        }
    }

    fn capabilities(&self) -> (r: BrainCapabilities) {
        match self {
            ChosenBrain::Agentic(b) => b.capabilities(),
            ChosenBrain::Simple(b) => b.capabilities(),
        }
    }
}

/// Create a brain from a mode string: "simple" gives the single-shot brain,
/// anything else the agentic one.
pub fn create_brain(mode: &str) -> (r: ChosenBrain)
    ensures
        r.spec_name() == brain_for_mode(mode@),
{
    proof {
        reveal_strlit("simple");
    }
    if str_eq(mode, "simple") {
        ChosenBrain::Simple(SimpleBrain::new())
    } else {
        ChosenBrain::Agentic(AgenticBrain::new())
    }
}

/// The model a query goes to: "hint:" followed by the classifier's hint when
/// there is one and it is among the available hints, else the configured
/// model.
pub open spec fn effective_model(
    hint: Option<Seq<char>>,
    available_hints: Seq<Seq<char>>,
    model_name: Seq<char>,
) -> Seq<char> {
    match hint {
        Some(h) => if available_hints.contains(h) {
            "hint:"@ + h
        } else {
            model_name
        },
        None => model_name,
    }
}

/// Law: a hint found at any position among the available hints selects
/// "hint:" followed by that hint; a hint found at no position, or no hint,
/// leaves the configured model.
pub proof fn law_hint_routing(hints: Seq<Seq<char>>, model: Seq<char>, h: Seq<char>)
    ensures
        forall|k: int|
            0 <= k < hints.len() ==> effective_model(Some(#[trigger] hints[k]), hints, model) == "hint:"@
                + hints[k],
        (forall|k: int| 0 <= k < hints.len() ==> #[trigger] hints[k] != h) ==> effective_model(
            Some(h),
            hints,
            model,
        ) == model,
        effective_model(None, hints, model) == model,
{
    assert forall|k: int| 0 <= k < hints.len() implies effective_model(
        Some(#[trigger] hints[k]),
        hints,
        model,
    ) == "hint:"@ + hints[k] by {
        assert(hints.contains(hints[k]));
    }
}

/// Pick the model for a query from the classifier's hint, as
/// `effective_model` states.
pub fn classify_model(hint: &Option<String>, available_hints: &Vec<String>, model_name: &str) -> (r:
    String)
    ensures
        r@ == effective_model(opt_view(*hint), strings_view(available_hints@), model_name@),
        forall|k: int|
            0 <= k < available_hints@.len() && opt_view(*hint) == Some(
                #[trigger] strings_view(available_hints@)[k],
            ) ==> r@ == "hint:"@ + strings_view(available_hints@)[k],
        (forall|k: int|
            0 <= k < available_hints@.len() ==> opt_view(*hint) != Some(
                #[trigger] strings_view(available_hints@)[k],
            )) ==> r@ == model_name@,
{
    proof {
        let hv = match opt_view(*hint) {
            Some(x) => x,
            None => Seq::<char>::empty(),
        };
        law_hint_routing(strings_view(available_hints@), model_name@, hv);
    }
    match hint {
        None => {},
        Some(h) => {
            let mut i: usize = 0;
            while i < available_hints.len()
                invariant
                    i <= available_hints@.len(),
                    opt_view(*hint) == Some(h@),
                    forall|j: int| 0 <= j < i ==> (#[trigger] available_hints@[j])@ != h@,
                decreases available_hints@.len() - i,
            {
                if available_hints[i] == *h {
                    assert(strings_view(available_hints@)[i as int] == h@);
                    assert(strings_view(available_hints@).contains(h@));
                    return join("hint:", h.as_str());
                }
                i = i + 1;
            }
            assert(!strings_view(available_hints@).contains(h@)) by {
                if strings_view(available_hints@).contains(h@) {
                    let k = choose|k: int|
                        0 <= k < strings_view(available_hints@).len() && strings_view(
                            available_hints@,
                        )[k] == h@;
                    assert(available_hints@[k]@ == h@);
                }
            }
        },
    }
    crate::text::to_string(model_name)
}

} // verus!
