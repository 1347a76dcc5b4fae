//! Conversation message types and their mathematical views.

use vstd::prelude::*;
use crate::text::{str_eq, to_string};

verus! {

/// A single chat message with a role ("system", "user", "assistant", "tool")
/// and its text content.
#[derive(Debug, Clone)]
pub struct ChatMessage {
    pub role: String,
    pub content: String,
}

/// A tool call requested by the model, as the provider reported it.
#[derive(Debug, Clone)]
pub struct ToolCall {
    pub id: String,
    pub name: String,
    pub arguments: String,
}

/// The result of one tool call, sent back to the model.
#[derive(Debug, Clone)]
pub struct ToolResultMessage {
    pub tool_call_id: String,
    pub content: String,
}

/// One entry of a conversation history.
#[derive(Debug, Clone)]
pub enum ConversationMessage {
    /// A plain chat message.
    Chat(ChatMessage),
    /// An assistant turn that requested tool calls.
    AssistantToolCalls {
        text: Option<String>,
        tool_calls: Vec<ToolCall>,
        reasoning_content: Option<String>,
    },
    /// Results of executed tool calls.
    ToolResults(Vec<ToolResultMessage>),
}

/// The view of a tool call: id, name and arguments.
pub struct ToolCallView {
    pub id: Seq<char>,
    pub name: Seq<char>,
    pub arguments: Seq<char>,
}

/// The view of a tool result: the call it answers and its content.
pub struct ToolResultView {
    pub tool_call_id: Seq<char>,
    pub content: Seq<char>,
}

/// The mathematical view of a conversation message.
pub enum MessageView {
    Chat { role: Seq<char>, content: Seq<char> },
    AssistantToolCalls {
        text: Option<Seq<char>>,
        tool_calls: Seq<ToolCallView>,
        reasoning_content: Option<Seq<char>>,
    },
    ToolResults { results: Seq<ToolResultView> },
}

pub open spec fn opt_view(o: Option<String>) -> Option<Seq<char>> {
    match o {
        Some(s) => Some(s@),
        None => None,
    }
}

impl View for ToolCall {
    type V = ToolCallView;

    open spec fn view(&self) -> ToolCallView {
        ToolCallView { id: self.id@, name: self.name@, arguments: self.arguments@ }
    }
}

impl View for ToolResultMessage {
    type V = ToolResultView;

    open spec fn view(&self) -> ToolResultView {
        ToolResultView { tool_call_id: self.tool_call_id@, content: self.content@ }
    }
}

impl View for ConversationMessage {
    type V = MessageView;

    open spec fn view(&self) -> MessageView {
        match self {
            ConversationMessage::Chat(c) => MessageView::Chat { role: c.role@, content: c.content@ },
            ConversationMessage::AssistantToolCalls { text, tool_calls, reasoning_content } =>
                MessageView::AssistantToolCalls {
                    text: opt_view(*text),
                    tool_calls: tool_calls@.map_values(|t: ToolCall| t@),
                    reasoning_content: opt_view(*reasoning_content),
                },
            ConversationMessage::ToolResults(rs) => MessageView::ToolResults {
                results: rs@.map_values(|r: ToolResultMessage| r@),
            },
        }
    }
}

/// The view of a whole history: the view of each message, in order.
pub open spec fn history_view(h: Seq<ConversationMessage>) -> Seq<MessageView> {
    h.map_values(|m: ConversationMessage| m@)
}

/// A chat message view with the given role and content.
pub open spec fn chat_view(role: Seq<char>, content: Seq<char>) -> MessageView {
    MessageView::Chat { role, content }
}

/// A message is a system message when it is a chat message whose role is "system".
pub open spec fn is_system(m: MessageView) -> bool {
    m matches MessageView::Chat { role, .. } && role == "system"@
}

impl ChatMessage {
    fn with_role(role: &str, content: &str) -> (m: ChatMessage)
        ensures
            m.role@ == role@,
            m.content@ == content@,
    {
        ChatMessage { role: to_string(role), content: to_string(content) }
    }

    /// A system message.
    pub fn system(content: &str) -> (m: ChatMessage)
        ensures
            m.role@ == "system"@,
            m.content@ == content@,
    {
        Self::with_role("system", content)
    }

    /// A user message.
    pub fn user(content: &str) -> (m: ChatMessage)
        ensures
            m.role@ == "user"@,
            m.content@ == content@,
    {
        Self::with_role("user", content)
    }

    /// An assistant message.
    pub fn assistant(content: &str) -> (m: ChatMessage)
        ensures
            m.role@ == "assistant"@,
            m.content@ == content@,
    {
        Self::with_role("assistant", content)
    }

    /// A tool message.
    pub fn tool(content: &str) -> (m: ChatMessage)
        ensures
            m.role@ == "tool"@,
            m.content@ == content@,
    {
        Self::with_role("tool", content)
    }
}

impl ConversationMessage {
    /// Whether this is a system chat message.
    pub fn is_system_message(&self) -> (r: bool)
        ensures
            r == is_system(self@),
    {
        match self {
            ConversationMessage::Chat(c) => {
                proof {
                    reveal_strlit("system");
                }
                str_eq(c.role.as_str(), "system")
            },
            _ => false,
        }
    }
}

impl ChatMessage {
    /// A copy of this message.
    pub fn duplicate(&self) -> (r: ChatMessage)
        ensures
            r == *self,
    {
        ChatMessage { role: self.role.clone(), content: self.content.clone() }
    }
}

impl ToolCall {
    /// A copy of this tool call.
    pub fn duplicate(&self) -> (r: ToolCall)
        ensures
            r == *self,
    {
        ToolCall { id: self.id.clone(), name: self.name.clone(), arguments: self.arguments.clone() }
    }
}

impl ToolResultMessage {
    /// A copy of this tool result.
    pub fn duplicate(&self) -> (r: ToolResultMessage)
        ensures
            r == *self,
    {
        ToolResultMessage { tool_call_id: self.tool_call_id.clone(), content: self.content.clone() }
    }
}

/// A copy of an optional string.
pub fn duplicate_opt(o: &Option<String>) -> (r: Option<String>)
    ensures
        r == *o,
{
    match o {
        Some(s) => Some(s.clone()),
        None => None,
    }
}

/// A copy of a list of tool calls.
pub fn duplicate_calls(v: &Vec<ToolCall>) -> (r: Vec<ToolCall>)
    ensures
        r@ == v@,
{
    let mut out: Vec<ToolCall> = Vec::new();
    let mut i: usize = 0;
    while i < v.len()
        invariant
            i <= v@.len(),
            out@ == v@.take(i as int),
        decreases v@.len() - i,
    {
        out.push(v[i].duplicate());
        assert(out@ =~= v@.take(i + 1));
        i = i + 1;
    }
    assert(v@.take(v@.len() as int) =~= v@);
    out
}

/// A copy of a list of tool results.
pub fn duplicate_results(v: &Vec<ToolResultMessage>) -> (r: Vec<ToolResultMessage>)
    ensures
        r@ == v@,
{
    let mut out: Vec<ToolResultMessage> = Vec::new();
    let mut i: usize = 0;
    while i < v.len()
        invariant
            i <= v@.len(),
            out@ == v@.take(i as int),
        decreases v@.len() - i,
    {
        out.push(v[i].duplicate());
        assert(out@ =~= v@.take(i + 1));
        i = i + 1;
    }
    assert(v@.take(v@.len() as int) =~= v@);
    out
}

impl ConversationMessage {
    /// A copy of this message.
    pub fn duplicate(&self) -> (r: ConversationMessage)
        ensures
            r@ == self@,
    {
        match self {
            ConversationMessage::Chat(c) => {
                let d = c.duplicate();
                assert(d == *c);
                ConversationMessage::Chat(d)
            },
            ConversationMessage::AssistantToolCalls { text, tool_calls, reasoning_content } => {
                ConversationMessage::AssistantToolCalls {
                    text: duplicate_opt(text),
                    tool_calls: duplicate_calls(tool_calls),
                    reasoning_content: duplicate_opt(reasoning_content),
                }
            },
            ConversationMessage::ToolResults(rs) => ConversationMessage::ToolResults(
                duplicate_results(rs),
            ),
        }
    }
}

/// A copy of a history.
pub fn duplicate_history(v: &Vec<ConversationMessage>) -> (r: Vec<ConversationMessage>)
    ensures
        history_view(r@) == history_view(v@),
{
    let mut out: Vec<ConversationMessage> = Vec::new();
    let mut i: usize = 0;
    while i < v.len()
        invariant
            i <= v@.len(),
            out@.len() == i,
            history_view(out@) == history_view(v@.take(i as int)),
        decreases v@.len() - i,
    {
        let ghost prev = out@;
        let d = v[i].duplicate();
        out.push(d);
        assert forall|k: int| 0 <= k < i + 1 implies #[trigger] history_view(out@)[k] == history_view(
            v@.take(i + 1),
        )[k] by {
            if k < i {
                assert(out@[k] == prev[k]);
                assert(history_view(prev)[k] == history_view(v@.take(i as int))[k]);
            }
        }
        assert(history_view(out@) =~= history_view(v@.take(i + 1)));
        i = i + 1;
    }
    assert(v@.take(v@.len() as int) =~= v@);
    out
}

} // verus!
