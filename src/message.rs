//! The data exchanged with the remote model.
use vstd::prelude::*;

verus! {

/// Who wrote a message.
#[derive(PartialEq, Eq, Structural, Clone, Copy, Debug)]
pub enum Role {
    User,
    System,
    Assistant,
    Tool,
}

/// The function named by a tool call, with its arguments as raw JSON text.
#[derive(Clone, Debug, PartialEq, Eq)]
pub struct FunctionCall {
    pub name: String,
    pub arguments: String,
}

/// A request, found in an assistant reply, to run a named function.
#[derive(Clone, Debug, PartialEq, Eq)]
pub struct ToolCall {
    pub id: String,
    /// The kind of call; only `"function"` is understood.
    pub kind: String,
    pub function: FunctionCall,
}

/// The mathematical view of a [`ToolCall`].
pub struct ToolCallView {
    pub id: Seq<char>,
    pub kind: Seq<char>,
    pub name: Seq<char>,
    pub arguments: Seq<char>,
}

impl View for ToolCall {
    type V = ToolCallView;

    open spec fn view(&self) -> ToolCallView {
        ToolCallView {
            id: self.id@,
            kind: self.kind@,
            name: self.function.name@,
            arguments: self.function.arguments@,
        }
    }
}

/// One entry of the transcript.
#[derive(Clone, Debug, PartialEq, Eq)]
pub struct Message {
    pub role: Role,
    /// Absent only in an assistant message that carries tool calls.
    pub content: Option<String>,
    pub tool_calls: Option<Vec<ToolCall>>,
    /// For a tool message: the id of the call that it answers.
    pub tool_call_id: Option<String>,
}

/// The mathematical view of a [`Message`].
pub struct MessageView {
    pub role: Role,
    pub content: Option<Seq<char>>,
    pub tool_calls: Option<Seq<ToolCallView>>,
    pub tool_call_id: Option<Seq<char>>,
}

pub open spec fn opt_str_view(s: Option<String>) -> Option<Seq<char>> {
    match s {
        Some(t) => Some(t@),
        None => None,
    }
}

pub open spec fn calls_view(calls: Seq<ToolCall>) -> Seq<ToolCallView> {
    calls.map_values(|c: ToolCall| c@)
}

impl View for Message {
    type V = MessageView;

    open spec fn view(&self) -> MessageView {
        MessageView {
            role: self.role,
            content: opt_str_view(self.content),
            tool_calls: match self.tool_calls {
                Some(v) => Some(calls_view(v@)),
                None => None,
            },
            tool_call_id: opt_str_view(self.tool_call_id),
        }
    }
}

/// How many characters a message adds to the transcript's size: the length
/// of its content, or nothing where it has none.
pub open spec fn content_len(m: MessageView) -> nat {
    match m.content {
        Some(c) => c.len(),
        None => 0,
    }
}

/// The tool calls that a message carries; none where the field is absent.
pub open spec fn calls_of(m: MessageView) -> Seq<ToolCallView> {
    match m.tool_calls {
        Some(c) => c,
        None => Seq::empty(),
    }
}

impl Message {
    /// A user message with the given text.
    pub fn user(text: String) -> (r: Message)
        ensures
            r@ == (MessageView {
                role: Role::User,
                content: Some(text@),
                tool_calls: None,
                tool_call_id: None,
            }),
    {
        Message { role: Role::User, content: Some(text), tool_calls: None, tool_call_id: None }
    }

    /// A system message with the given text.
    pub fn system(text: String) -> (r: Message)
        ensures
            r@ == (MessageView {
                role: Role::System,
                content: Some(text@),
                tool_calls: None,
                tool_call_id: None,
            }),
    {
        Message { role: Role::System, content: Some(text), tool_calls: None, tool_call_id: None }
    }

    /// A tool message carrying the output of the call with the given id.
    pub fn tool_result(call_id: String, output: String) -> (r: Message)
        ensures
            r@ == (MessageView {
                role: Role::Tool,
                content: Some(output@),
                tool_calls: None,
                tool_call_id: Some(call_id@),
            }),
    {
        Message {
            role: Role::Tool,
            content: Some(output),
            tool_calls: None,
            tool_call_id: Some(call_id),
        }
    }

    /// An assistant message, as a remote reply brings it.
    pub fn assistant(content: Option<String>, tool_calls: Option<Vec<ToolCall>>) -> (r: Message)
        ensures
            r.role == Role::Assistant,
            r.content == content,
            r.tool_calls == tool_calls,
            r.tool_call_id.is_none(),
    {
        Message { role: Role::Assistant, content, tool_calls, tool_call_id: None }
    }

    /// The number of characters of the content, 0 where there is none.
    pub fn content_length(&self) -> (n: usize)
        ensures
            n == content_len(self@),
    {
        match &self.content {
            Some(c) => c.as_str().unicode_len(),
            None => 0,
        }
    }
}

/// Declares `serde_json::Value`, in which a tool's parameter schema is
/// carried through unread.
#[verifier::external_type_specification]
#[verifier::external_body]
pub struct ExJsonValue(serde_json::Value);

/// The function that a tool offers to the model.
#[derive(Debug)]
pub struct FunctionObject {
    pub name: String,
    pub description: String,
    pub parameters: serde_json::Value,
}

/// The one tool that may be offered to the model.
#[derive(Debug)]
pub struct ToolDefinition {
    /// The kind of tool; `"function"`.
    pub kind: String,
    pub function: FunctionObject,
}

/// Every way in which an exchange can fail.
#[derive(Clone, Debug, PartialEq, Eq)]
pub enum ChatError {
    /// The transcript holds no content at all.
    EmptyInput,
    /// The transcript would hold the first number of characters, over the
    /// limit given second.
    BudgetExceeded(usize, usize),
    /// The remote answered with a status that is not a success, and this body.
    ApiError(u16, String),
    /// The remote body could not be decoded.
    MalformedResponse(String),
    /// The remote reply held no choice.
    NoChoicesReturned,
    /// The remote reply held neither content nor tool calls.
    EmptyModelReply,
    /// The model asked for a function that is not the configured tool.
    UnknownFunctionRequested(String),
    /// The tool process exited unsuccessfully, with this code where it had one.
    ToolExecutionFailed(Option<i32>),
    /// The tool wrote something that is not text.
    ToolOutputNotText,
}

} // verus!
