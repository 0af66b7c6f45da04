//! The conversation core of a command-line chat-completion client.
//!
//! The library holds the transcript of one exchange with a remote model,
//! guards its size, interprets the remote replies and drives the
//! tool-calling loop as a state machine. Reading input, talking to the
//! network and running the tool process are left to the caller, who hands
//! the results back as plain values.
use vstd::prelude::*;

pub mod completion;
pub mod message;
pub mod orchestrator;
pub mod prompt;
pub mod tool;
pub mod transcript;

pub use message::{
    ChatError, FunctionCall, FunctionObject, Message, Role, ToolCall, ToolDefinition,
};
pub use orchestrator::{is_function_kind, Conversation, Phase, Step};
pub use prompt::{after_lookup, first_source, has_separator, Lookup, PromptSource, Resolution};
pub use tool::ToolRun;
pub use transcript::Transcript;
