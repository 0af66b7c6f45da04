//! What the tool gateway makes of a finished tool process.
use vstd::prelude::*;
use vstd::utf8::{decode_utf8, valid_utf8};

use crate::message::ChatError;

verus! {

/// What a finished tool process left behind.
pub struct ToolRun {
    /// Whether the process exited successfully.
    pub success: bool,
    /// Its exit code, where it had one.
    pub code: Option<i32>,
    /// Everything that it wrote to its standard output.
    pub stdout: Vec<u8>,
}

/// The text of a tool run: its output where the process succeeded and wrote
/// valid UTF-8.
pub open spec fn run_text(success: bool, code: Option<i32>, stdout: Seq<u8>) -> Result<
    Seq<char>,
    ChatError,
> {
    if !success {
        Err(ChatError::ToolExecutionFailed(code))
    } else if !valid_utf8(stdout) {
        Err(ChatError::ToolOutputNotText)
    } else {
        Ok(decode_utf8(stdout))
    }
}

/// The same verdict, on text that is held.
pub open spec fn text_matches(r: Result<String, ChatError>, expected: Result<Seq<char>, ChatError>) -> bool {
    match (r, expected) {
        (Ok(s), Ok(t)) => s@ == t,
        (Err(e), Err(f)) => e == f,
        _ => false,
    }
}

/// Relies on `String::from_utf8`: it accepts exactly the valid UTF-8 byte
/// sequences and decodes them.
#[verifier::external_body]
fn text_from_utf8(bytes: Vec<u8>) -> (r: Option<String>)
    ensures
        r is Some <==> valid_utf8(bytes@),
        r is Some ==> r->0@ == decode_utf8(bytes@),
{
    String::from_utf8(bytes).ok()
}

impl ToolRun {
    /// The output of the run as text, or why there is none.
    pub fn output_text(self) -> (r: Result<String, ChatError>)
        ensures
            text_matches(r, run_text(self.success, self.code, self.stdout@)),
    {
        if !self.success {
            return Err(ChatError::ToolExecutionFailed(self.code));
        }
        match text_from_utf8(self.stdout) {
            Some(s) => Ok(s),
            None => Err(ChatError::ToolOutputNotText),
        }
    }
}

} // verus!
