//! What the completion client makes of a remote answer.
use vstd::prelude::*;

use crate::message::{ChatError, Message};

verus! {

/// Whether an HTTP status reports success.
pub open spec fn is_success(status: u16) -> bool {
    200 <= status <= 299
}

impl Message {
    /// The reply carried by a remote answer with the given status and body;
    /// `decoded` holds the messages of the answer's choices, in order, where
    /// the body could be decoded.
    ///
    /// A status that is not a success gives `ApiError` with the body as it
    /// came; an undecodable body gives `MalformedResponse`; no choice gives
    /// `NoChoicesReturned`. Otherwise the first choice's message is the reply,
    /// unchanged.
    pub fn from_response(status: u16, body: String, decoded: Option<Vec<Message>>) -> (r: Result<
        Message,
        ChatError,
    >)
        ensures
            !is_success(status) ==> r == Err::<Message, ChatError>(
                ChatError::ApiError(status, body),
            ),
            is_success(status) && decoded is None ==> r == Err::<Message, ChatError>(
                ChatError::MalformedResponse(body),
            ),
            is_success(status) && decoded is Some && decoded->0@.len() == 0 ==> r == Err::<
                Message,
                ChatError,
            >(ChatError::NoChoicesReturned),
            is_success(status) && decoded is Some && decoded->0@.len() > 0 ==> r == Ok::<
                Message,
                ChatError,
            >(decoded->0@[0]),
    {
        if status < 200 || status > 299 {
            return Err(ChatError::ApiError(status, body));
        }
        match decoded {
            None => Err(ChatError::MalformedResponse(body)),
            Some(mut choices) => {
                if choices.len() == 0 {
                    Err(ChatError::NoChoicesReturned)
                } else {
                    Ok(choices.swap_remove(0))
                }
            },
        }
    }
}

} // verus!
