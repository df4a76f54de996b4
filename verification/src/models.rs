use vstd::prelude::*;

verus! {

/// A chat request as received from a caller: the user's message.
#[derive(Debug)]
pub struct ChatRequest {
    /// The user's message or question.
    pub message: String,
}

/// A successful chat response carrying the generated text.
#[derive(Debug)]
pub struct ChatResponse {
    /// The generated reply, passed through unchanged.
    pub response: String,
}

/// An error response surfaced to the caller on any failure.
#[derive(Debug)]
pub struct ErrorResponse {
    /// A human-readable description of what went wrong.
    pub error: String,
}

impl ErrorResponse {
    /// Wraps an error message in an `ErrorResponse`, unchanged.
    pub fn new(error: String) -> (r: Self)
        ensures
            r.error@ == error@,
    {
        Self { error }
    }
}

} // verus!
