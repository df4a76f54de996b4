//! A small chat gateway library: it turns one user message into one request
//! for a remote generative-model service, and maps the remote outcome back to
//! either the generated text or a descriptive error.

pub mod gemini;
pub mod models;
