use vstd::prelude::*;
use vstd::string::StringExecFns;
use crate::models::ChatResponse;
use crate::models::ErrorResponse;

verus! {

// ---------------------------------------------------------------------------
// Errors
// ---------------------------------------------------------------------------

/// The ways a chat call can fail.
#[derive(Debug)]
pub enum ChatError {
    /// The gateway could not be constructed: empty or unusable credential.
    ConfigError { message: String },
    /// The remote call itself failed (network, API or auth error).
    UpstreamError { message: String },
    /// The remote call succeeded but its payload held no extractable text.
    ExtractionError { message: String },
}

/// The human-readable message carried by an error, whichever kind it is.
pub open spec fn message_of(e: ChatError) -> Seq<char> {
    match e {
        ChatError::ConfigError { message } => message@,
        ChatError::UpstreamError { message } => message@,
        ChatError::ExtractionError { message } => message@,
    }
}

impl ChatError {
    /// The message carried by this error.
    pub fn message(&self) -> (r: &String)
        ensures
            r@ == message_of(*self),
    {
        match self {
            ChatError::ConfigError { message } => message,
            ChatError::UpstreamError { message } => message,
            ChatError::ExtractionError { message } => message,
        }
    }
}

// ---------------------------------------------------------------------------
// The fixed texts of the gateway
// ---------------------------------------------------------------------------

/// The fixed system instruction sent with every request: it constrains the
/// remote model to the cybersecurity-tutor persona.
pub open spec fn system_instruction_spec() -> Seq<char> {
    "You are a helpful cybersecurity tutor assistant for university students. Your role is to explain cybersecurity concepts, terminologies, and attack types in a clear, educational manner suitable for classroom learning. Keep explanations concise but informative. Use examples when helpful. If asked about something unrelated to cybersecurity, politely redirect the conversation back to cybersecurity topics. Always prioritize educational value and ethical understanding."@
}

/// The fixed system instruction as an executable string.
pub fn system_instruction() -> (r: &'static str)
    ensures
        r@ == system_instruction_spec(),
{
    "You are a helpful cybersecurity tutor assistant for university students. Your role is to explain cybersecurity concepts, terminologies, and attack types in a clear, educational manner suitable for classroom learning. Keep explanations concise but informative. Use examples when helpful. If asked about something unrelated to cybersecurity, politely redirect the conversation back to cybersecurity topics. Always prioritize educational value and ethical understanding."
}

/// The message carried by a `ConfigError` for an empty credential.
pub open spec fn empty_key_message_spec() -> Seq<char> {
    "API key must not be empty"@
}

/// The message carried by an `ExtractionError`.
pub open spec fn extraction_message_spec() -> Seq<char> {
    "Failed to extract text from Gemini response"@
}

/// The prefix of every `UpstreamError` message; the remote failure's own
/// description follows it.
pub open spec fn upstream_prefix_spec() -> Seq<char> {
    "Failed to generate response: "@
}

/// The prefix of a `ConfigError` message when the remote client itself could
/// not be constructed from a non-empty credential.
pub open spec fn config_prefix_spec() -> Seq<char> {
    "Failed to initialize Gemini client: "@
}

// ---------------------------------------------------------------------------
// What a call owes: the spec-level model
// ---------------------------------------------------------------------------

/// What the gateway owes for a successful remote payload whose extracted text
/// is `text`: that very text when there is any, and no success at all when the
/// payload held none.
pub open spec fn response_of(text: Seq<char>) -> Option<Seq<char>> {
    if text.len() > 0 {
        Some(text)
    } else {
        None
    }
}

/// The success carried by a settled outcome, if any.
pub open spec fn success_of(r: Result<String, ChatError>) -> Option<Seq<char>> {
    match r {
        Ok(s) => Some(s@),
        Err(_) => None,
    }
}

/// Whether one character of a credential can be carried in a request header:
/// tab, or neither an ASCII control character nor delete. A character above
/// the ASCII range encodes to bytes the header accepts, so it is fine too.
pub open spec fn header_char(c: char) -> bool {
    c == '\t' || (32 <= c as u32 && c as u32 != 127)
}

/// Whether the remote client accepts a credential: every character of the key
/// can be carried in a request header.
pub open spec fn key_accepted(key: Seq<char>) -> bool {
    forall|i: int| 0 <= i < key.len() ==> header_char(#[trigger] key[i])
}

// ---------------------------------------------------------------------------
// Outside types
// ---------------------------------------------------------------------------

#[verifier::external_type_specification]
#[verifier::external_body]
pub struct ExGemini(gemini_rust::Gemini);

#[verifier::external_type_specification]
#[verifier::external_body]
pub struct ExClientError(gemini_rust::ClientError);

#[allow(deprecated)]
#[verifier::external_type_specification]
#[verifier::external_body]
pub struct ExContentBuilder(gemini_rust::ContentBuilder);

#[allow(deprecated)]
#[verifier::external_type_specification]
#[verifier::external_body]
pub struct ExGenerationResponse(gemini_rust::GenerationResponse);

// ---------------------------------------------------------------------------
// Names for what the remote client's values hold
// ---------------------------------------------------------------------------

/// What `GenerationResponse::text` extracts from a payload: the text of the
/// first candidate's first part when that part is text, the empty string
/// otherwise. A function of the payload value alone.
pub uninterp spec fn text_of(response: gemini_rust::GenerationResponse) -> Seq<char>;

/// The description that a remote failure prints of itself; a function of the
/// error value alone.
pub uninterp spec fn error_message_of(error: gemini_rust::ClientError) -> Seq<char>;

/// The system instruction recorded in an outbound request builder, if one has
/// been set.
pub uninterp spec fn builder_instruction_of(
    builder: gemini_rust::ContentBuilder,
) -> Option<Seq<char>>;

/// The user messages recorded in an outbound request builder, in the order
/// they were appended.
pub uninterp spec fn builder_messages_of(builder: gemini_rust::ContentBuilder) -> Seq<Seq<char>>;

// ---------------------------------------------------------------------------
// Trusted wrappers around the remote client
// ---------------------------------------------------------------------------

/// Relies on `gemini_rust::Gemini::new`: builds a client for the given API
/// key. It fails exactly when some character of the key cannot be carried in
/// a request header; nothing else on this path can fail.
#[verifier::external_body]
fn new_remote_client(api_key: &str) -> (r: Result<gemini_rust::Gemini, gemini_rust::ClientError>)
    ensures
        r is Ok <==> key_accepted(api_key@),
{
    gemini_rust::Gemini::new(api_key)
}

/// Relies on the `Display` impl of `gemini_rust::ClientError`: the failure's
/// description, a function of the error value alone.
#[verifier::external_body]
fn client_error_message(error: &gemini_rust::ClientError) -> (r: String)
    ensures
        r@ == error_message_of(*error),
{
    format!("{}", error)
}

/// Relies on `gemini_rust::Gemini::generate_content`: starts an empty
/// content-generation request bound to this client, with no system
/// instruction and no messages yet.
#[allow(deprecated)]
#[verifier::external_body]
fn start_request(client: &gemini_rust::Gemini) -> (r: gemini_rust::ContentBuilder)
    ensures
        builder_instruction_of(r) is None,
        builder_messages_of(r) == Seq::<Seq<char>>::empty(),
{
    client.generate_content()
}

/// Relies on `ContentBuilder::with_system_instruction`: records the given
/// text as the request's system instruction and touches nothing else.
#[allow(deprecated)]
#[verifier::external_body]
fn set_system_instruction(
    builder: gemini_rust::ContentBuilder,
    text: &str,
) -> (r: gemini_rust::ContentBuilder)
    ensures
        builder_instruction_of(r) == Some(text@),
        builder_messages_of(r) == builder_messages_of(builder),
{
    builder.with_system_instruction(text)
}

/// Relies on `ContentBuilder::with_user_message`: appends the given text as a
/// user message of the request and touches nothing else.
#[allow(deprecated)]
#[verifier::external_body]
fn add_user_message(
    builder: gemini_rust::ContentBuilder,
    text: &str,
) -> (r: gemini_rust::ContentBuilder)
    ensures
        builder_messages_of(r) == builder_messages_of(builder).push(text@),
        builder_instruction_of(r) == builder_instruction_of(builder),
{
    builder.with_user_message(text)
}

/// Relies on `GenerationResponse::text`: the text of the first candidate's
/// first part when that part is text, and the empty string otherwise.
#[allow(deprecated)]
#[verifier::external_body]
fn response_text(response: &gemini_rust::GenerationResponse) -> (r: String)
    ensures
        r@ == text_of(*response),
{
    response.text()
}

// ---------------------------------------------------------------------------
// The gateway
// ---------------------------------------------------------------------------

/// What goes out to the remote service for one exchange: a system instruction
/// and the user's message. `prepare` fills the instruction with the fixed
/// persona text and passes the message through unchanged.
pub struct OutboundRequest {
    /// The system instruction to send.
    pub instruction: String,
    /// The user's message.
    pub message: String,
}

/// The chat gateway: owns the long-lived handle to the remote generative
/// model. It holds no mutable state, so concurrent exchanges share it freely.
pub struct GeminiClient {
    client: gemini_rust::Gemini,
}

impl GeminiClient {
    /// Constructs the gateway. It succeeds exactly for a non-empty credential
    /// that the remote client accepts. An empty credential is rejected
    /// outright with a `ConfigError`; a construction failure on a non-empty
    /// one is a `ConfigError` too, carrying the remote failure's description
    /// after a fixed prefix. No other error kind can come out of construction.
    pub fn new(api_key: String) -> (r: Result<GeminiClient, ChatError>)
        ensures
            r is Ok <==> (api_key@.len() > 0 && key_accepted(api_key@)),
            api_key@.len() == 0 ==> (r matches Err(e) && e matches ChatError::ConfigError {
                message,
            } && message@ == empty_key_message_spec()),
            api_key@.len() > 0 && r is Err ==> (r matches Err(e) && e matches ChatError::ConfigError {
                message,
            } && message@.len() >= config_prefix_spec().len() && message@.subrange(
                0,
                config_prefix_spec().len() as int,
            ) == config_prefix_spec()),
            r matches Err(e) ==> e is ConfigError,
    {
        if api_key.as_str().is_empty() {
            return Err(
                ChatError::ConfigError { message: "API key must not be empty".to_owned() },
            );
        }
        match new_remote_client(api_key.as_str()) {
            Ok(client) => Ok(GeminiClient { client }),
            Err(e) => {
                let detail = client_error_message(&e);
                let message = "Failed to initialize Gemini client: ".to_owned().concat(
                    detail.as_str(),
                );
                proof {
                    assert(message@.subrange(0, config_prefix_spec().len() as int)
                        =~= config_prefix_spec());
                }
                Err(ChatError::ConfigError { message })
            },
        }
    }

    /// Pins down what one exchange sends out: the fixed system instruction,
    /// and the user's message unchanged.
    pub fn prepare(&self, user_message: &str) -> (r: OutboundRequest)
        ensures
            r.instruction@ == system_instruction_spec(),
            r.message@ == user_message@,
    {
        OutboundRequest {
            instruction: system_instruction().to_owned(),
            message: user_message.to_owned(),
        }
    }

    /// Assembles the remote request for a prepared exchange: one request
    /// holding the exchange's system instruction and its user message as the
    /// only message, nothing more.
    #[allow(deprecated)]
    pub fn outbound(&self, request: &OutboundRequest) -> (r: gemini_rust::ContentBuilder)
        ensures
            builder_instruction_of(r) == Some(request.instruction@),
            builder_messages_of(r) == seq![request.message@],
    {
        let builder = start_request(&self.client);
        let builder = set_system_instruction(builder, request.instruction.as_str());
        let builder = add_user_message(builder, request.message.as_str());
        proof {
            assert(builder_messages_of(builder) =~= seq![request.message@]);
        }
        builder
    }
}

// ---------------------------------------------------------------------------
// Settling the remote outcome
// ---------------------------------------------------------------------------

/// Decides the result owed for an extracted payload text: the text itself,
/// unchanged, when there is any; an `ExtractionError` when the payload held
/// none. Success is never empty.
pub fn resolve_text(text: String) -> (r: Result<String, ChatError>)
    ensures
        success_of(r) == response_of(text@),
        text@.len() > 0 ==> (r matches Ok(s) && s@ == text@),
        text@.len() == 0 ==> (r matches Err(e) && e matches ChatError::ExtractionError {
            message,
        } && message@ == extraction_message_spec()),
{
    if text.as_str().is_empty() {
        Err(
            ChatError::ExtractionError {
                message: "Failed to extract text from Gemini response".to_owned(),
            },
        )
    } else {
        Ok(text)
    }
}

/// Settles the raw remote outcome; the result is a function of the outcome
/// value alone. A remote failure always becomes an `UpstreamError` whose
/// message is exactly the failure's own description after a fixed prefix,
/// never a response. A remote success passes its extracted text through
/// unchanged, or, when the payload held no text, becomes the exact
/// `ExtractionError`. Success is never empty and construction errors never
/// come out of here.
#[allow(deprecated)]
pub fn settle(
    outcome: Result<gemini_rust::GenerationResponse, gemini_rust::ClientError>,
) -> (r: Result<String, ChatError>)
    ensures
        outcome matches Err(e) ==> (r matches Err(err) && err matches ChatError::UpstreamError {
            message,
        } && message@ == upstream_prefix_spec() + error_message_of(e)),
        outcome matches Ok(resp) ==> success_of(r) == response_of(text_of(resp)),
        outcome matches Ok(resp) ==> (text_of(resp).len() > 0 ==> (r matches Ok(s) && s@
            == text_of(resp))),
        outcome matches Ok(resp) ==> (text_of(resp).len() == 0 ==> (r matches Err(e)
            && e matches ChatError::ExtractionError { message } && message@
            == extraction_message_spec())),
        r matches Ok(s) ==> s@.len() > 0,
        r matches Err(e) ==> !(e is ConfigError),
{
    match outcome {
        Ok(response) => {
            let text = response_text(&response);
            resolve_text(text)
        },
        Err(error) => {
            let detail = client_error_message(&error);
            let message = "Failed to generate response: ".to_owned().concat(detail.as_str());
            Err(ChatError::UpstreamError { message })
        },
    }
}

/// Converts a settled outcome to the caller-visible reply: the generated text
/// on success, a uniform error record carrying the error's message on any
/// failure. Nothing is swallowed and nothing is transformed.
pub fn reply_for(outcome: Result<String, ChatError>) -> (r: Result<ChatResponse, ErrorResponse>)
    ensures
        outcome matches Ok(s) ==> (r matches Ok(c) && c.response@ == s@),
        outcome matches Err(e) ==> (r matches Err(er) && er.error@ == message_of(e)),
{
    match outcome {
        Ok(text) => Ok(ChatResponse { response: text }),
        Err(error) => {
            let message = error.message().clone();
            Err(ErrorResponse::new(message))
        },
    }
}

// ---------------------------------------------------------------------------
// Laws
// ---------------------------------------------------------------------------

/// Identity pass-through: for any non-empty payload text, the owed response
/// is exactly that text, with no transformation.
pub proof fn lemma_identity_pass_through(text: Seq<char>)
    requires
        text.len() > 0,
    ensures
        response_of(text) == Some(text),
{
}

/// The responses owed for a batch of concurrent exchanges, one per payload
/// text, position by position.
pub open spec fn batch_responses(texts: Seq<Seq<char>>) -> Seq<Option<Seq<char>>> {
    texts.map(|i: int, t: Seq<char>| response_of(t))
}

/// Concurrent calls do not interfere: in any batch of exchanges, the response
/// owed at each position is determined by that position's payload text alone.
/// Two batches that agree on one position's text agree on its response, no
/// matter how every other exchange in either batch went.
pub proof fn lemma_concurrent_independence(
    texts1: Seq<Seq<char>>,
    texts2: Seq<Seq<char>>,
    i: int,
)
    requires
        0 <= i < texts1.len(),
        0 <= i < texts2.len(),
        texts1[i] == texts2[i],
    ensures
        batch_responses(texts1)[i] == batch_responses(texts2)[i],
        batch_responses(texts1)[i] == response_of(texts1[i]),
{
    assert(batch_responses(texts2)[i] == response_of(texts2[i]));
}

} // verus!
