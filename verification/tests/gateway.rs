#![allow(deprecated)]

use chat_gateway::gemini::{reply_for, resolve_text, settle, system_instruction, ChatError, GeminiClient};
use chat_gateway::models::{ChatRequest, ChatResponse, ErrorResponse};
use gemini_rust::{Candidate, ClientError, Content, GenerationResponse, Part};

fn first_text(content: &Content) -> String {
    match content.parts.as_ref().unwrap().first().unwrap() {
        Part::Text { text, .. } => text.clone(),
        _ => panic!("expected a text part"),
    }
}

fn response_with_text(text: &str) -> GenerationResponse {
    let candidate = Candidate {
        content: Content::text(text),
        safety_ratings: None,
        citation_metadata: None,
        grounding_metadata: None,
        finish_reason: None,
        index: None,
    };
    GenerationResponse {
        candidates: vec![candidate],
        prompt_feedback: None,
        usage_metadata: None,
        model_version: None,
        response_id: None,
    }
}

fn response_without_candidates() -> GenerationResponse {
    GenerationResponse {
        candidates: vec![],
        prompt_feedback: None,
        usage_metadata: None,
        model_version: None,
        response_id: None,
    }
}

#[test]
fn empty_credential_is_rejected() {
    let result = GeminiClient::new(String::new());
    match result {
        Err(ChatError::ConfigError { message }) => {
            assert_eq!(message, "API key must not be empty");
        }
        _ => panic!("empty credential must yield a ConfigError"),
    }
}

#[test]
fn empty_credential_is_rejected_every_time() {
    for _ in 0..3 {
        assert!(matches!(
            GeminiClient::new(String::new()),
            Err(ChatError::ConfigError { .. })
        ));
    }
}

#[test]
fn nonempty_credential_constructs_gateway() {
    let result = GeminiClient::new("SECRET-REDACTED".to_string());
    assert!(result.is_ok());
}

#[test]
fn credential_with_control_character_is_rejected() {
    let result = GeminiClient::new("bad\nkey".to_string());
    match result {
        Err(ChatError::ConfigError { message }) => {
            assert!(message.starts_with("Failed to initialize Gemini client: "));
        }
        _ => panic!("a credential with a control character must yield a ConfigError"),
    }
}

#[test]
fn outbound_request_holds_instruction_and_message() {
    let gateway = GeminiClient::new("SECRET-REDACTED".to_string()).unwrap();
    let prepared = gateway.prepare("What is SQL injection?");
    let request = gateway.outbound(&prepared).build();
    assert_eq!(request.contents.len(), 1);
    assert_eq!(first_text(&request.contents[0]), "What is SQL injection?");
    let instruction = request.system_instruction.as_ref().unwrap();
    assert_eq!(first_text(instruction), system_instruction());
}

#[test]
fn prepare_pins_instruction_and_message() {
    let gateway = GeminiClient::new("SECRET-REDACTED".to_string()).unwrap();
    let outbound = gateway.prepare("What is SQL injection?");
    assert_eq!(outbound.instruction, system_instruction());
    assert_eq!(outbound.message, "What is SQL injection?");
}

#[test]
fn system_instruction_names_the_persona() {
    let text = system_instruction();
    assert!(text.starts_with("You are a helpful cybersecurity tutor assistant"));
    assert!(text.ends_with("educational value and ethical understanding."));
}

#[test]
fn resolve_text_passes_text_through() {
    let result = resolve_text("SQL injection is...".to_string());
    assert_eq!(result.unwrap(), "SQL injection is...");
}

#[test]
fn resolve_text_rejects_empty_payload() {
    match resolve_text(String::new()) {
        Err(ChatError::ExtractionError { message }) => {
            assert_eq!(message, "Failed to extract text from Gemini response");
        }
        _ => panic!("an empty payload must yield an ExtractionError"),
    }
}

#[test]
fn mocked_success_yields_identical_response() {
    let outcome = settle(Ok(response_with_text("SQL injection is...")));
    let reply = reply_for(outcome);
    match reply {
        Ok(ChatResponse { response }) => assert_eq!(response, "SQL injection is..."),
        Err(_) => panic!("a text-bearing payload must yield a response"),
    }
}

#[test]
fn mocked_payload_without_text_is_extraction_error() {
    let outcome = settle(Ok(response_without_candidates()));
    match outcome {
        Err(ChatError::ExtractionError { message }) => {
            assert_eq!(message, "Failed to extract text from Gemini response");
        }
        _ => panic!("a payload without text must yield an ExtractionError"),
    }
}

#[test]
fn mocked_empty_text_is_never_an_empty_success() {
    let outcome = settle(Ok(response_with_text("")));
    assert!(matches!(outcome, Err(ChatError::ExtractionError { .. })));
}

#[test]
fn mocked_remote_failure_is_upstream_error() {
    let error = ClientError::BadResponse {
        code: 503,
        description: Some("boom".to_string()),
    };
    let expected_detail = format!("{}", error);
    let outcome = settle(Err(error));
    match outcome {
        Err(ChatError::UpstreamError { message }) => {
            assert_eq!(
                message,
                format!("Failed to generate response: {}", expected_detail)
            );
        }
        _ => panic!("a remote failure must yield an UpstreamError, never a response"),
    }
}

#[test]
fn mocked_remote_failure_becomes_error_response() {
    let error = ClientError::BadResponse {
        code: 500,
        description: None,
    };
    let reply = reply_for(settle(Err(error)));
    match reply {
        Err(ErrorResponse { error }) => {
            assert!(error.starts_with("Failed to generate response: "));
        }
        Ok(_) => panic!("a remote failure must never yield a response record"),
    }
}

#[test]
fn error_message_is_carried_unchanged() {
    let error = ChatError::UpstreamError {
        message: "some failure".to_string(),
    };
    assert_eq!(error.message(), "some failure");
    let reply = reply_for(Err(error));
    assert_eq!(reply.unwrap_err().error, "some failure");
}

#[test]
fn error_response_keeps_its_message() {
    let response = ErrorResponse::new("something went wrong".to_string());
    assert_eq!(response.error, "something went wrong");
}

#[test]
fn chat_request_carries_the_message() {
    let request = ChatRequest {
        message: "What is SQL injection?".to_string(),
    };
    let gateway = GeminiClient::new("SECRET-REDACTED".to_string()).unwrap();
    let outbound = gateway.prepare(&request.message);
    assert_eq!(outbound.message, request.message);
}

#[test]
fn mocked_json_payload_settles_to_its_text() {
    let payload = r#"{"candidates":[{"content":{"parts":[{"text":"SQL injection is..."}],"role":"model"}}]}"#;
    let response: GenerationResponse = serde_json::from_str(payload).unwrap();
    let outcome = settle(Ok(response));
    assert_eq!(outcome.unwrap(), "SQL injection is...");
}

#[test]
fn independent_outcomes_map_one_to_one() {
    let first = settle(Ok(response_with_text("first answer")));
    let second = settle(Ok(response_with_text("second answer")));
    let third = settle(Err(ClientError::BadResponse {
        code: 429,
        description: None,
    }));
    assert_eq!(first.unwrap(), "first answer");
    assert_eq!(second.unwrap(), "second answer");
    assert!(third.is_err());
}
