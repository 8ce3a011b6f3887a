use chat_query::error::QueryError;
use chat_query::payload::{build_payload, RequestMessage, RequestPayload, TokenLimit};

fn two_messages() -> Vec<RequestMessage> {
    let mut messages = vec![RequestMessage {
        role: "assistant".to_owned(),
        content: "Hello, world!".to_owned(),
    }];

    messages.push(RequestMessage {
        role: "user".to_owned(),
        content: "Hi!".to_owned(),
    });
    messages
}

#[test]
fn test_request_message_serialization() {
    let message = RequestMessage {
        role: "assistant".to_owned(),
        content: "Hello, world!".to_owned(),
    };

    let json = message.to_json();
    assert_eq!(json, "{\"role\":\"assistant\",\"content\":\"Hello, world!\"}");
}

#[test]
fn test_request_payload_serialization() {
    let payload = RequestPayload {
        messages: two_messages(),
        model: "test_model".to_owned(),
        max_tokens: Some(100),
        max_completion_tokens: None,
    };

    let json = payload.to_json();
    assert_eq!(
        json,
        "{\"messages\":[{\"role\":\"assistant\",\"content\":\"Hello, \
         world!\"},{\"role\":\"user\",\"content\":\"Hi!\"}],\"model\":\"test_model\",\"max_tokens\":100}"
    );
}

#[test]
fn test_request_payload_serialization_with_different_token_settings() {
    let messages = two_messages();

    // Test with max_tokens
    let payload = RequestPayload {
        messages: messages.clone(),
        model: "test_model".to_owned(),
        max_tokens: Some(100),
        max_completion_tokens: None,
    };

    let json = payload.to_json();
    assert_eq!(
        json,
        "{\"messages\":[{\"role\":\"assistant\",\"content\":\"Hello, \
         world!\"},{\"role\":\"user\",\"content\":\"Hi!\"}],\"model\":\"test_model\",\"max_tokens\":100}"
    );

    // Test with max_completion_tokens
    let payload = RequestPayload {
        messages: messages.clone(),
        model: "test_model".to_owned(),
        max_tokens: None,
        max_completion_tokens: Some(100),
    };

    let json = payload.to_json();
    assert_eq!(
        json,
        "{\"messages\":[{\"role\":\"assistant\",\"content\":\"Hello, \
         world!\"},{\"role\":\"user\",\"content\":\"Hi!\"}],\"model\":\"test_model\",\"max_completion_tokens\":100}"
    );

    // Test with both max_tokens and max_completion_tokens
    let payload = RequestPayload {
        messages: messages.clone(),
        model: "test_model".to_owned(),
        max_tokens: Some(100),
        max_completion_tokens: Some(100),
    };

    let json = payload.to_json();
    assert_eq!(
        json,
        "{\"messages\":[{\"role\":\"assistant\",\"content\":\"Hello, \
         world!\"},{\"role\":\"user\",\"content\":\"Hi!\"}],\"model\":\"test_model\",\"max_tokens\":100,\"\
         max_completion_tokens\":100}"
    );
}

#[test]
fn test_request_payload_serialization_with_empty_messages() {
    let payload = RequestPayload {
        messages: vec![],
        model: "test_model".to_owned(),
        max_tokens: Some(100),
        max_completion_tokens: None,
    };

    let json = payload.to_json();
    assert_eq!(json, "{\"messages\":[],\"model\":\"test_model\",\"max_tokens\":100}");
}

#[test]
fn test_request_payload_serialization_with_multiple_messages() {
    let mut messages = vec![];
    for i in 0..10 {
        messages.push(RequestMessage {
            role: "assistant".to_owned(),
            content: format!("Message {}", i),
        });
    }

    let payload = RequestPayload {
        messages,
        model: "test_model".to_owned(),
        max_tokens: Some(100),
        max_completion_tokens: None,
    };

    let json = payload.to_json();
    assert!(json.contains("\"messages\":["));
    assert!(json.contains("\"model\":\"test_model\""));
    assert!(json.contains("\"max_tokens\":100"));
}

#[test]
fn test_request_payload_without_response_format() {
    let payload = RequestPayload {
        messages: two_messages(),
        model: "test_model".to_owned(),
        max_tokens: Some(100),
        max_completion_tokens: None,
    };

    let json = payload.to_json();
    assert!(json.contains("\"messages\":["));
    assert!(json.contains("\"model\":\"test_model\""));
    assert!(json.contains("\"max_tokens\":100"));
    assert!(!json.contains("\"response_format\""));
}

#[test]
fn build_payload_standard_limit() {
    let p = build_payload("Hello, world!".to_owned(), "Hi!".to_owned(), "test_model", 100, false)
        .unwrap();
    assert_eq!(p.messages.len(), 2);
    assert_eq!(p.messages[0].role, "assistant");
    assert_eq!(p.messages[0].content, "Hello, world!");
    assert_eq!(p.messages[1].role, "user");
    assert_eq!(p.messages[1].content, "Hi!");
    assert_eq!(p.max_tokens, Some(100));
    assert_eq!(p.max_completion_tokens, None);
    assert_eq!(
        p.to_json(),
        "{\"messages\":[{\"role\":\"assistant\",\"content\":\"Hello, \
         world!\"},{\"role\":\"user\",\"content\":\"Hi!\"}],\"model\":\"test_model\",\"max_tokens\":100}"
    );
}

#[test]
fn build_payload_reasoning_limit() {
    let p = build_payload("sys".to_owned(), "q".to_owned(), "o3", 4096, true).unwrap();
    assert_eq!(p.max_tokens, None);
    assert_eq!(p.max_completion_tokens, Some(4096));
    let json = p.to_json();
    assert_eq!(
        json,
        "{\"messages\":[{\"role\":\"assistant\",\"content\":\"sys\"},{\"role\":\"user\",\"content\":\"q\"}],\
         \"model\":\"o3\",\"max_completion_tokens\":4096}"
    );
    assert!(!json.contains("max_tokens"));
    assert!(!json.contains("null"));
}

#[test]
fn build_payload_zero_tokens_is_rejected_first() {
    let r = build_payload(String::new(), String::new(), "m", 0, false);
    assert!(matches!(r, Err(QueryError::ZeroTokens)));
}

#[test]
fn build_payload_empty_prompt_and_input_are_distinct() {
    let r = build_payload(String::new(), "input".to_owned(), "m", 10, false);
    let e = r.unwrap_err();
    assert!(matches!(e, QueryError::EmptyPrompt));
    assert_eq!(e.message(), "Prompt content from prompt file is empty.");

    let r = build_payload("prompt".to_owned(), String::new(), "m", 10, false);
    let e = r.unwrap_err();
    assert!(matches!(e, QueryError::EmptyInput));
    assert_eq!(e.message(), "Input content from input file is empty.");
}

#[test]
fn new_payload_collapses_the_token_limit() {
    let p = RequestPayload::new(vec![], "m".to_owned(), TokenLimit::Standard(7));
    assert_eq!((p.max_tokens, p.max_completion_tokens), (Some(7), None));
    let p = RequestPayload::new(vec![], "m".to_owned(), TokenLimit::Reasoning(7));
    assert_eq!((p.max_tokens, p.max_completion_tokens), (None, Some(7)));
}

#[test]
fn token_numbers_are_written_in_decimal() {
    let p = RequestPayload::new(vec![], "m".to_owned(), TokenLimit::Standard(u32::MAX));
    assert_eq!(p.to_json(), "{\"messages\":[],\"model\":\"m\",\"max_tokens\":4294967295}");
    let p = RequestPayload::new(vec![], "m".to_owned(), TokenLimit::Reasoning(0));
    assert_eq!(p.to_json(), "{\"messages\":[],\"model\":\"m\",\"max_completion_tokens\":0}");
    let p = RequestPayload::new(vec![], "m".to_owned(), TokenLimit::Standard(10));
    assert_eq!(p.to_json(), "{\"messages\":[],\"model\":\"m\",\"max_tokens\":10}");
}

#[test]
fn strings_are_escaped_in_the_json_text() {
    let message = RequestMessage {
        role: "user".to_owned(),
        content: "say \"hi\"\nback\\slash".to_owned(),
    };
    assert_eq!(
        message.to_json(),
        "{\"role\":\"user\",\"content\":\"say \\\"hi\\\"\\nback\\\\slash\"}"
    );
}
