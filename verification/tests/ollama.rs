use ponder::ai::ollama::{EmbedModel, PromptText};
use ponder::ai::ollama::{
    check_response, chunk_error, failure_error, model_or_default, parse_topics, parsed_response, retry_delay_ms,
    OllamaClient, OllamaOperation, StreamCollector, QUERY_ANALYSIS_SCHEMA, REFLECTION_DECISION_SCHEMA,
};
use ponder::errors::{AIError, AppError};

#[test]
fn test_ollama_client_creation() {
    let client = OllamaClient::new("http://localhost:11434");
    assert_eq!(client.base_url(), "http://localhost:11434");
    assert_eq!(client.embeddings_url(), "http://localhost:11434/api/embeddings");
    assert_eq!(client.chat_url(), "http://localhost:11434/api/chat");
}

#[test]
fn test_chat_with_model_uses_default() {
    assert_eq!(model_or_default(None), "gemma3:4b");
    assert_eq!(model_or_default(Some("custom-model")), "custom-model");
}

#[test]
fn failures_are_classified_by_status_and_body() {
    match failure_error("m", OllamaOperation::Chat, 404, "") {
        AIError::ModelNotFound(m) => assert_eq!(m, "m"),
        _ => panic!("Expected ModelNotFound"),
    }
    match failure_error("m", OllamaOperation::Embeddings, 400, "model \"m\" does not support embeddings") {
        AIError::ModelNotSupported { model, operation, suggestion } => {
            assert_eq!(model, "m");
            assert_eq!(operation, "embeddings");
            assert_eq!(suggestion, "nomic-embed-text");
        }
        _ => panic!("Expected ModelNotSupported"),
    }
    match failure_error("m", OllamaOperation::Chat, 500, "boom") {
        AIError::InvalidResponse(m) => assert_eq!(m, "HTTP 500 Internal Server Error: boom"),
        _ => panic!("Expected InvalidResponse"),
    }
    match failure_error("m", OllamaOperation::Chat, 400, "does not support embedding") {
        AIError::InvalidResponse(m) => assert_eq!(m, "HTTP 400 Bad Request: does not support embedding"),
        _ => panic!("Expected InvalidResponse"),
    }
    assert!(check_response("m", OllamaOperation::Chat, 200, "").is_ok());
    assert!(check_response("m", OllamaOperation::Chat, 503, "").is_err());
}

#[test]
fn parse_failures_become_invalid_responses() {
    assert_eq!(parsed_response("chat", Ok("hi".to_string())).unwrap(), "hi");
    match parsed_response("chat", Err("eof".to_string())) {
        Err(AppError::AI(AIError::InvalidResponse(m))) => assert_eq!(m, "Failed to parse chat response: eof"),
        _ => panic!("Expected InvalidResponse"),
    }
}

#[test]
fn only_server_errors_are_retried_with_doubling_backoff() {
    let e = "AI error: Invalid response from Ollama: HTTP 500 Internal Server Error: x";
    assert_eq!(retry_delay_ms(e, 0, 3), Some(200));
    assert_eq!(retry_delay_ms(e, 1, 3), Some(400));
    assert_eq!(retry_delay_ms(e, 2, 3), Some(800));
    assert_eq!(retry_delay_ms(e, 3, 3), None);
    assert_eq!(retry_delay_ms("HTTP 404 Not Found", 0, 3), None);
    assert_eq!(retry_delay_ms(e, 56, 57), Some(100 * (1u64 << 57)));
}

#[test]
fn test_extract_topics_method_exists() {
    let topics = parse_topics("  [\"work\", \"family\"]\n").unwrap();
    assert_eq!(topics, vec!["work".to_string(), "family".to_string()]);
    match parse_topics(" not json ") {
        Err(AppError::AI(AIError::InvalidResponse(m))) => assert!(m.starts_with("Failed to parse topics JSON 'not json': ")),
        _ => panic!("Expected InvalidResponse"),
    }
}

#[test]
fn stream_collector_reads_complete_lines() {
    let mut c = StreamCollector::new();
    c.push_text("{\"a\":1}\n\n  \n{\"b\"");
    assert_eq!(c.next_line(), Some("{\"a\":1}".to_string()));
    assert_eq!(c.next_line(), None);
    c.push_text(":2}\n");
    assert_eq!(c.next_line(), Some("{\"b\":2}".to_string()));
    assert_eq!(c.next_line(), None);
    c.accept("Hello", false);
    c.accept("", false);
    assert!(!c.finished());
    c.accept(" world", true);
    assert!(c.finished());
    assert_eq!(c.into_chunks(), vec!["Hello".to_string(), " world".to_string()]);
}

#[test]
fn stream_errors_have_messages() {
    match chunk_error("xx", "expected value") {
        AIError::InvalidResponse(m) => assert_eq!(m, "Failed to parse stream chunk 'xx': expected value"),
        _ => panic!("Expected InvalidResponse"),
    }
}

#[test]
fn schemas_are_json_objects() {
    let v: serde_json::Value = serde_json::from_str(REFLECTION_DECISION_SCHEMA).unwrap();
    assert_eq!(v["required"][0], "action");
    let v: serde_json::Value = serde_json::from_str(QUERY_ANALYSIS_SCHEMA).unwrap();
    assert_eq!(v["properties"]["temporal_constraint"]["required"][0], "type");
}

/// The lines read when `text` arrives cut into `pieces` of the given sizes.
fn lines_in_pieces(text: &str, cuts: &[usize]) -> (Vec<String>, Vec<String>) {
    let mut collector = StreamCollector::new();
    let mut lines = Vec::new();
    let mut start = 0;
    for &cut in cuts.iter().chain(std::iter::once(&text.len())) {
        collector.push_text(&text[start..cut]);
        while let Some(line) = collector.next_line() {
            lines.push(line);
        }
        start = cut;
    }
    (lines, collector.into_chunks())
}

#[test]
fn stream_lines_do_not_depend_on_how_the_text_is_cut() {
    let text = "{\"a\":1}\n\n  \n {\"b\":2} \n{\"c\"";
    let expected = vec!["{\"a\":1}".to_string(), "{\"b\":2}".to_string()];
    for cuts in [vec![], vec![3], vec![8, 9], vec![1, 2, 3, 4, 5, 6, 7, 8, 9, 10, 11, 12, 13, 14, 15, 16, 17, 18]] {
        assert_eq!(lines_in_pieces(text, &cuts).0, expected, "{:?}", cuts);
    }
}

#[test]
fn embed_retries_stop_at_the_first_other_error_or_the_limit() {
    // Each request fails with the next message; count requests and waits.
    let run = |messages: &[&str], max: u32| {
        let mut waits = Vec::new();
        let mut attempt: u32 = 0;
        loop {
            let message = messages[attempt as usize];
            match retry_delay_ms(message, attempt, max) {
                Some(ms) => {
                    waits.push(ms);
                    attempt += 1;
                }
                None => return (attempt + 1, waits),
            }
        }
    };
    let msgs = ["HTTP 500 a", "HTTP 500 b", "Model not found", "HTTP 500 c"];
    assert_eq!(run(&msgs, 5), (3, vec![200, 400]));
    assert_eq!(run(&msgs, 1), (2, vec![200]));
    assert_eq!(run(&msgs, 0), (1, vec![]));
}

#[test]
fn model_and_prompt_conversions_keep_the_text() {
    let m: EmbedModel = "nomic-embed-text".into();
    assert_eq!(m.as_str(), "nomic-embed-text");
    let p: PromptText = "Hello".into();
    assert_eq!(p.as_str(), "Hello");
    let p: PromptText = String::from("Owned").into();
    assert_eq!(p.as_str(), "Owned");
}
