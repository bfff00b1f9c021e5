use llm_core::{Backend, BackendError, ChoiceReply, LLMResponse, Openai, SendSession};
use llm_core::backend::{extract_reply, finish_test};

fn count_finals(chunks: &[LLMResponse]) -> usize {
    chunks.iter().filter(|c| c.is_complete).count()
}

#[test]
fn test_streaming_success_delivers_one_final_chunk() {
    let mut session = SendSession::new();
    let mut delivered = Vec::new();

    if let Some(c) = session.on_stream_delta(Some("He".to_string())) {
        delivered.push(c);
    }
    if let Some(c) = session.on_stream_delta(None) {
        delivered.push(c);
    }
    if let Some(c) = session.on_stream_delta(Some("llo".to_string())) {
        delivered.push(c);
    }
    delivered.push(session.on_stream_end());

    let contents: Vec<&str> = delivered.iter().map(|c| c.content.as_str()).collect();
    assert_eq!(contents, vec!["He", "Hello", "Hello"]);
    assert_eq!(count_finals(&delivered), 1);
    assert!(delivered.last().unwrap().is_complete);
}

#[test]
fn test_fallback_recovers_after_stream_drop() {
    // streaming yields cumulative chunks, then the network drops; the single
    // non-streaming fallback recovers and the error channel reports success
    let mut session = SendSession::new();
    let mut delivered = Vec::new();

    for delta in ["Hel", "lo", " wor"] {
        if let Some(c) = session.on_stream_delta(Some(delta.to_string())) {
            delivered.push(c);
        }
    }
    let cumulative: Vec<&str> = delivered.iter().map(|c| c.content.as_str()).collect();
    assert_eq!(cumulative, vec!["Hel", "Hello", "Hello wor"]);

    session.on_stream_error("connection reset".to_string());
    let final_chunk = session.on_fallback_ok("Hello world".to_string());
    delivered.push(final_chunk);

    let last = delivered.last().unwrap();
    assert_eq!(last.content, "Hello world");
    assert!(last.is_complete);
    assert_eq!(count_finals(&delivered), 1);
}

#[test]
fn test_both_attempts_failed_reports_both_messages() {
    let mut session = SendSession::new();
    let mut delivered = Vec::new();

    if let Some(c) = session.on_stream_delta(Some("par".to_string())) {
        delivered.push(c);
    }
    session.on_stream_error("stream blew up".to_string());
    let (chunk, error) = session.on_fallback_error("fallback refused".to_string());
    delivered.push(chunk);

    // exactly one terminal chunk, carrying the composite message
    assert_eq!(count_finals(&delivered), 1);
    let last = delivered.last().unwrap();
    assert!(last.is_complete);
    assert!(last.content.starts_with("Error: "));
    assert!(last.content.contains("stream blew up"));
    assert!(last.content.contains("fallback refused"));

    // the returned error carries both underlying messages
    match &error {
        BackendError::BothAttemptsFailed { stream_error, fallback_error } => {
            assert_eq!(stream_error, "stream blew up");
            assert_eq!(fallback_error, "fallback refused");
        }
        other => panic!("expected BothAttemptsFailed, got {:?}", other),
    }
    let message = error.message();
    assert!(message.contains("stream blew up"));
    assert!(message.contains("fallback refused"));
    assert_eq!(
        message,
        "Both streaming and non-streaming requests failed. \
         Streaming error: stream blew up, non-streaming error: fallback refused"
    );
}

#[test]
fn test_missing_credential_path_delivers_one_final_chunk() {
    let backend = Backend::Gpt(Openai::new("gpt-4o".to_string()));
    let (chunk, error) = backend.start_send().unwrap_err();
    assert!(chunk.is_complete);
    assert!(chunk.content.starts_with("Error: OpenAI API key not available"));
    match error {
        BackendError::MissingCredential { detail } => {
            assert!(detail.contains("API key not available"));
        }
        other => panic!("expected MissingCredential, got {:?}", other),
    }
}

#[test]
fn test_extract_reply() {
    let ok = extract_reply(&vec![ChoiceReply { content: Some("hi there".to_string()) }]);
    assert_eq!(ok.unwrap(), "hi there");

    let no_choices: Vec<ChoiceReply> = Vec::new();
    match extract_reply(&no_choices) {
        Err(BackendError::Protocol { detail }) => {
            assert_eq!(detail, "No response content received");
        }
        other => panic!("expected Protocol, got {:?}", other),
    }

    let no_content = vec![ChoiceReply { content: None }];
    assert!(extract_reply(&no_content).is_err());
}

#[test]
fn test_finish_test_rejects_empty_replies() {
    assert_eq!(finish_test("pong".to_string()).unwrap(), "pong");
    match finish_test(String::new()) {
        Err(BackendError::Protocol { detail }) => {
            assert_eq!(detail, "No response content received");
        }
        other => panic!("expected Protocol, got {:?}", other),
    }
}

#[test]
fn test_probe_payload() {
    let backend = Backend::GitHub(
        llm_core::GitHubBackend::new("gpt-4o".to_string()).with_api_key("t".to_string()),
    );
    let messages = backend.test_messages();
    assert_eq!(messages.len(), 2);
    assert_eq!(messages[1].text, "please confirm you are available");
    assert!(messages[1].image_data_url.is_none());
}

#[test]
fn test_error_messages() {
    let transport = BackendError::Transport { detail: "timed out".to_string() };
    assert_eq!(transport.message(), "timed out");
    let protocol = BackendError::Protocol { detail: "no choices".to_string() };
    assert_eq!(protocol.message(), "no choices");
    let missing = BackendError::MissingCredential { detail: "no key".to_string() };
    assert_eq!(missing.message(), "no key");
}
