use yunxi_agent::protocol::ToolCall;
use yunxi_agent::provider::ProviderToolCall;

#[test]
fn provider_tool_call_converts_to_yunxi_protocol_tool_call() {
    let call = ProviderToolCall::Shell {
        id: Some("call-1".to_string()),
        command: "echo yunxi".to_string(),
    };

    assert_eq!(
        ToolCall::from(call),
        ToolCall::Shell {
            id: Some("call-1".to_string()),
            command: "echo yunxi".to_string()
        }
    );
}

use yunxi_agent::agent::{AgentConfig, AgentInput};
use yunxi_agent::provider::{
    classify_provider_status, AgentProvider, FixtureTransport, ProviderErrorKind, ProviderMessage,
    ProviderRequest, ProviderRetryPolicy, ProviderRole, ProviderSseDecoder, ProviderStreamChunk,
    ProviderTransportRequest, StaticProvider,
};

#[test]
fn sse_decoder_waits_for_complete_lines() {
    let mut decoder = ProviderSseDecoder::new();
    let first = decoder.push_chunk("data: {\"a\":1}\n: keep-alive\ndata: par").unwrap();
    assert_eq!(
        first,
        vec![
            ProviderStreamChunk::Data {
                value: "{\"a\":1}".to_string()
            },
            ProviderStreamChunk::Comment {
                value: "keep-alive".to_string()
            }
        ]
    );
    let second = decoder.push_chunk("tial\ndata: [DONE]\n").unwrap();
    assert_eq!(
        second,
        vec![
            ProviderStreamChunk::Data {
                value: "partial".to_string()
            },
            ProviderStreamChunk::Done
        ]
    );
    assert!(decoder.finish().unwrap().is_empty());
}

#[test]
fn retry_policy_retries_transient_statuses_only() {
    let policy = ProviderRetryPolicy::default();
    assert!(policy.should_retry_status(429, 0));
    assert!(policy.should_retry_status(503, 1));
    assert!(!policy.should_retry_status(503, 2));
    assert!(!policy.should_retry_status(400, 0));
    assert_eq!(ProviderRetryPolicy::new(0).max_attempts, 1);
}

#[test]
fn fixture_transport_is_sent_once_when_status_is_final() {
    let policy = ProviderRetryPolicy::default();
    let transport = FixtureTransport::new(200, "{}");
    let request = ProviderTransportRequest {
        method: "POST".to_string(),
        url: "http://localhost".to_string(),
        headers: vec![],
        body: "{}".to_string(),
        stream: false,
        timeout_millis: None,
    };
    let (response, _attempts) = policy.send_with_retries(&transport, &request);
    assert_eq!(response.unwrap().status, 200);
}

#[test]
fn provider_statuses_are_classified() {
    assert_eq!(classify_provider_status(401), ProviderErrorKind::Auth);
    assert_eq!(classify_provider_status(429), ProviderErrorKind::RateLimit);
    assert_eq!(classify_provider_status(503), ProviderErrorKind::Server);
}

#[test]
fn static_provider_echoes_the_trimmed_prompt() {
    let provider = StaticProvider::default();
    let request = ProviderRequest::new(AgentConfig::new("."), AgentInput::text("  hi  "));
    let response = provider.complete(&request).unwrap();
    let message = response.message.unwrap();
    assert_eq!(message.role, ProviderRole::Assistant);
    assert_eq!(
        message.content,
        "YunXi autonomous runtime accepted prompt: hi"
    );
}

#[test]
fn static_provider_child_fixture_reports_tool_results() {
    let provider = StaticProvider::default();
    let input = AgentInput::text("run stage 4j child runtime fixture");
    let first = provider
        .complete(&ProviderRequest::new(AgentConfig::new("."), input.clone()))
        .unwrap();
    assert!(first.message.is_none());
    assert_eq!(first.tool_calls.len(), 1);
    let with_result = ProviderRequest::with_messages(
        AgentConfig::new("."),
        input,
        vec![
            ProviderMessage::user("x"),
            ProviderMessage::tool("  child done  "),
        ],
    );
    let second = provider.complete(&with_result).unwrap();
    assert_eq!(
        second.message.unwrap().content,
        "Stage 4J child runtime fixture completed with child result: child done"
    );
}

#[test]
fn sse_decoding_ignores_chunk_boundaries() {
    let stream = "data: {\"a\":1}\n: note\r\ndata: [DONE]\n";
    let mut whole = ProviderSseDecoder::new();
    let all = whole.push_chunk(stream).unwrap();
    for split in 0..stream.len() {
        if !stream.is_char_boundary(split) {
            continue;
        }
        let mut pieces = ProviderSseDecoder::new();
        let mut got = pieces.push_chunk(&stream[..split]).unwrap();
        got.extend(pieces.push_chunk(&stream[split..]).unwrap());
        assert_eq!(got, all, "split at {split}");
    }
    assert_eq!(all.len(), 3);
}
