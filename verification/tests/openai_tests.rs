use yunxi_agent::agent::AgentError;
use yunxi_agent::openai::{
    parse_openai_response_json, parse_openai_stream_events, parse_openai_tool_call,
    OpenAiStreamAccumulator,
};
use yunxi_agent::protocol::{
    ProtocolRole, ResponseItem, ResponseItemDelta, ResponseStatus, StreamEvent, ThreadId,
    ToolCallStatus, TurnId,
};
use yunxi_agent::provider::{ProviderSseDecoder, ProviderStreamChunk, ProviderToolCall};

#[test]
fn openai_response_json_parses_assistant_text_and_usage() {
    let response = parse_openai_response_json(
        r#"{
          "choices": [
            { "message": { "role": "assistant", "content": "hello from fixture" } }
          ],
          "usage": {
            "prompt_tokens": 7,
            "completion_tokens": 11,
            "prompt_tokens_details": { "cached_tokens": 3 },
            "completion_tokens_details": { "reasoning_tokens": 5 }
          }
        }"#,
    )
    .expect("provider response");

    assert_eq!(
        response
            .message
            .as_ref()
            .map(|message| message.content.as_str()),
        Some("hello from fixture")
    );
    assert!(response.tool_calls.is_empty());
    let usage = response.usage.expect("usage");
    assert_eq!(usage.input_tokens, 7);
    assert_eq!(usage.cached_input_tokens, 3);
    assert_eq!(usage.output_tokens, 11);
    assert_eq!(usage.reasoning_output_tokens, 5);
}

#[test]
fn openai_response_json_parses_shell_tool_call() {
    let response = parse_openai_response_json(
        r#"{
          "choices": [
            {
              "message": {
                "role": "assistant",
                "content": null,
                "tool_calls": [
                  {
                    "id": "call_1",
                    "type": "function",
                    "function": {
                      "name": "shell",
                      "arguments": "{\"command\":\"echo yunxi\"}"
                    }
                  }
                ]
              }
            }
          ]
        }"#,
    )
    .expect("provider response");

    assert_eq!(response.message, None);
    assert_eq!(
        response.tool_calls,
        vec![ProviderToolCall::Shell {
            id: Some("call_1".to_string()),
            command: "echo yunxi".to_string()
        }]
    );
}

#[test]
fn openai_response_json_parses_patch_tool_call() {
    let response = parse_openai_response_json(
        r#"{
          "choices": [
            {
              "message": {
                "role": "assistant",
                "content": null,
                "tool_calls": [
                  {
                    "id": "call_patch",
                    "type": "function",
                    "function": {
                      "name": "patch",
                      "arguments": "{\"op\":\"write\",\"path\":\"notes.txt\",\"content\":\"hello\"}"
                    }
                  }
                ]
              }
            }
          ]
        }"#,
    )
    .expect("provider response");

    assert_eq!(response.message, None);
    assert_eq!(
        response.tool_calls,
        vec![ProviderToolCall::Patch {
            id: Some("call_patch".to_string()),
            patch: r#"{"op":"write","path":"notes.txt","content":"hello"}"#.to_string()
        }]
    );
}

fn message_of(error: AgentError) -> String {
    match error {
        AgentError::Execution { message } => message,
        other => panic!("unexpected error {other:?}"),
    }
}

#[test]
fn openai_response_errors_name_what_is_missing() {
    assert!(message_of(parse_openai_response_json("not json").unwrap_err())
        .starts_with("failed to parse provider response JSON: "));
    assert_eq!(
        message_of(parse_openai_response_json(r#"{"choices":[]}"#).unwrap_err()),
        "provider response did not contain choices[0].message"
    );
    assert_eq!(
        message_of(
            parse_openai_response_json(
                r#"{"choices":[{"message":{"tool_calls":[{"type":"function"}]}}]}"#
            )
            .unwrap_err()
        ),
        "provider tool call is missing function object"
    );
}

#[test]
fn prefixed_tool_names_fill_in_defaults() {
    assert_eq!(
        parse_openai_tool_call(None, "plugin__web_search", "{}").unwrap(),
        ProviderToolCall::ToolSearch {
            id: None,
            query: "web search".to_string()
        }
    );
    assert_eq!(
        parse_openai_tool_call(Some("x".to_string()), "skill__skill__lint", "{\"arguments_json\":{\"a\":1}}").unwrap(),
        ProviderToolCall::Skill {
            id: Some("x".to_string()),
            name: "lint".to_string(),
            arguments_json: Some("{\"a\":1}".to_string())
        }
    );
    assert_eq!(
        message_of(parse_openai_tool_call(None, "mcp__docs", "{}").unwrap_err()),
        "provider tool argument tool is missing or not a string"
    );
    assert_eq!(
        message_of(parse_openai_tool_call(None, "dance", "{}").unwrap_err()),
        "unsupported provider tool call: dance"
    );
}

fn ids() -> (ThreadId, TurnId) {
    (ThreadId("t".to_string()), TurnId("u".to_string()))
}

#[test]
fn chat_stream_gathers_tool_call_deltas() {
    let stream = [
        "data: {\"choices\":[{\"delta\":{\"content\":\"Hi\"}}]}\n",
        "data: {\"choices\":[{\"delta\":{\"tool_calls\":[{\"index\":0,\"id\":\"c1\",\"function\":{\"name\":\"shell\",\"arguments\":\"{\\\"command\\\":\"}}]}}]}\n",
        "data: {\"choices\":[{\"delta\":{\"tool_calls\":[{\"index\":0,\"function\":{\"arguments\":\"\\\"ls\\\"}\"}}]}}]}\n",
        "data: {\"choices\":[{\"delta\":{},\"finish_reason\":\"tool_calls\"}]}\n",
        "data: [DONE]\n",
    ]
    .concat();
    let events = parse_openai_stream_events("t", "u", &stream).expect("events");
    let (thread_id, turn_id) = ids();
    assert_eq!(
        events[0],
        StreamEvent::ResponseStarted {
            thread_id: thread_id.clone(),
            turn_id: turn_id.clone(),
            metadata: None
        }
    );
    assert_eq!(
        events[1],
        StreamEvent::ItemDelta {
            thread_id: thread_id.clone(),
            turn_id: turn_id.clone(),
            delta: ResponseItemDelta::MessageContent {
                item_id: None,
                delta: "Hi".to_string()
            }
        }
    );
    let completed: Vec<&StreamEvent> = events
        .iter()
        .filter(|e| matches!(e, StreamEvent::ItemCompleted { .. }))
        .collect();
    assert_eq!(
        completed,
        vec![&StreamEvent::ItemCompleted {
            thread_id: thread_id.clone(),
            turn_id: turn_id.clone(),
            item: ResponseItem::FunctionCall {
                id: "c1".to_string(),
                call_id: "c1".to_string(),
                name: "shell".to_string(),
                arguments: "{\"command\":\"ls\"}".to_string(),
                status: ToolCallStatus::Completed
            }
        }]
    );
    let completions = events
        .iter()
        .filter(|e| matches!(e, StreamEvent::ResponseCompleted { .. }))
        .count();
    assert_eq!(completions, 1);
}

#[test]
fn responses_api_events_map_to_items() {
    let stream = [
        "data: {\"type\":\"response.output_item.done\",\"item\":{\"type\":\"message\",\"content\":[{\"text\":\"a\"},{\"content\":\"b\"}]}}\n",
        "data: {\"type\":\"response.output_item.done\",\"item\":{\"type\":\"mcp_call\",\"server_label\":\"docs\",\"name\":\"find\",\"arguments\":{\"q\":1}}}\n",
        "data: {\"type\":\"response.failed\",\"error\":{\"message\":\"boom\"}}\n",
    ]
    .concat();
    let events = parse_openai_stream_events("t", "u", &stream).expect("events");
    let (thread_id, turn_id) = ids();
    assert_eq!(
        events[1],
        StreamEvent::ItemCompleted {
            thread_id: thread_id.clone(),
            turn_id: turn_id.clone(),
            item: ResponseItem::Message {
                role: ProtocolRole::Assistant,
                content: "ab".to_string()
            }
        }
    );
    assert_eq!(
        events[2],
        StreamEvent::ItemCompleted {
            thread_id: thread_id.clone(),
            turn_id: turn_id.clone(),
            item: ResponseItem::McpToolCall {
                id: "mcp-call".to_string(),
                call_id: "mcp-call".to_string(),
                server: "docs".to_string(),
                tool: "find".to_string(),
                arguments: "{\"q\":1}".to_string(),
                status: ToolCallStatus::Completed
            }
        }
    );
    assert_eq!(
        events[3],
        StreamEvent::ResponseFailed {
            thread_id: thread_id.clone(),
            turn_id: turn_id.clone(),
            message: "boom".to_string()
        }
    );
    assert_eq!(
        events.last().unwrap(),
        &StreamEvent::ResponseCompleted {
            thread_id,
            turn_id,
            status: ResponseStatus::Completed
        }
    );
}

#[test]
fn malformed_stream_data_is_an_error() {
    let error = parse_openai_stream_events("t", "u", "data: {oops\n").unwrap_err();
    assert!(message_of(error).starts_with("failed to parse provider stream event JSON: "));
}

#[test]
fn accumulator_completes_once() {
    let mut accumulator = OpenAiStreamAccumulator::new("t", "u");
    let added = accumulator.push_sse_chunk(ProviderStreamChunk::Done).unwrap();
    assert_eq!(added.len(), 1);
    let again = accumulator.push_sse_chunk(ProviderStreamChunk::Done).unwrap();
    assert!(again.is_empty());
    let mut decoder = ProviderSseDecoder::new();
    let all = accumulator.finish(&mut decoder).unwrap();
    assert_eq!(all.len(), 2);
}
