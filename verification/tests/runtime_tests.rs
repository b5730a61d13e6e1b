use yunxi_agent::agent::{AgentEvent, AgentRunStatus, CommandStatus};
use yunxi_agent::protocol::{
    ResponseItem, ResponseItemDelta, ResponseStatus, StreamEvent, ThreadId, ToolCall,
    ToolCallStatus, TurnId,
};
use yunxi_agent::runtime::{
    json_object_with, protocol_stream_events_to_agent_events, RuntimeContext, RuntimeEventSink,
    VecEventSink, DEFAULT_MAX_TURNS,
};
use yunxi_agent::agent::AgentConfig;

fn ids() -> (ThreadId, TurnId) {
    (
        ThreadId("thread-1".to_string()),
        TurnId("turn-1".to_string()),
    )
}

#[test]
fn protocol_stream_events_map_to_agent_events() {
    let stream = vec![
        StreamEvent::ResponseStarted {
            thread_id: ThreadId("thread-1".to_string()),
            turn_id: TurnId("turn-1".to_string()),
            metadata: None,
        },
        StreamEvent::ItemDelta {
            thread_id: ThreadId("thread-1".to_string()),
            turn_id: TurnId("turn-1".to_string()),
            delta: ResponseItemDelta::ReasoningContent {
                item_id: None,
                delta: "reason".to_string(),
            },
        },
    ];

    let events = protocol_stream_events_to_agent_events(&stream);

    assert!(events.iter().any(|event| matches!(
        event,
        AgentEvent::Reasoning { content } if content == "reason"
    )));
}

#[test]
fn stream_start_and_completion_frame_the_agent_events() {
    let (thread_id, turn_id) = ids();
    let stream = vec![
        StreamEvent::ResponseStarted {
            thread_id: thread_id.clone(),
            turn_id: turn_id.clone(),
            metadata: None,
        },
        StreamEvent::ItemDelta {
            thread_id: thread_id.clone(),
            turn_id: turn_id.clone(),
            delta: ResponseItemDelta::ToolCallStatus {
                call_id: Some("c1".to_string()),
                status: ToolCallStatus::Cancelled,
            },
        },
        StreamEvent::ResponseCompleted {
            thread_id: thread_id.clone(),
            turn_id: turn_id.clone(),
            status: ResponseStatus::Failed,
        },
    ];
    let events = protocol_stream_events_to_agent_events(&stream);
    assert_eq!(
        events,
        vec![
            AgentEvent::ThreadStarted {
                thread_id: "thread-1".to_string()
            },
            AgentEvent::TurnStarted,
            AgentEvent::ToolCallCompleted {
                id: Some("c1".to_string()),
                name: "tool".to_string(),
                output: "tool status: Cancelled".to_string(),
                status: CommandStatus::Failed,
            },
            AgentEvent::Completed {
                status: AgentRunStatus::Failed,
                usage: None
            },
        ]
    );
}

#[test]
fn tool_search_call_is_announced_with_json_arguments() {
    let (thread_id, turn_id) = ids();
    let stream = vec![StreamEvent::ItemCompleted {
        thread_id,
        turn_id,
        item: ResponseItem::ToolCall {
            call: ToolCall::ToolSearch {
                id: Some("s1".to_string()),
                query: "say \"hi\"".to_string(),
            },
        },
    }];
    let events = protocol_stream_events_to_agent_events(&stream);
    assert_eq!(
        events,
        vec![AgentEvent::ToolCallStarted {
            id: Some("s1".to_string()),
            name: "tool_search".to_string(),
            arguments_json: Some("{\"query\":\"say \\\"hi\\\"\"}".to_string()),
        }]
    );
}

#[test]
fn json_object_wraps_one_encoded_value() {
    assert_eq!(json_object_with("path", "\"a.png\""), "{\"path\":\"a.png\"}");
}

#[test]
fn vec_event_sink_keeps_events_in_order() {
    let mut sink = VecEventSink::default();
    sink.emit(AgentEvent::TurnStarted).expect("emit");
    sink.emit(AgentEvent::Warning {
        message: "w".to_string(),
    })
    .expect("emit");
    let events = sink.events().expect("events");
    assert_eq!(
        events,
        vec![
            AgentEvent::TurnStarted,
            AgentEvent::Warning {
                message: "w".to_string()
            }
        ]
    );
}

#[test]
fn runtime_context_defaults_to_eight_turns() {
    let context = RuntimeContext::new(AgentConfig::new("."));
    assert_eq!(context.max_turns, DEFAULT_MAX_TURNS);
    assert_eq!(context.max_turns, 8);
}
