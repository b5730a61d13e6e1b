use yunxi_agent::agent::{
    AgentEvent, AgentRunStatus, CommandStatus, FileChangeKind, McpToolStatus, PatchStatus,
    ThreadRuntimeState, TodoStatus, TurnRuntimeMetadata,
};
use yunxi_agent::cli::stream::protocol_events_from_agent_events;
use yunxi_agent::protocol::{
    ProtocolRole, ResponseItem, ResponseItemDelta, RuntimeEvent, ThreadId, ToolCall,
    ToolCallStatus, TurnId,
};

fn thread(id: &str) -> ThreadId {
    ThreadId(id.to_string())
}

fn turn() -> TurnId {
    TurnId("cli-turn".to_string())
}

#[test]
fn a_plain_run_opens_the_thread_and_turn_once() {
    let events = protocol_events_from_agent_events(&[
        AgentEvent::Started { prompt: "hi".to_string() },
        AgentEvent::TurnStarted,
        AgentEvent::Message { content: "hello".to_string() },
        AgentEvent::Completed { status: AgentRunStatus::Completed, usage: None },
    ]);
    assert_eq!(
        events,
        vec![
            RuntimeEvent::ThreadStarted { thread_id: thread("cli-thread") },
            RuntimeEvent::TurnStarted { thread_id: thread("cli-thread"), turn_id: turn() },
            RuntimeEvent::Item {
                thread_id: thread("cli-thread"),
                turn_id: turn(),
                item: ResponseItem::Message { role: ProtocolRole::User, content: "hi".to_string() },
            },
            RuntimeEvent::Item {
                thread_id: thread("cli-thread"),
                turn_id: turn(),
                item: ResponseItem::Message {
                    role: ProtocolRole::Assistant,
                    content: "hello".to_string(),
                },
            },
            RuntimeEvent::TurnCompleted { thread_id: thread("cli-thread"), turn_id: turn() },
        ]
    );
}

#[test]
fn a_named_thread_carries_the_events_after_it() {
    let events = protocol_events_from_agent_events(&[
        AgentEvent::ThreadStarted { thread_id: "thread-9".to_string() },
        AgentEvent::TurnStarted,
        AgentEvent::Reasoning { content: "thinking".to_string() },
    ]);
    assert_eq!(
        events,
        vec![
            RuntimeEvent::ThreadStarted { thread_id: thread("thread-9") },
            RuntimeEvent::TurnStarted { thread_id: thread("thread-9"), turn_id: turn() },
            RuntimeEvent::Item {
                thread_id: thread("thread-9"),
                turn_id: turn(),
                item: ResponseItem::Reasoning { content: "thinking".to_string() },
            },
        ]
    );
}

#[test]
fn a_thread_state_opens_its_own_thread_first() {
    let state = ThreadRuntimeState {
        thread_id: "thread-2".to_string(),
        session_id: Some("session-2".to_string()),
        parent_thread_id: Some("thread-1".to_string()),
        status: "active".to_string(),
        cwd: "/ws".to_string(),
        resume_source: None,
        child_depth: 1,
        data: vec![("k".to_string(), "v".to_string())],
    };
    let events = protocol_events_from_agent_events(&[AgentEvent::ThreadState { state }]);
    assert_eq!(events.len(), 2);
    assert_eq!(events[0], RuntimeEvent::ThreadStarted { thread_id: thread("thread-2") });
    match &events[1] {
        RuntimeEvent::ThreadState { thread_id, state } => {
            assert_eq!(thread_id, &thread("thread-2"));
            assert_eq!(state.parent_thread_id, Some(thread("thread-1")));
            assert_eq!(state.session_id.as_deref(), Some("session-2"));
            assert_eq!(state.child_depth, 1);
            assert_eq!(state.data, vec![("k".to_string(), "v".to_string())]);
        }
        other => panic!("unexpected event {other:?}"),
    }
}

#[test]
fn commands_report_their_exit_and_output() {
    let events = protocol_events_from_agent_events(&[
        AgentEvent::CommandStarted { id: Some("cmd-1".to_string()), command: "ls".to_string() },
        AgentEvent::CommandUpdated {
            id: Some("cmd-1".to_string()),
            command: "ls".to_string(),
            aggregated_output: "a".to_string(),
        },
        AgentEvent::CommandCompleted {
            id: Some("cmd-1".to_string()),
            command: "ls".to_string(),
            aggregated_output: "a\nb".to_string(),
            exit_code: Some(0),
            status: CommandStatus::Completed,
        },
        AgentEvent::CommandFinished { command: "false".to_string(), exit_code: -1 },
    ]);
    assert_eq!(
        events,
        vec![
            RuntimeEvent::ToolStarted {
                thread_id: thread("cli-thread"),
                turn_id: turn(),
                call: ToolCall::Shell { id: Some("cmd-1".to_string()), command: "ls".to_string() },
            },
            RuntimeEvent::ItemDelta {
                thread_id: thread("cli-thread"),
                turn_id: turn(),
                delta: ResponseItemDelta::ToolOutput {
                    call_id: Some("cmd-1".to_string()),
                    delta: "a".to_string(),
                },
            },
            RuntimeEvent::ToolCompleted {
                thread_id: thread("cli-thread"),
                turn_id: turn(),
                call_id: Some("cmd-1".to_string()),
                output: "a\nb".to_string(),
                success: true,
            },
            RuntimeEvent::ToolCompleted {
                thread_id: thread("cli-thread"),
                turn_id: turn(),
                call_id: None,
                output: "false exited with -1".to_string(),
                success: false,
            },
        ]
    );
}

#[test]
fn an_mcp_completion_reports_the_call_and_its_item() {
    let events = protocol_events_from_agent_events(&[AgentEvent::McpToolCompleted {
        id: None,
        server: "docs".to_string(),
        tool: "search".to_string(),
        status: McpToolStatus::Failed,
    }]);
    assert_eq!(
        events,
        vec![
            RuntimeEvent::ToolCompleted {
                thread_id: thread("cli-thread"),
                turn_id: turn(),
                call_id: Some("mcp".to_string()),
                output: "docs.search status: Failed".to_string(),
                success: false,
            },
            RuntimeEvent::Item {
                thread_id: thread("cli-thread"),
                turn_id: turn(),
                item: ResponseItem::McpToolCall {
                    id: "mcp".to_string(),
                    call_id: "mcp".to_string(),
                    server: "docs".to_string(),
                    tool: "search".to_string(),
                    arguments: String::new(),
                    status: ToolCallStatus::Failed,
                },
            },
        ]
    );
}

#[test]
fn patches_files_and_todos_are_written_as_text() {
    let events = protocol_events_from_agent_events(&[
        AgentEvent::PatchCompleted { status: PatchStatus::Completed },
        AgentEvent::FileChanged { path: "src/a.rs".to_string(), kind: FileChangeKind::Update },
        AgentEvent::TodoUpdated {
            id: Some("plan".to_string()),
            items: vec![
                TodoStatus { text: "one".to_string(), completed: true },
                TodoStatus { text: "two".to_string(), completed: false },
            ],
        },
        AgentEvent::TodoUpdated { id: None, items: Vec::new() },
        AgentEvent::ToolCallCompleted {
            id: Some("call-1".to_string()),
            name: "search".to_string(),
            output: "found".to_string(),
            status: CommandStatus::Failed,
        },
    ]);
    assert_eq!(
        events[0],
        RuntimeEvent::Item {
            thread_id: thread("cli-thread"),
            turn_id: turn(),
            item: ResponseItem::FunctionCallOutput {
                id: "patch".to_string(),
                call_id: "patch".to_string(),
                output: "patch status: Completed".to_string(),
            },
        }
    );
    assert_eq!(
        events[1],
        RuntimeEvent::FileChanged {
            thread_id: thread("cli-thread"),
            turn_id: turn(),
            path: "src/a.rs".to_string(),
            kind: "Update".to_string(),
        }
    );
    assert_eq!(
        events[2],
        RuntimeEvent::Item {
            thread_id: thread("cli-thread"),
            turn_id: turn(),
            item: ResponseItem::Reasoning {
                content: "todo updated Some(\"plan\"): 2 item(s)".to_string(),
            },
        }
    );
    assert_eq!(
        events[3],
        RuntimeEvent::Item {
            thread_id: thread("cli-thread"),
            turn_id: turn(),
            item: ResponseItem::Reasoning { content: "todo updated None: 0 item(s)".to_string() },
        }
    );
    assert_eq!(
        events[4],
        RuntimeEvent::ToolCompleted {
            thread_id: thread("cli-thread"),
            turn_id: turn(),
            call_id: Some("call-1".to_string()),
            output: "search: found".to_string(),
            success: false,
        }
    );
}

#[test]
fn failed_and_cancelled_runs_add_their_outcome() {
    let failed = protocol_events_from_agent_events(&[AgentEvent::Completed {
        status: AgentRunStatus::Failed,
        usage: None,
    }]);
    assert_eq!(
        failed,
        vec![
            RuntimeEvent::TurnCompleted { thread_id: thread("cli-thread"), turn_id: turn() },
            RuntimeEvent::Error {
                thread_id: Some(thread("cli-thread")),
                turn_id: Some(turn()),
                message: "agent run failed".to_string(),
            },
        ]
    );
    let cancelled = protocol_events_from_agent_events(&[AgentEvent::Completed {
        status: AgentRunStatus::Cancelled,
        usage: None,
    }]);
    assert_eq!(
        cancelled[1],
        RuntimeEvent::Cancelled {
            thread_id: Some(thread("cli-thread")),
            turn_id: Some(turn()),
            reason: Some("agent run cancelled".to_string()),
        }
    );
    let warned = protocol_events_from_agent_events(&[AgentEvent::Warning {
        message: "careful".to_string(),
    }]);
    assert_eq!(
        warned,
        vec![RuntimeEvent::Error {
            thread_id: Some(thread("cli-thread")),
            turn_id: Some(turn()),
            message: "careful".to_string(),
        }]
    );
}

#[test]
fn turn_metadata_keeps_its_entries_in_key_order() {
    let metadata = TurnRuntimeMetadata {
        session_id: None,
        cwd: "/ws".to_string(),
        model: Some("gpt-5".to_string()),
        provider: None,
        approval_mode: None,
        sandbox_mode: None,
        context_phase: Some("boot".to_string()),
        resume_source: None,
        cancellation_state: None,
        child_depth: 3,
        data: vec![("a".to_string(), "1".to_string())],
    };
    let events = protocol_events_from_agent_events(&[AgentEvent::TurnMetadata { metadata }]);
    assert_eq!(events.len(), 3);
    match &events[2] {
        RuntimeEvent::TurnMetadata { metadata, .. } => {
            assert_eq!(metadata.cwd, "/ws");
            assert_eq!(metadata.model.as_deref(), Some("gpt-5"));
            assert_eq!(metadata.thread_id, thread("cli-thread"));
            assert_eq!(
                metadata.extra,
                vec![
                    ("a".to_string(), "1".to_string()),
                    ("child_depth".to_string(), "3".to_string()),
                    ("context_phase".to_string(), "boot".to_string()),
                ]
            );
        }
        other => panic!("unexpected event {other:?}"),
    }
}

#[test]
fn a_stream_without_turn_events_opens_nothing() {
    let events = protocol_events_from_agent_events(&[AgentEvent::Message {
        content: "hello".to_string(),
    }]);
    assert_eq!(
        events,
        vec![RuntimeEvent::Item {
            thread_id: thread("cli-thread"),
            turn_id: turn(),
            item: ResponseItem::Message {
                role: ProtocolRole::Assistant,
                content: "hello".to_string(),
            },
        }]
    );
    let twice = protocol_events_from_agent_events(&[
        AgentEvent::TurnStarted,
        AgentEvent::TurnStarted,
        AgentEvent::Started { prompt: "p".to_string() },
    ]);
    let starts = twice
        .iter()
        .filter(|e| matches!(e, RuntimeEvent::TurnStarted { .. }))
        .count();
    assert_eq!(starts, 1);
    assert_eq!(twice.len(), 3);
}
