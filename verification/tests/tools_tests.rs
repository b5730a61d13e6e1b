use yunxi_agent::agent::{AgentConfig, AgentEvent, CommandStatus, FileChangeKind, McpToolStatus, PatchStatus};
use yunxi_agent::provider::ProviderToolCall;
use yunxi_agent::tools::{
    file_change_events, map_tool_call, map_tool_status, render_tool_response,
    tool_completed_event, tool_started_event, tool_warning_event, ToolFileChange,
    ToolFileChangeKind, ToolRequest, ToolRequestKind, ToolResponse, ToolStatus,
};

fn response(status: ToolStatus, output: Option<&str>, error: Option<&str>) -> ToolResponse {
    ToolResponse {
        id: Some("call-1".to_string()),
        status,
        output: output.map(str::to_string),
        error: error.map(str::to_string),
        exit_code: Some(0),
        changed_files: Vec::new(),
    }
}

fn request(kind: ToolRequestKind) -> ToolRequest {
    ToolRequest {
        id: Some("call-1".to_string()),
        cwd: "/work".to_string(),
        kind,
    }
}

#[test]
fn provider_tool_call_becomes_request_in_agent_cwd() {
    let config = AgentConfig::new("/work");
    let mapped = map_tool_call(
        &config,
        ProviderToolCall::Mcp {
            id: Some("m".to_string()),
            server: "docs".to_string(),
            tool: "find".to_string(),
            arguments_json: None,
        },
    );
    assert_eq!(
        mapped,
        ToolRequest {
            id: Some("m".to_string()),
            cwd: "/work".to_string(),
            kind: ToolRequestKind::Mcp {
                server: "docs".to_string(),
                tool: "find".to_string(),
                arguments_json: None
            }
        }
    );
}

#[test]
fn start_events_follow_the_request_kind() {
    assert_eq!(
        tool_started_event(&request(ToolRequestKind::Shell {
            command: "ls".to_string()
        })),
        AgentEvent::CommandStarted {
            id: Some("call-1".to_string()),
            command: "ls".to_string()
        }
    );
    assert_eq!(
        tool_started_event(&request(ToolRequestKind::Patch {
            patch: "p".to_string()
        })),
        AgentEvent::PatchCompleted {
            status: PatchStatus::InProgress
        }
    );
    assert_eq!(
        tool_started_event(&request(ToolRequestKind::Skill {
            name: "review \"x\"".to_string(),
            arguments_json: None
        })),
        AgentEvent::ToolCallStarted {
            id: Some("call-1".to_string()),
            name: "skill".to_string(),
            arguments_json: Some("{\"name\":\"review \\\"x\\\"\"}".to_string())
        }
    );
    assert_eq!(
        tool_started_event(&request(ToolRequestKind::MultiAgent {
            action: "spawn".to_string(),
            arguments_json: None
        })),
        AgentEvent::ToolCallStarted {
            id: Some("call-1".to_string()),
            name: "multi_agent".to_string(),
            arguments_json: Some("{\"action\":\"spawn\"}".to_string())
        }
    );
    assert_eq!(
        tool_started_event(&request(ToolRequestKind::MultiAgent {
            action: "spawn".to_string(),
            arguments_json: Some("{\"task\":1}".to_string())
        })),
        AgentEvent::ToolCallStarted {
            id: Some("call-1".to_string()),
            name: "multi_agent".to_string(),
            arguments_json: Some("{\"task\":1}".to_string())
        }
    );
    assert_eq!(
        tool_started_event(&request(ToolRequestKind::ViewImage {
            path: "a.png".to_string()
        })),
        AgentEvent::ToolCallStarted {
            id: Some("call-1".to_string()),
            name: "view_image".to_string(),
            arguments_json: Some("{\"path\":\"a.png\"}".to_string())
        }
    );
}

#[test]
fn completion_events_carry_status_and_output() {
    let shell = request(ToolRequestKind::Shell {
        command: "ls".to_string(),
    });
    assert_eq!(
        tool_completed_event(&shell, &response(ToolStatus::Failed, None, Some("boom"))),
        AgentEvent::CommandCompleted {
            id: Some("call-1".to_string()),
            command: "ls".to_string(),
            aggregated_output: String::new(),
            exit_code: Some(0),
            status: CommandStatus::Failed
        }
    );
    let patch = request(ToolRequestKind::Patch {
        patch: "p".to_string(),
    });
    assert_eq!(
        tool_completed_event(&patch, &response(ToolStatus::Declined, None, None)),
        AgentEvent::PatchCompleted {
            status: PatchStatus::Failed
        }
    );
    let mcp = request(ToolRequestKind::Mcp {
        server: "s".to_string(),
        tool: "t".to_string(),
        arguments_json: None,
    });
    assert_eq!(
        tool_completed_event(&mcp, &response(ToolStatus::Completed, Some("ok"), None)),
        AgentEvent::McpToolCompleted {
            id: Some("call-1".to_string()),
            server: "s".to_string(),
            tool: "t".to_string(),
            status: McpToolStatus::Completed
        }
    );
    let skill = request(ToolRequestKind::Skill {
        name: "lint".to_string(),
        arguments_json: None,
    });
    assert_eq!(
        tool_completed_event(&skill, &response(ToolStatus::Declined, None, None)),
        AgentEvent::ToolCallCompleted {
            id: Some("call-1".to_string()),
            name: "skill:lint".to_string(),
            output: "tool completed with status Declined".to_string(),
            status: CommandStatus::Declined
        }
    );
}

#[test]
fn rendered_response_prefers_output_then_error() {
    assert_eq!(
        render_tool_response(&response(ToolStatus::Failed, Some("out"), Some("err"))),
        "out"
    );
    assert_eq!(
        render_tool_response(&response(ToolStatus::Failed, None, Some("err"))),
        "err"
    );
    assert_eq!(map_tool_status(ToolStatus::InProgress), CommandStatus::InProgress);
}

#[test]
fn warnings_only_for_failed_or_declined_responses() {
    assert_eq!(
        tool_warning_event(&response(ToolStatus::Failed, Some("out"), Some("err"))),
        Some(AgentEvent::Warning {
            message: "err".to_string()
        })
    );
    assert_eq!(
        tool_warning_event(&response(ToolStatus::Declined, Some("out"), None)),
        Some(AgentEvent::Warning {
            message: "out".to_string()
        })
    );
    assert_eq!(
        tool_warning_event(&response(ToolStatus::Completed, Some("out"), Some("err"))),
        None
    );
    assert_eq!(tool_warning_event(&response(ToolStatus::Failed, None, None)), None);
}

#[test]
fn changed_files_become_file_events_in_order() {
    let mut r = response(ToolStatus::Completed, None, None);
    r.changed_files = vec![
        ToolFileChange {
            path: "a.txt".to_string(),
            kind: ToolFileChangeKind::Added,
        },
        ToolFileChange {
            path: "b.txt".to_string(),
            kind: ToolFileChangeKind::Moved,
        },
    ];
    assert_eq!(
        file_change_events(&r),
        vec![
            AgentEvent::FileChanged {
                path: "a.txt".to_string(),
                kind: FileChangeKind::Add
            },
            AgentEvent::FileChanged {
                path: "b.txt".to_string(),
                kind: FileChangeKind::Move
            }
        ]
    );
}
