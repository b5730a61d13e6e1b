use yunxi_agent::agent::AgentError;
use yunxi_agent::json::JsonValue;
use yunxi_agent::mcp::{
    render_mcp_tool_approval_template, InMemoryMcpRuntime, McpLifecycleEvent, McpResource,
    McpResourceContentSeed, McpResourceRequest, McpRuntime, McpRuntimeSeed, McpRuntimeSnapshot,
    McpServerConfig, McpToolCallStatus, McpToolInvocation, McpToolResult, McpToolResultSeed,
    McpToolSpec, McpTransport,
};

fn echo_tool(server: &str, requires_approval: bool) -> McpToolSpec {
    McpToolSpec {
        server: server.to_string(),
        name: "echo".to_string(),
        title: Some("Echo".to_string()),
        description: None,
        input_schema: "{\"type\":\"object\"}".to_string(),
        destructive_hint: Some(false),
        open_world_hint: Some(false),
        requires_approval,
    }
}

fn notes_resource() -> McpResource {
    McpResource {
        server: "local".to_string(),
        uri: "file://notes".to_string(),
        name: Some("notes".to_string()),
        description: None,
        mime_type: Some("text/plain".to_string()),
    }
}

fn local_snapshot(requires_approval: bool) -> McpRuntimeSnapshot {
    let mut snapshot = McpRuntimeSnapshot::default();
    snapshot.register_server(McpServerConfig {
        name: "local".to_string(),
        transport: McpTransport::Stdio {
            command: "node".to_string(),
            args: vec!["server.js".to_string()],
        },
        enabled: true,
    });
    snapshot.register_resource(notes_resource());
    snapshot.register_tool(echo_tool("local", requires_approval));
    snapshot
}

#[test]
fn in_memory_runtime_lists_reads_and_calls_tools() {
    let mut runtime = InMemoryMcpRuntime::new(local_snapshot(false));
    runtime
        .add_resource_content("local".to_string(), "file://notes".to_string(), "hello".to_string())
        .expect("resource");
    runtime
        .add_tool_result(
            "local".to_string(),
            "echo".to_string(),
            McpToolResult {
                content: "pong".to_string(),
            },
        )
        .expect("tool result");

    assert_eq!(
        runtime.list_resources("local").expect("resources"),
        vec!["file://notes".to_string()]
    );
    assert_eq!(
        runtime
            .read_resource(McpResourceRequest {
                server: "local".to_string(),
                uri: "file://notes".to_string(),
            })
            .expect("read"),
        "hello"
    );
    assert_eq!(
        runtime
            .call_tool(McpToolInvocation {
                server: "local".to_string(),
                tool: "echo".to_string(),
                arguments_json: Some("{}".to_string()),
            })
            .expect("call")
            .content,
        "pong"
    );
    assert!(runtime
        .events()
        .expect("events")
        .iter()
        .any(|event| matches!(event, McpLifecycleEvent::ToolCompleted { .. })));
}

#[test]
fn approval_template_renders_params_for_consequential_tools() {
    let rendered = render_mcp_tool_approval_template(
        "apps",
        "create_event",
        Some("Calendar"),
        Some(JsonValue::Object(vec![
            ("calendar_id".to_string(), JsonValue::Str("primary".to_string())),
            ("title".to_string(), JsonValue::Str("Roadmap".to_string())),
        ])),
    );

    assert!(rendered.question.contains("Calendar"));
    assert_eq!(rendered.tool_params_display.len(), 2);
    assert_eq!(rendered.question, "Allow Calendar to run MCP tool create_event?");
    assert_eq!(rendered.elicitation_message, rendered.question);
    assert_eq!(rendered.tool_params_display[0].name, "calendar_id");
    assert_eq!(rendered.tool_params_display[0].value, "\"primary\"");
    assert_eq!(
        rendered.tool_params,
        Some("{\"calendar_id\":\"primary\",\"title\":\"Roadmap\"}".to_string())
    );
}

#[test]
fn blank_connector_falls_back_to_server() {
    let rendered = render_mcp_tool_approval_template("apps", "t", Some("   "), None);
    assert_eq!(rendered.question, "Allow apps to run MCP tool t?");
    assert!(rendered.tool_params.is_none());
    assert!(rendered.tool_params_display.is_empty());
}

#[test]
fn seeded_runtime_serves_contents_and_results() {
    let seed = McpRuntimeSeed {
        snapshot: local_snapshot(false),
        resource_contents: vec![McpResourceContentSeed {
            server: "local".to_string(),
            uri: "file://notes".to_string(),
            content: "hello".to_string(),
        }],
        tool_results: vec![McpToolResultSeed {
            server: "local".to_string(),
            tool: "echo".to_string(),
            content: "pong".to_string(),
        }],
    };
    let mut runtime = InMemoryMcpRuntime::from_seed(seed);
    assert_eq!(
        runtime
            .read_resource(McpResourceRequest {
                server: "local".to_string(),
                uri: "file://notes".to_string(),
            })
            .expect("resource"),
        "hello"
    );
    assert_eq!(
        runtime
            .call_tool(McpToolInvocation {
                server: "local".to_string(),
                tool: "echo".to_string(),
                arguments_json: None,
            })
            .expect("tool")
            .content,
        "pong"
    );
}

#[test]
fn unknown_servers_and_tools_are_errors() {
    let mut runtime = InMemoryMcpRuntime::new(local_snapshot(false));
    assert_eq!(
        runtime.list_tools("remote"),
        Err(AgentError::Execution {
            message: "MCP server is not configured: remote".to_string()
        })
    );
    assert_eq!(
        runtime.call_tool(McpToolInvocation {
            server: "local".to_string(),
            tool: "missing".to_string(),
            arguments_json: None,
        }),
        Err(AgentError::Execution {
            message: "MCP tool missing is not registered on local".to_string()
        })
    );
    assert!(runtime.events().unwrap().is_empty());
    assert_eq!(
        runtime
            .read_resource(McpResourceRequest {
                server: "local".to_string(),
                uri: "file://absent".to_string(),
            })
            .unwrap(),
        ""
    );
}

#[test]
fn approval_tools_record_the_request_between_start_and_completion() {
    let mut runtime = InMemoryMcpRuntime::new(local_snapshot(true));
    let result = runtime
        .call_tool(McpToolInvocation {
            server: "local".to_string(),
            tool: "echo".to_string(),
            arguments_json: Some("{\"x\":1}".to_string()),
        })
        .unwrap();
    assert_eq!(result.content, "MCP tool echo on local completed");
    assert_eq!(
        runtime.events().unwrap(),
        vec![
            McpLifecycleEvent::ToolStarted {
                call_id: None,
                server: "local".to_string(),
                tool: "echo".to_string()
            },
            McpLifecycleEvent::ApprovalRequested {
                server: "local".to_string(),
                tool: "echo".to_string(),
                question: "Allow local to run MCP tool echo?".to_string()
            },
            McpLifecycleEvent::ToolCompleted {
                call_id: None,
                server: "local".to_string(),
                tool: "echo".to_string(),
                status: McpToolCallStatus::Completed
            }
        ]
    );
}

#[test]
fn registering_servers_keeps_them_in_name_order() {
    let mut snapshot = McpRuntimeSnapshot::default();
    snapshot.register_tool(echo_tool("zeta", false));
    snapshot.register_tool(echo_tool("alpha", false));
    snapshot.register_tool(echo_tool("alpha", true));
    let names: Vec<&str> = snapshot.servers.iter().map(|(n, _)| n.as_str()).collect();
    assert_eq!(names, vec!["alpha", "zeta"]);
    assert_eq!(snapshot.servers[0].1.tools.len(), 2);
}

fn listed(runtime: &mut dyn McpRuntime) -> usize {
    runtime.list_tools("local").map(|t| t.len()).unwrap_or(0)
}

#[test]
fn runtimes_share_one_interface() {
    let mut memory = InMemoryMcpRuntime::new(local_snapshot(false));
    assert_eq!(listed(&mut memory), 1);
}
