use yunxi_agent::agent::{AgentConfig, AgentError, AgentEvent, AgentInput, AgentRunStatus};
use yunxi_agent::provider::{
    AgentProvider, ProviderMessage, ProviderRequest, ProviderResponse, ProviderRole,
    ProviderToolCall, StaticProvider,
};
use yunxi_agent::runtime::AgentTurn;
use yunxi_agent::tools::{ToolRequest, ToolResponse, ToolStatus};
use yunxi_agent::turn::{turn_step, TurnStep};
use yunxi_agent::turn::{
    build_initial_messages, run_turn, RestoredHistory, ToolDispatch, ToolRouting, ToolRuntime,
    YunXiRuntimeBackend,
};

struct PassThrough;

impl ToolRouting for PassThrough {
    fn route(&self, request: ToolRequest) -> Result<ToolDispatch, AgentError> {
        Ok(ToolDispatch {
            trace: "routed to the default runtime".to_string(),
            request,
        })
    }
}

struct Echo;

impl ToolRuntime for Echo {
    fn execute(&self, request: ToolRequest) -> Result<ToolResponse, AgentError> {
        Ok(ToolResponse {
            id: request.id,
            status: ToolStatus::Completed,
            output: Some("child done".to_string()),
            error: None,
            exit_code: None,
            changed_files: Vec::new(),
        })
    }
}

struct AlwaysShell;

impl AgentProvider for AlwaysShell {
    fn complete(&self, _request: &ProviderRequest) -> Result<ProviderResponse, AgentError> {
        Ok(ProviderResponse::tool_call(ProviderToolCall::Shell {
            id: Some("s".to_string()),
            command: "ls".to_string(),
        }))
    }
}

fn turn(prompt: &str) -> AgentTurn {
    AgentTurn::new(AgentConfig::new("/work"), AgentInput::text(prompt))
}

#[test]
fn static_runtime_answers_in_one_provider_turn() {
    let result = run_turn(
        &StaticProvider::default(),
        &PassThrough,
        &Echo,
        8,
        &turn("  explain this project "),
        "thread-1",
        "",
        None,
    )
    .expect("turn");
    assert_eq!(result.status, AgentRunStatus::Completed);
    assert_eq!(
        result.final_response.as_deref(),
        Some("YunXi autonomous runtime accepted prompt: explain this project")
    );
    assert_eq!(
        result.events[0],
        AgentEvent::ThreadStarted {
            thread_id: "thread-1".to_string()
        }
    );
    assert_eq!(result.events[1], AgentEvent::TurnStarted);
    assert_eq!(
        result.events[2],
        AgentEvent::Started {
            prompt: "explain this project".to_string()
        }
    );
    assert_eq!(result.events.len(), 7);
}

#[test]
fn blank_prompts_are_refused() {
    let result = run_turn(
        &StaticProvider::default(),
        &PassThrough,
        &Echo,
        8,
        &turn("   "),
        "t",
        "",
        None,
    );
    assert_eq!(result, Err(AgentError::EmptyPrompt));
}

#[test]
fn tool_results_return_to_the_provider() {
    let result = run_turn(
        &StaticProvider::default(),
        &PassThrough,
        &Echo,
        8,
        &turn("stage 4j child runtime fixture"),
        "t",
        "",
        None,
    )
    .expect("turn");
    assert_eq!(
        result.final_response.as_deref(),
        Some("Stage 4J child runtime fixture completed with child result: child done")
    );
    assert!(result.events.iter().any(|e| matches!(
        e,
        AgentEvent::ToolCallStarted { name, .. } if name == "multi_agent"
    )));
    assert!(result.events.iter().any(|e| matches!(
        e,
        AgentEvent::ToolCallCompleted { name, output, .. }
            if name == "multi_agent:spawn_run" && output == "child done"
    )));
}

#[test]
fn running_out_of_turns_is_an_error() {
    let runtime = YunXiRuntimeBackend::with_parts(AlwaysShell, PassThrough, Echo).with_max_turns(2);
    assert_eq!(
        runtime.run_turn(&turn("loop"), "t", "", None),
        Err(AgentError::Execution {
            message: "runtime did not produce a final response within 2 turns".to_string()
        })
    );
}

#[test]
fn initial_messages_put_instructions_history_then_prompt() {
    let restored = Some(RestoredHistory {
        messages: vec![
            ProviderMessage::user("earlier"),
            ProviderMessage::assistant("answer"),
        ],
        compacted: true,
    });
    let messages = build_initial_messages("Use tabs.", &restored, "now");
    let roles: Vec<ProviderRole> = messages.iter().map(|m| m.role).collect();
    assert_eq!(
        roles,
        vec![
            ProviderRole::System,
            ProviderRole::User,
            ProviderRole::Assistant,
            ProviderRole::User
        ]
    );
    assert_eq!(messages[3].content, "now");
    assert!(build_initial_messages("", &None, "p").len() == 1);

    let result = run_turn(
        &StaticProvider::default(),
        &PassThrough,
        &Echo,
        8,
        &turn("go"),
        "t",
        "Use tabs.",
        restored,
    )
    .expect("turn");
    assert_eq!(
        result.events[3],
        AgentEvent::Reasoning {
            content: "Restored 2 history message(s); compacted=true".to_string()
        }
    );
}

struct Silent;

impl AgentProvider for Silent {
    fn complete(&self, _request: &ProviderRequest) -> Result<ProviderResponse, AgentError> {
        Ok(ProviderResponse {
            message: None,
            tool_calls: Vec::new(),
            usage: None,
        })
    }
}

fn limit_error(result: Result<yunxi_agent::agent::AgentRunResult, AgentError>) -> String {
    match result {
        Err(AgentError::Execution { message }) => message,
        other => panic!("expected the turn-limit error, got {other:?}"),
    }
}

#[test]
fn zero_turns_fail_before_the_provider_is_asked() {
    let result = run_turn(&StaticProvider::default(), &PassThrough, &Echo, 0, &turn("hi"), "t", "", None);
    assert_eq!(limit_error(result), "runtime did not produce a final response within 0 turns");
}

#[test]
fn an_answer_without_message_or_calls_ends_without_response() {
    let result = run_turn(&Silent, &PassThrough, &Echo, 3, &turn("hi"), "t", "", None);
    assert_eq!(limit_error(result), "runtime did not produce a final response within 3 turns");
}

#[test]
fn turn_step_decides_by_tool_calls_then_message() {
    assert_eq!(
        turn_step(ProviderResponse::assistant("done")),
        TurnStep::Finish { response: "done".to_string() }
    );
    assert_eq!(
        turn_step(ProviderResponse { message: None, tool_calls: Vec::new(), usage: None }),
        TurnStep::NoResponse
    );
    let call = ProviderToolCall::Shell { id: Some("s".to_string()), command: "ls".to_string() };
    assert_eq!(
        turn_step(ProviderResponse::tool_call(call.clone())),
        TurnStep::RunTools { assistant: None, calls: vec![call] }
    );
}

/// Calls one shell tool, then answers with what the last tool message said.
struct ToolThenAnswer;

impl AgentProvider for ToolThenAnswer {
    fn complete(&self, request: &ProviderRequest) -> Result<ProviderResponse, AgentError> {
        match request.messages.last() {
            Some(last) if last.role == ProviderRole::Tool => {
                Ok(ProviderResponse::assistant(&format!("tool said: {}", last.content)))
            }
            _ => Ok(ProviderResponse {
                message: Some(ProviderMessage::assistant("running a tool")),
                tool_calls: vec![ProviderToolCall::Shell { id: Some("c1".to_string()), command: "ls".to_string() }],
                usage: None,
            }),
        }
    }
}

#[test]
fn tool_results_reach_the_next_provider_request() {
    let result = run_turn(&ToolThenAnswer, &PassThrough, &Echo, 4, &turn("list files"), "t", "", None)
        .expect("turn");
    assert_eq!(result.final_response.as_deref(), Some("tool said: child done"));
}
