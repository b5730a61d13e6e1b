use yunxi_agent::agent::{AgentError, BackendKind};
use yunxi_agent::cli::errors::{
    build_resume_prompt, classify_cli_error, dynamic_tool_call, ensure_protocol_turn_started,
    friendly_clap_error, memory_kind_label, memory_sensitivity_label, memory_status_label,
    preview, reject_detached_codex_backend, runtime_fixtures_enabled, CliExitCode,
};
use yunxi_agent::persona::memory::{MemoryKind, MemorySensitivity, MemoryStatus};
use yunxi_agent::protocol::{RuntimeEvent, ThreadId, ToolCall, TurnId};

#[test]
fn exit_codes_are_stable() {
    assert_eq!(CliExitCode::Success.code(), 0);
    assert_eq!(CliExitCode::InvalidInput.code(), 2);
    assert_eq!(CliExitCode::ProviderError.code(), 10);
    assert_eq!(CliExitCode::ToolError.code(), 20);
    assert_eq!(CliExitCode::Cancelled.code(), 130);
    assert_eq!(CliExitCode::InternalError.code(), 70);
}

#[test]
fn agent_errors_classify_by_kind() {
    let provider = AgentError::Provider {
        provider: "p".to_string(),
        status: Some(500),
        classification: "server".to_string(),
        message: "usage: invalid".to_string(),
    };
    assert_eq!(classify_cli_error(Some(&provider), "anything"), CliExitCode::ProviderError);
    assert_eq!(
        classify_cli_error(Some(&AgentError::EmptyPrompt), ""),
        CliExitCode::InvalidInput
    );
    let cancelled = AgentError::Execution {
        message: "Run CANCELLED by user".to_string(),
    };
    assert_eq!(classify_cli_error(Some(&cancelled), ""), CliExitCode::Cancelled);
    let other = AgentError::Execution {
        message: "disk full".to_string(),
    };
    assert_eq!(classify_cli_error(Some(&other), "tool"), CliExitCode::InternalError);
}

#[test]
fn error_text_classifies_by_words_in_order() {
    assert_eq!(
        classify_cli_error(None, "Usage: yunxi [OPTIONS]"),
        CliExitCode::InvalidInput
    );
    assert_eq!(
        classify_cli_error(None, "request canceled"),
        CliExitCode::Cancelled
    );
    assert_eq!(
        classify_cli_error(None, "missing API key for tool"),
        CliExitCode::ProviderError
    );
    assert_eq!(
        classify_cli_error(None, "sandbox refused the command"),
        CliExitCode::ToolError
    );
    assert_eq!(classify_cli_error(None, "boom"), CliExitCode::InternalError);
}

#[test]
fn clap_errors_about_subcommands_get_prompt_hints() {
    let plain = friendly_clap_error("error: unexpected argument");
    assert_eq!(plain, "error: unexpected argument");
    let sessions = friendly_clap_error("Usage: yunxi sessions <COMMAND>");
    assert!(sessions.ends_with("run `yunxi -- sessions` or `yunxi run sessions`."));
    let both = friendly_clap_error("sessions [OPTIONS] and parity [OPTIONS]");
    assert!(both.contains("`sessions` as a prompt"));
    assert!(both.ends_with("run `yunxi -- parity` or `yunxi run parity`."));
}

#[test]
fn codex_backend_is_rejected() {
    assert!(reject_detached_codex_backend(BackendKind::Codex).is_err());
    assert!(reject_detached_codex_backend(BackendKind::Yunxi).is_ok());
    assert!(reject_detached_codex_backend(BackendKind::DryRun).is_ok());
}

#[test]
fn runtime_fixture_switch_accepts_truthy_words() {
    assert!(runtime_fixtures_enabled(Some(" TRUE ")));
    assert!(runtime_fixtures_enabled(Some("explicit")));
    assert!(!runtime_fixtures_enabled(Some("0")));
    assert!(!runtime_fixtures_enabled(None));
}

#[test]
fn previews_and_resume_prompts() {
    assert_eq!(preview("short"), "short");
    let long = "x".repeat(81);
    let shown = preview(&long);
    assert_eq!(shown.chars().count(), 80);
    assert!(shown.ends_with("..."));
    assert_eq!(build_resume_prompt("   "), "Continue from the previous session.");
    assert_eq!(build_resume_prompt("  go on "), "go on");
}

#[test]
fn memory_labels() {
    assert_eq!(memory_kind_label(MemoryKind::ToolTraceSummary), "tool_trace_summary");
    assert_eq!(memory_sensitivity_label(MemorySensitivity::Medium), "medium");
    assert_eq!(memory_status_label(MemoryStatus::Archived), "archived");
}

#[test]
fn dynamic_tools_read_their_arguments() {
    assert_eq!(
        dynamic_tool_call(
            Some("1".to_string()),
            "skill",
            Some("{\"name\":\"lint\"}".to_string())
        ),
        ToolCall::Skill {
            id: Some("1".to_string()),
            name: "lint".to_string(),
            arguments_json: Some("{\"name\":\"lint\"}".to_string())
        }
    );
    assert_eq!(
        dynamic_tool_call(None, "multi_agent", Some("not json".to_string())),
        ToolCall::MultiAgent {
            id: None,
            action: "unknown".to_string(),
            arguments_json: Some("not json".to_string())
        }
    );
    assert_eq!(
        dynamic_tool_call(None, "tool_search", None),
        ToolCall::ToolSearch {
            id: None,
            query: String::new()
        }
    );
    assert_eq!(
        dynamic_tool_call(None, "dance", None),
        ToolCall::MultiAgent {
            id: None,
            action: "dance".to_string(),
            arguments_json: None
        }
    );
}

#[test]
fn protocol_stream_opens_once() {
    let mut output = Vec::new();
    let thread = ThreadId("t".to_string());
    let turn = TurnId("u".to_string());
    let mut thread_done = false;
    let mut turn_done = false;
    ensure_protocol_turn_started(&mut output, &thread, &turn, &mut thread_done, &mut turn_done);
    ensure_protocol_turn_started(&mut output, &thread, &turn, &mut thread_done, &mut turn_done);
    assert_eq!(
        output,
        vec![
            RuntimeEvent::ThreadStarted {
                thread_id: thread.clone()
            },
            RuntimeEvent::TurnStarted {
                thread_id: thread,
                turn_id: turn
            }
        ]
    );
}
