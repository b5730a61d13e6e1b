use yunxi_agent::agent::{
    Agent, AgentBackend, AgentConfig, AgentError, AgentEvent, AgentInput, AgentRunStatus,
    ApprovalMode, DryRunBackend, SandboxMode,
};
use yunxi_agent::codex::CodexNativeBackend;

#[test]
fn default_config_uses_workspace_write_and_on_request() {
    let config = AgentConfig::new("D:/work/project");

    assert_eq!(config.cwd, "D:/work/project".to_string());
    assert_eq!(config.approval_mode, ApprovalMode::OnRequest);
    assert_eq!(config.sandbox_mode, SandboxMode::WorkspaceWrite);
    assert_eq!(config.model, None);
    assert_eq!(config.provider, None);
    assert_eq!(config.codex_home, None);
    assert_eq!(config.parent_session_id, None);
    assert_eq!(config.session_title, None);
    assert_eq!(config.context_window_tokens, None);
    assert_eq!(config.auto_compact_threshold_tokens, None);
}

#[test]
fn builder_methods_set_optional_values() {
    let config = AgentConfig::new("D:/work/project")
        .with_model("gpt-5")
        .with_provider("openai")
        .with_codex_home("D:/codex-home")
        .with_approval_mode(ApprovalMode::Never)
        .with_sandbox_mode(SandboxMode::ReadOnly)
        .with_parent_session_id("parent-1")
        .with_session_title("Resume parent-1")
        .with_context_window_tokens(120_000)
        .with_auto_compact_threshold_tokens(96_000);

    assert_eq!(config.model.as_deref(), Some("gpt-5"));
    assert_eq!(config.provider.as_deref(), Some("openai"));
    assert_eq!(config.codex_home, Some("D:/codex-home".to_string()));
    assert_eq!(config.approval_mode, ApprovalMode::Never);
    assert_eq!(config.sandbox_mode, SandboxMode::ReadOnly);
    assert_eq!(config.parent_session_id.as_deref(), Some("parent-1"));
    assert_eq!(config.session_title.as_deref(), Some("Resume parent-1"));
    assert_eq!(config.context_window_tokens, Some(120_000));
    assert_eq!(config.auto_compact_threshold_tokens, Some(96_000));
}

#[test]
fn dry_run_echoes_the_trimmed_prompt() {
    let agent = Agent::new(AgentConfig::new("."));
    let result = agent.run_dry(AgentInput::text("  hello  ")).expect("dry run");
    assert_eq!(result.status, AgentRunStatus::Completed);
    assert_eq!(
        result.final_response.as_deref(),
        Some("Dry run accepted prompt: hello")
    );
    assert_eq!(result.events.len(), 3);
    assert_eq!(
        result.events[0],
        AgentEvent::Started {
            prompt: "hello".to_string()
        }
    );
}

#[test]
fn dry_run_refuses_a_blank_prompt() {
    let agent = Agent::new(AgentConfig::new("."));
    assert_eq!(
        agent.run_dry(AgentInput::text(" \n\t ")),
        Err(AgentError::EmptyPrompt)
    );
}

#[test]
fn dry_run_backend_matches_the_agent() {
    let backend = DryRunBackend;
    let result = backend
        .run(AgentConfig::new("."), AgentInput::text("ping"))
        .expect("dry run backend");
    assert_eq!(
        result.final_response.as_deref(),
        Some("Dry run accepted prompt: ping")
    );
}

#[test]
fn codex_backend_reports_native_runtime_missing() {
    let backend = CodexNativeBackend::new();
    assert_eq!(
        backend.run(AgentConfig::new("."), AgentInput::text("  ")),
        Err(AgentError::EmptyPrompt)
    );
    assert_eq!(
        backend.run(AgentConfig::new("."), AgentInput::text("hi")),
        Err(AgentError::Execution {
            message: "codex-native feature is not enabled".to_string()
        })
    );
}
