use yunxi_agent::agent::{AgentEvent, AgentRunResult, AgentRunStatus, CommandStatus, TokenUsage};
use yunxi_agent::cli::commands::{
    help_text, is_approval_answer, parse_interactive_command, session_id_from_result,
    InteractiveCommand,
};
use yunxi_agent::cli::render::{
    banner_lines, render_event_lines, render_result_lines, InteractiveBanner, RenderState,
};
use yunxi_agent::cli::terminal_mode::{ResolvedTerminalMode, TerminalModeRequest};
use yunxi_agent::cli::tui::{label_color, LabelColor, TuiApp, MAX_EVENT_LINES};
use yunxi_agent::cli::web::{
    normalize_prompt, status_response, summarize_events, ProviderSelection, DEFAULT_WEB_PORT,
};
use yunxi_agent::agent::{AgentConfig, BackendKind};

#[test]
fn auto_terminal_uses_tui() {
    assert_eq!(
        TerminalModeRequest {
            tui: false,
            no_tui: false,
            stdin_is_terminal: true,
            stdout_is_terminal: true,
        }
        .resolve(),
        ResolvedTerminalMode::Tui
    );
}

#[test]
fn piped_stdin_uses_plain() {
    assert_eq!(
        TerminalModeRequest {
            tui: false,
            no_tui: false,
            stdin_is_terminal: false,
            stdout_is_terminal: true,
        }
        .resolve(),
        ResolvedTerminalMode::Plain
    );
}

#[test]
fn no_tui_forces_plain() {
    assert_eq!(
        TerminalModeRequest {
            tui: false,
            no_tui: true,
            stdin_is_terminal: true,
            stdout_is_terminal: true,
        }
        .resolve(),
        ResolvedTerminalMode::Plain
    );
}

#[test]
fn forced_tui_without_terminal_falls_back_to_plain() {
    assert_eq!(
        TerminalModeRequest {
            tui: true,
            no_tui: false,
            stdin_is_terminal: true,
            stdout_is_terminal: false,
        }
        .resolve(),
        ResolvedTerminalMode::Plain
    );
}

fn banner() -> InteractiveBanner {
    InteractiveBanner {
        cwd: "D:/YunXi Agent".to_string(),
        backend: "yunxi".to_string(),
        provider_live: true,
        provider_source: "auto_live".to_string(),
        provider: "deepseek".to_string(),
        model: "deepseek-chat".to_string(),
    }
}

#[test]
fn app_maps_events_to_compact_lines() {
    let mut app = TuiApp::from_banner(&banner());

    app.push_event(&AgentEvent::Reasoning {
        content: "Provider turn started".to_string(),
    });
    app.push_event(&AgentEvent::Message {
        content: "hello".to_string(),
    });

    assert!(app.header().contains("YunXi Agent v1.7.0"));
    assert_eq!(app.events[0].label, "reasoning");
    assert_eq!(app.events[1].label, "assistant");
}

#[test]
fn tui_header_and_subheader_name_the_session() {
    let app = TuiApp::from_banner(&banner());
    assert_eq!(
        app.header(),
        "YunXi Agent v1.7.0 | D:/YunXi Agent | provider=deepseek mode=live model=deepseek-chat"
    );
    assert_eq!(app.subheader(), "backend=yunxi source=auto_live");
}

#[test]
fn tui_keeps_only_the_latest_lines() {
    let mut app = TuiApp::from_banner(&banner());
    for i in 0..(MAX_EVENT_LINES + 5) {
        app.push_line("n".to_string(), i.to_string());
    }
    assert_eq!(app.events.len(), MAX_EVENT_LINES);
    assert_eq!(app.events[0].message, "5");
    assert_eq!(
        app.events[MAX_EVENT_LINES - 1].message,
        (MAX_EVENT_LINES + 4).to_string()
    );
}

#[test]
fn tui_completion_shows_status_and_usage() {
    let mut app = TuiApp::from_banner(&banner());
    app.push_event(&AgentEvent::Completed {
        status: AgentRunStatus::Completed,
        usage: Some(TokenUsage {
            input_tokens: 10,
            cached_input_tokens: 2,
            output_tokens: 5,
            reasoning_output_tokens: 0,
        }),
    });
    assert_eq!(app.events[0].label, "turn");
    assert_eq!(app.events[0].message, "completed");
    assert_eq!(app.events[1].label, "usage");
    assert_eq!(
        app.events[1].message,
        "input=10 cached_input=2 output=5 reasoning_output=0"
    );
}

#[test]
fn tui_command_completion_shows_exit_code() {
    let mut app = TuiApp::from_banner(&banner());
    app.push_event(&AgentEvent::CommandCompleted {
        id: None,
        command: "ls".to_string(),
        aggregated_output: String::new(),
        exit_code: Some(-1),
        status: CommandStatus::Failed,
    });
    assert_eq!(app.events[0].message, "ls -> failed (-1)");
    app.push_event(&AgentEvent::CommandUpdated {
        id: None,
        command: "ls".to_string(),
        aggregated_output: "   ".to_string(),
    });
    assert_eq!(app.events.len(), 1);
}

#[test]
fn prompt_normalization_rejects_blank_input() {
    assert_eq!(normalize_prompt("  hello  ".to_string()).unwrap(), "hello");
    assert!(normalize_prompt("  \n\t  ".to_string()).is_err());
}

#[test]
fn web_port_is_local_default() {
    assert_eq!(DEFAULT_WEB_PORT, 17861);
}

#[test]
fn run_insights_count_event_families() {
    let insights = summarize_events(&[
        AgentEvent::ApprovalRequested {
            id: Some("approval-1".to_string()),
            tool_name: "shell".to_string(),
            reason: "test".to_string(),
        },
        AgentEvent::CommandCompleted {
            id: Some("cmd-1".to_string()),
            command: "echo ok".to_string(),
            aggregated_output: "ok".to_string(),
            exit_code: Some(0),
            status: CommandStatus::Completed,
        },
        AgentEvent::Error {
            message: "boom".to_string(),
        },
    ]);
    assert_eq!(insights.approvals, 1);
    assert_eq!(insights.commands, 1);
    assert_eq!(insights.errors, 1);
    assert_eq!(insights.tool_calls, 0);
}

#[test]
fn slash_commands_parse_with_arguments() {
    assert_eq!(parse_interactive_command("hello"), None);
    assert_eq!(
        parse_interactive_command("  /quit "),
        Some(InteractiveCommand::Exit)
    );
    assert_eq!(
        parse_interactive_command("/model   gpt-5  "),
        Some(InteractiveCommand::Model(Some("gpt-5".to_string())))
    );
    assert_eq!(
        parse_interactive_command("/provider"),
        Some(InteractiveCommand::Provider(None))
    );
    assert_eq!(
        parse_interactive_command("/resume"),
        Some(InteractiveCommand::Unknown(
            "/resume requires a session id".to_string()
        ))
    );
    assert_eq!(
        parse_interactive_command("/resume s-1"),
        Some(InteractiveCommand::Resume("s-1".to_string()))
    );
    assert_eq!(
        parse_interactive_command("/dance now"),
        Some(InteractiveCommand::Unknown("unknown command: /dance".to_string()))
    );
    assert!(help_text().starts_with("Commands:\n/help"));
}

#[test]
fn approval_answers_accept_yes_words_only() {
    assert!(is_approval_answer(" YES\n"));
    assert!(is_approval_answer("approve"));
    assert!(!is_approval_answer("no"));
    assert!(!is_approval_answer(""));
}

#[test]
fn session_id_comes_from_the_latest_report() {
    let result = AgentRunResult {
        status: AgentRunStatus::Completed,
        final_response: None,
        events: vec![
            AgentEvent::StorageState {
                session_id: Some("old".to_string()),
                parent_session_id: None,
                rollout_items: 1,
                rollout_truncated: false,
                child_session_ids: vec![],
            },
            AgentEvent::StorageState {
                session_id: Some("new".to_string()),
                parent_session_id: None,
                rollout_items: 2,
                rollout_truncated: false,
                child_session_ids: vec![],
            },
            AgentEvent::TurnStarted,
        ],
    };
    assert_eq!(session_id_from_result(&result), Some("new".to_string()));
}

#[test]
fn plain_rendering_skips_repeated_output() {
    let mut state = RenderState::with_offline_label(true);
    let first = render_event_lines(
        &AgentEvent::Message {
            content: "hi".to_string(),
        },
        &mut state,
    );
    assert_eq!(first, vec!["[offline] hi".to_string()]);
    let again = render_event_lines(
        &AgentEvent::Message {
            content: "hi".to_string(),
        },
        &mut state,
    );
    assert!(again.is_empty());
    assert!(state.saw_assistant_message());
}

#[test]
fn plain_run_prints_final_response_without_messages() {
    let result = AgentRunResult {
        status: AgentRunStatus::Completed,
        final_response: Some("done".to_string()),
        events: vec![AgentEvent::Reasoning {
            content: "think".to_string(),
        }],
    };
    assert_eq!(
        render_result_lines(&result),
        vec!["[reasoning] think".to_string(), "done".to_string()]
    );
}

#[test]
fn banner_mentions_offline_runtime() {
    let mut b = banner();
    b.provider_live = false;
    let lines = banner_lines(&b);
    assert_eq!(lines[0], "YunXi Agent v1.7.3 interactive CLI");
    assert_eq!(lines[3], "provider_mode: offline");
    assert!(lines
        .iter()
        .any(|line| line.starts_with("offline_runtime:")));
    assert_eq!(lines.last().unwrap(), "Type /help for commands, /exit to quit.");
}

#[test]
fn status_response_uses_runtime_selection() {
    let config = AgentConfig::new("D:\\workspace");
    let selection = ProviderSelection {
        live: false,
        source: "forced_offline".to_string(),
        provider: "offline".to_string(),
        model: "static".to_string(),
    };

    let response = status_response(&config, BackendKind::Yunxi, &selection, "Auto", "2.0.4");

    assert_eq!(response.status, "ok");
    assert_eq!(response.backend, "yunxi");
    assert_eq!(response.provider, "offline");
    assert!(!response.provider_live);
    assert!(response.capabilities.iter().any(|item| item.id == "chat"));
    assert_eq!(response.capabilities[0].detail, "offline/static");
    assert_eq!(response.capabilities[1].state, "OnRequest");
    assert_eq!(response.capabilities[1].detail, "WorkspaceWrite");
}

#[test]
fn log_labels_have_fixed_colours() {
    assert_eq!(label_color("assistant"), LabelColor::Green);
    assert_eq!(label_color("provider"), LabelColor::Red);
    assert_eq!(label_color("mcp"), LabelColor::Magenta);
    assert_eq!(label_color("other"), LabelColor::White);
}
