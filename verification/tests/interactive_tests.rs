use yunxi_agent::agent::{AgentConfig, AgentEvent, AgentRunResult, AgentRunStatus};
use yunxi_agent::cli::interactive::InteractiveSession;

fn result_reporting(session: Option<&str>) -> AgentRunResult {
    AgentRunResult {
        status: AgentRunStatus::Completed,
        final_response: Some("done".to_string()),
        events: vec![AgentEvent::StorageState {
            session_id: session.map(|s| s.to_string()),
            parent_session_id: None,
            rollout_items: 1,
            rollout_truncated: false,
            child_session_ids: vec![],
        }],
    }
}

#[test]
fn first_turn_is_titled_as_a_new_session() {
    let session = InteractiveSession::new(AgentConfig::new("/work"));
    let config = session.turn_config();
    assert_eq!(config.session_title, Some("YunXi interactive session".to_string()));
    assert_eq!(config.parent_session_id, None);
    assert_eq!(config.cwd, "/work".to_string());
}

#[test]
fn later_turns_continue_the_reported_session() {
    let mut session = InteractiveSession::new(AgentConfig::new("/work"));
    session.update_session_state(&result_reporting(Some("sess-1")));
    assert_eq!(session.active_session_id, Some("sess-1".to_string()));
    assert_eq!(session.turn_count, 1);
    let config = session.turn_config();
    assert_eq!(config.parent_session_id, Some("sess-1".to_string()));
    assert_eq!(config.session_title, Some("Interactive turn 2".to_string()));
}

#[test]
fn a_turn_without_a_report_keeps_the_active_session() {
    let mut session = InteractiveSession::new(AgentConfig::new("/work"));
    session.update_session_state(&result_reporting(Some("sess-1")));
    session.update_session_state(&result_reporting(None));
    assert_eq!(session.active_session_id, Some("sess-1".to_string()));
    assert_eq!(session.turn_count, 2);
}

#[test]
fn turn_count_stops_at_its_largest_value() {
    let mut session = InteractiveSession::new(AgentConfig::new("/work"));
    session.turn_count = usize::MAX;
    session.update_session_state(&result_reporting(None));
    assert_eq!(session.turn_count, usize::MAX);
}

#[test]
fn model_and_provider_commands_switch_only_when_named() {
    let mut session = InteractiveSession::new(AgentConfig::new("/work"));
    session.set_model(Some("gpt-test".to_string()));
    session.set_model(None);
    session.set_provider(Some("openai".to_string()));
    session.set_provider(None);
    assert_eq!(session.config.model, Some("gpt-test".to_string()));
    assert_eq!(session.config.provider, Some("openai".to_string()));
}

#[test]
fn resume_fills_only_what_the_configuration_leaves_open() {
    let mut session = InteractiveSession::new(AgentConfig::new("/work"));
    session.set_model(Some("mine".to_string()));
    session.update_session_state(&result_reporting(Some("old")));
    session.resume(
        "saved".to_string(),
        Some("stored-model".to_string()),
        Some("stored-provider".to_string()),
    );
    assert_eq!(session.config.model, Some("mine".to_string()));
    assert_eq!(session.config.provider, Some("stored-provider".to_string()));
    assert_eq!(session.active_session_id, Some("saved".to_string()));
    assert_eq!(session.turn_count, 0);
}

#[test]
fn session_summary_names_session_turns_and_cwd() {
    let mut session = InteractiveSession::new(AgentConfig::new("/work"));
    assert_eq!(
        session.session_summary_lines(),
        vec!["session: new".to_string(), "turns: 0".to_string(), "cwd: /work".to_string()]
    );
    session.update_session_state(&result_reporting(Some("sess-9")));
    assert_eq!(
        session.session_summary_lines(),
        vec!["session: sess-9".to_string(), "turns: 1".to_string(), "cwd: /work".to_string()]
    );
}
