use yunxi_agent::agent::CompanionSettings;
use yunxi_agent::companion::{
    quiet_hours, CompanionAction, CompanionContext, CompanionInput, CompanionMemorySummary,
    CompanionPlanner, CompanionPolicy, CompanionTone, CompanionTrigger,
    DeterministicCompanionPolicy, SafeCompanionPlanner,
};

fn enabled() -> SafeCompanionPlanner {
    SafeCompanionPlanner::new(CompanionSettings {
        enabled: true,
        ..CompanionSettings::default()
    })
}

#[test]
fn default_settings_do_not_plan() {
    assert!(SafeCompanionPlanner::new(CompanionSettings::default())
        .plan(CompanionInput {
            reminder_due: true,
            ..CompanionInput::default()
        })
        .is_empty());
}

#[test]
fn plans_reminder_with_reason() {
    let plans = enabled().plan(CompanionInput {
        reminder_due: true,
        ..CompanionInput::default()
    });
    assert_eq!(plans[0].trigger, CompanionTrigger::ReminderDue);
    assert!(!plans[0].reason.is_empty());
}

#[test]
fn quiet_hours_suppress_all_plans() {
    let planner = SafeCompanionPlanner::new(CompanionSettings {
        enabled: true,
        quiet_hours: quiet_hours(22 * 60, 7 * 60),
        ..CompanionSettings::default()
    });
    assert!(planner
        .plan(CompanionInput {
            now_minute_of_day: 23 * 60,
            reminder_due: true,
            ..CompanionInput::default()
        })
        .is_empty());
}

#[test]
fn frequency_limits_apply_per_session_and_day() {
    let planner = enabled();
    assert!(planner
        .plan(CompanionInput {
            proactive_in_session: 3,
            reminder_due: true,
            ..CompanionInput::default()
        })
        .is_empty());
    assert!(planner
        .plan(CompanionInput {
            proactive_today: 8,
            reminder_due: true,
            ..CompanionInput::default()
        })
        .is_empty());
}

#[test]
fn tool_action_requires_confirmation_and_never_executes() {
    let planner = SafeCompanionPlanner::new(CompanionSettings {
        enabled: true,
        allow_tool_requests: true,
        ..CompanionSettings::default()
    });
    let plans = planner.plan(CompanionInput {
        tool_request: Some("open notes".to_string()),
        ..CompanionInput::default()
    });
    assert_eq!(plans[0].action, CompanionAction::AskPermissionForTool);
    assert!(plans[0].requires_user_confirmation);
}

#[test]
fn relationship_signal_is_redacted_to_bounded_reason() {
    let plans = enabled().plan(CompanionInput {
        relationship_milestone: Some("a".repeat(200)),
        ..CompanionInput::default()
    });
    assert!(plans[0].reason.contains("milestone"));
    assert!(plans[0].message.chars().count() < 120);
}

#[test]
fn prompt_parser_extracts_shared_companion_signals() {
    let input = CompanionInput::from_prompt(
        "companion check: 未完成任务：整理陪伴层",
        Some("relationship changed".to_string()),
    );
    assert_eq!(input.unfinished_task.as_deref(), Some("整理陪伴层"));
    assert_eq!(
        input.relationship_milestone.as_deref(),
        Some("relationship changed")
    );
    assert!(input.has_signal());
}

#[test]
fn prompt_parser_keeps_unrelated_prompts_inert() {
    let input = CompanionInput::from_prompt("你好，今天怎么样？", None);
    assert!(!input.has_signal());
    assert!(enabled().plan(input).is_empty());
}

#[test]
fn deterministic_policy_uses_context_without_model_calls() {
    let policy = DeterministicCompanionPolicy::new(CompanionSettings {
        enabled: true,
        ..CompanionSettings::default()
    });
    let decision = policy.decide(
        &CompanionContext {
            persona_id: Some("default".to_string()),
            display_name: Some("YunXi".to_string()),
            relationship_state: Some("steady".to_string()),
            memory_summary: CompanionMemorySummary {
                boot_summary: Some("用户偏好中文".to_string()),
                record_count: 1,
                stable_fact_count: 1,
                ..CompanionMemorySummary::default()
            },
            available: true,
            ..CompanionContext::default()
        },
        &CompanionInput {
            unfinished_task: Some("测试陪伴层".to_string()),
            ..CompanionInput::default()
        },
    );
    assert!(decision.proactive_care);
    assert!(decision.use_persona_context);
    assert!(decision.use_memory_context);
    assert_eq!(decision.tone, CompanionTone::Warm);
    assert!(decision.follow_up.is_some());
    assert!(!decision.fallback_to_existing_reply);
}

#[test]
fn missing_context_falls_back_without_proactive_follow_up() {
    let policy = DeterministicCompanionPolicy::new(CompanionSettings {
        enabled: true,
        ..CompanionSettings::default()
    });
    let decision = policy.decide(
        &CompanionContext::unavailable(),
        &CompanionInput {
            topic_continuation: Some("旧话题".to_string()),
            ..CompanionInput::default()
        },
    );
    assert!(decision.proactive_care);
    assert!(decision.fallback_to_existing_reply);
    assert!(decision.follow_up.is_none());
    assert!(!decision.use_memory_context);
    assert_eq!(decision.tone, CompanionTone::Neutral);
}

#[test]
fn emotional_clue_selects_supportive_tone() {
    let policy = DeterministicCompanionPolicy::new(CompanionSettings {
        enabled: true,
        ..CompanionSettings::default()
    });
    let decision = policy.decide(
        &CompanionContext {
            available: true,
            emotional_clues: vec!["用户最近有些焦虑".to_string()],
            ..CompanionContext::default()
        },
        &CompanionInput {
            reminder_due: true,
            ..CompanionInput::default()
        },
    );
    assert_eq!(decision.tone, CompanionTone::Supportive);
}

#[test]
fn quiet_hours_window_wraps_midnight() {
    let window = quiet_hours(22 * 60, 7 * 60).expect("valid window");
    assert!(window.contains(23 * 60));
    assert!(window.contains(6 * 60));
    assert!(!window.contains(12 * 60));
    assert!(quiet_hours(60, 60).is_none());
    assert!(quiet_hours(1440, 60).is_none());
}

#[test]
fn disabled_companion_never_plans_even_with_every_signal() {
    let planner = SafeCompanionPlanner::new(CompanionSettings::default());
    let plans = planner.plan(CompanionInput {
        reminder_due: true,
        periodic_summary_due: true,
        unfinished_task: Some("task".to_string()),
        topic_continuation: Some("topic".to_string()),
        relationship_milestone: Some("milestone".to_string()),
        tool_request: Some("tool".to_string()),
        ..CompanionInput::default()
    });
    assert!(plans.is_empty());
}

#[test]
fn tool_requests_stay_silent_unless_allowed() {
    let plans = enabled().plan(CompanionInput {
        tool_request: Some("open notes".to_string()),
        ..CompanionInput::default()
    });
    assert!(plans.is_empty());
}
