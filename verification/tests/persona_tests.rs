use yunxi_agent::persona::memory::{MemoryKind, MemoryRecord, MemoryScope, MemorySensitivity, MemoryStatus};
use yunxi_agent::persona::policy::{
    MemoryPrivacyClassifier, MemoryWritePolicy, MemoryWritePolicyEngine,
};

#[test]
fn privacy_classifier_treats_tokens_as_high_sensitivity() {
    let classifier = MemoryPrivacyClassifier;

    assert_eq!(
        classifier.classify("Authorization: Bearer <redacted>"),
        MemorySensitivity::High
    );
    assert!(classifier.contains_secret("github_pat_ marker"));
}

#[test]
fn write_policy_auto_saves_low_risk_preferences_but_not_secrets() {
    let engine = MemoryWritePolicyEngine::new();

    assert_eq!(
        engine.policy_for(
            MemoryKind::Preference,
            MemorySensitivity::Low,
            "用户偏好中文回答",
            true,
        ),
        MemoryWritePolicy::Auto
    );
    assert_eq!(
        engine.policy_for(
            MemoryKind::Preference,
            MemorySensitivity::High,
            "api key <redacted>",
            true,
        ),
        MemoryWritePolicy::Discard
    );
    assert_eq!(
        engine.policy_for(
            MemoryKind::Preference,
            MemorySensitivity::Low,
            "用户偏好中文回答",
            false,
        ),
        MemoryWritePolicy::Disabled
    );
}

#[test]
fn a_new_memory_record_is_pending_with_default_scores() {
    let record = MemoryRecord::new("m1", MemoryScope::GlobalUser, MemoryKind::Preference, "中文", 7)
        .with_source_session_id("s1")
        .with_scores(1500, 200)
        .with_sensitivity(MemorySensitivity::High);
    assert_eq!(record.id, "m1");
    assert_eq!(record.content, "中文");
    assert_eq!(record.status, MemoryStatus::Pending);
    assert_eq!(record.source_session_id.as_deref(), Some("s1"));
    assert_eq!(record.confidence_permille, 1000);
    assert_eq!(record.importance_permille, 200);
    assert_eq!(record.sensitivity, MemorySensitivity::High);
    assert_eq!(record.created_at_millis, 7);
    assert_eq!(record.updated_at_millis, 7);
    let plain = MemoryRecord::new("m2", MemoryScope::Relationship, MemoryKind::Goal, "x", 1);
    assert_eq!(plain.confidence_permille, 750);
    assert_eq!(plain.importance_permille, 500);
    assert_eq!(plain.sensitivity, MemorySensitivity::Low);
}
