use yunxi_agent::cli::controls::{
    control_step, memory_clear_step, memory_review_step, memory_switch_step, ControlCommand,
    ControlOutcome, ControlRejection, ControlScope, ControlSwitches, ControlWork, MemoryReview,
};
use yunxi_agent::persona::memory::MemoryStatus;
use yunxi_agent::persona::settings::PersonaSettings;

fn switches() -> ControlSwitches {
    ControlSwitches { companion_enabled: false, memory_enabled: false, persona_enabled: true }
}

fn rejected(detail: &str, message: &str) -> Result<ControlOutcome, ControlRejection> {
    Err(ControlRejection { audit_detail: detail.to_string(), message: message.to_string() })
}

#[test]
fn enabling_a_scope_turns_only_its_switch() {
    assert_eq!(
        control_step(ControlCommand::Enable { scope: ControlScope::Memory }, switches()),
        Ok(ControlOutcome {
            work: ControlWork::PersistSwitches {
                switches: ControlSwitches { memory_enabled: true, ..switches() },
                scope: ControlScope::Memory,
            },
            audit_detail: Some("persisted enabled state".to_string()),
        })
    );
    assert_eq!(
        control_step(ControlCommand::Disable { scope: ControlScope::Persona }, switches()),
        Ok(ControlOutcome {
            work: ControlWork::PersistSwitches {
                switches: ControlSwitches { persona_enabled: false, ..switches() },
                scope: ControlScope::Persona,
            },
            audit_detail: Some("persisted disabled state".to_string()),
        })
    );
}

#[test]
fn relationship_controls_are_read_only() {
    for command in [
        ControlCommand::Enable { scope: ControlScope::Relationship },
        ControlCommand::Disable { scope: ControlScope::Relationship },
    ] {
        assert_eq!(
            control_step(command, switches()),
            rejected("relationship is a read-only derived view", "relationship controls are read-only")
        );
    }
}

#[test]
fn clearing_needs_confirmation_and_a_clearable_scope() {
    assert_eq!(
        control_step(ControlCommand::Clear { scope: ControlScope::Memory, confirm: false }, switches()),
        rejected(
            "explicit confirmation missing",
            "memory clear requires --confirm; scope impact must be acknowledged"
        )
    );
    assert_eq!(
        control_step(ControlCommand::Clear { scope: ControlScope::Persona, confirm: true }, switches()),
        rejected("scope is read-only and has no clear operation", "persona is read-only and cannot be cleared")
    );
    assert_eq!(
        control_step(ControlCommand::Clear { scope: ControlScope::Companion, confirm: true }, switches()),
        Ok(ControlOutcome { work: ControlWork::ClearCompanionHistory, audit_detail: None })
    );
    assert_eq!(
        control_step(ControlCommand::Clear { scope: ControlScope::Memory, confirm: true }, switches()),
        Ok(ControlOutcome { work: ControlWork::ClearWorkspaceMemory, audit_detail: None })
    );
}

#[test]
fn snapshots_and_audit_change_nothing() {
    assert_eq!(
        control_step(ControlCommand::Status, switches()),
        Ok(ControlOutcome {
            work: ControlWork::ShowSnapshot { scope: None },
            audit_detail: Some("unified control snapshot".to_string()),
        })
    );
    assert_eq!(
        control_step(ControlCommand::Show { scope: ControlScope::Companion }, switches()),
        Ok(ControlOutcome {
            work: ControlWork::ShowSnapshot { scope: Some(ControlScope::Companion) },
            audit_detail: Some("scope snapshot".to_string()),
        })
    );
    assert_eq!(
        control_step(ControlCommand::Audit, switches()),
        Ok(ControlOutcome { work: ControlWork::ShowAudit, audit_detail: None })
    );
}

#[test]
fn memory_commands_decide_status_confirmation_and_switch() {
    assert_eq!(
        memory_review_step(MemoryReview::Approve, "m1"),
        (MemoryStatus::Active, "approved memory id=m1".to_string())
    );
    assert_eq!(
        memory_review_step(MemoryReview::Delete, "m2"),
        (MemoryStatus::Archived, "archived memory id=m2".to_string())
    );
    assert!(memory_clear_step(true, true).is_ok());
    for (workspace, confirm) in [(false, true), (true, false), (false, false)] {
        assert_eq!(
            memory_clear_step(workspace, confirm),
            Err(ControlRejection {
                audit_detail: "memory clear requires workspace scope and confirmation".to_string(),
                message: "memory clear requires --workspace --confirm".to_string(),
            })
        );
    }
    let (on, notice, detail) = memory_switch_step(PersonaSettings::default(), true);
    assert!(on.memory_enabled && notice);
    assert_eq!(detail, "memory enabled");
    let (again, notice, _) = memory_switch_step(on, true);
    assert!(again.memory_enabled && !notice);
    let (off, notice, detail) = memory_switch_step(again, false);
    assert!(!off.memory_enabled && !notice);
    assert_eq!(detail, "memory disabled");
}
