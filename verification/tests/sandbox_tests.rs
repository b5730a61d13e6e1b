use yunxi_agent::sandbox::{
    ApprovalRequirement, CommandRisk, ExecutionPolicy, NetworkPolicy, PolicyDecision,
    SandboxBackend, SandboxBackendSelection, SandboxRequirement,
};

#[test]
fn command_risk_detects_destructive_and_network_commands() {
    assert_eq!(
        CommandRisk::classify("rm -rf target"),
        CommandRisk::Destructive
    );
    assert_eq!(
        CommandRisk::classify("curl https://example.test"),
        CommandRisk::Network
    );
    assert_eq!(
        CommandRisk::classify("echo hi > file.txt"),
        CommandRisk::WritesWorkspace
    );
}

#[test]
fn danger_full_access_selects_bypass_backend() {
    let selection =
        SandboxBackendSelection::from_requirement(SandboxRequirement::DangerFullAccess);

    assert_eq!(selection.backend, SandboxBackend::DangerFullAccess);
}

#[test]
fn evaluation_creates_approval_request_when_prompt_is_required() {
    let policy = ExecutionPolicy {
        approval: ApprovalRequirement::AskBeforeRunning,
        sandbox: SandboxRequirement::WorkspaceWrite,
        network: NetworkPolicy::Inherit,
        workspace_root: ".".to_string(),
    };

    let evaluation = policy.evaluate(".", Some("echo yunxi"));

    assert!(matches!(
        evaluation.decision,
        PolicyDecision::Blocked { .. }
    ));
    assert_eq!(
        evaluation.approval_request.expect("approval").risk,
        CommandRisk::Low
    );
}

#[test]
fn the_command_plays_no_part_in_the_decision() {
    let policy = ExecutionPolicy {
        approval: ApprovalRequirement::PreApproved,
        sandbox: SandboxRequirement::WorkspaceWrite,
        network: NetworkPolicy::Inherit,
        workspace_root: "/ws".to_string(),
    };
    for within in [true, false] {
        let with_command = policy.evaluate_with("/ws/sub", Some("rm -rf target"), within).decision;
        let without = policy.evaluate_with("/ws/sub", None, within).decision;
        assert_eq!(with_command, without);
        assert_eq!(with_command, policy.sandbox_decision_with("/ws/sub", within));
    }
    assert_eq!(
        policy.sandbox_decision_with("/elsewhere", false),
        PolicyDecision::Blocked { reason: "cwd /elsewhere is outside workspace /ws".to_string() }
    );
}
