use yunxi_agent::exec::{
    canonicalize_shell_command, combine_output, shell_argv, truncate_output, ExecCommand,
    ExecOutput, ExecSummary, OutputLimits, DEFAULT_EXEC_COMMAND_TIMEOUT_MILLIS,
};
use yunxi_agent::sandbox::{
    ApprovalRequirement, ExecutionPolicy, NetworkPolicy, SandboxRequirement,
};

fn full_access() -> ExecutionPolicy {
    ExecutionPolicy {
        approval: ApprovalRequirement::PreApproved,
        sandbox: SandboxRequirement::DangerFullAccess,
        network: NetworkPolicy::Inherit,
        workspace_root: ".".to_string(),
    }
}

#[test]
fn canonicalizes_shell_spacing() {
    assert_eq!(canonicalize_shell_command(" echo   yunxi  "), "echo yunxi");
}

#[test]
fn shell_command_carries_argv_timeout_and_policy() {
    let command = ExecCommand::shell(".", "echo yunxi", full_access());

    assert_eq!(command.canonical_command(), "echo yunxi");
    assert_eq!(
        command.timeout_millis,
        Some(DEFAULT_EXEC_COMMAND_TIMEOUT_MILLIS)
    );
    assert!(command.argv.iter().any(|part| part.contains("echo yunxi")));
}

#[test]
fn exec_summary_aggregates_output() {
    let command = ExecCommand::shell(".", "echo yunxi", full_access());
    let summary = ExecSummary::from_output(
        &command,
        ExecOutput {
            stdout: "out".to_string(),
            stderr: "err".to_string(),
            exit_code: Some(0),
        },
        false,
    );

    assert_eq!(summary.aggregated_output, "out\nerr");
    assert_eq!(summary.exit_code, Some(0));
}

#[test]
fn combine_output_skips_empty_streams() {
    assert_eq!(combine_output("out", ""), "out");
    assert_eq!(combine_output("", "err"), "err");
    assert_eq!(combine_output("", ""), "");
}

#[test]
fn shell_argv_uses_the_platform_shell() {
    assert_eq!(
        shell_argv("echo hi", false),
        vec!["sh".to_string(), "-c".to_string(), "echo hi".to_string()]
    );
    assert_eq!(shell_argv("echo hi", true)[2], "echo hi");
}

#[test]
fn truncate_output_keeps_whole_characters_within_the_limit() {
    let limits = OutputLimits { max_bytes: 4 };
    assert_eq!(truncate_output("abcdef", limits), "abcd\n[output truncated]");
    assert_eq!(truncate_output("ab", limits), "ab");
    assert_eq!(truncate_output("日本語", limits), "日\n[output truncated]");
    assert_eq!(OutputLimits::default().max_bytes, 20_000);
}
