//! Execution policy: whether a command may run in a working directory, which
//! approval it needs, how risky it looks, and which sandbox backend and network
//! decision apply.
use vstd::prelude::*;
use crate::agent::{AgentConfig, ApprovalMode, SandboxMode};
use crate::text::{ascii_lower, ascii_lower_chars, concat, contains_any, contains_any_chars, opt_view, owned, seq_contains, str_views};

verus! {

#[derive(Clone, Copy, Debug, PartialEq, Eq, Structural)]
pub enum ApprovalRequirement {
    PreApproved,
    AskBeforeRunning,
    AskOnFailure,
    Declined,
}

impl ApprovalRequirement {
    pub open spec fn spec_approved_without_prompt(self) -> bool {
        self == ApprovalRequirement::PreApproved
    }

    pub fn is_approved_without_prompt(self) -> (r: bool)
        ensures
            r == self.spec_approved_without_prompt(),
    {
        match self {
            ApprovalRequirement::PreApproved => true,
            _ => false,
        }
    }
}

#[derive(Clone, Copy, Debug, PartialEq, Eq, Structural)]
pub enum CommandRisk {
    Low,
    WritesWorkspace,
    Network,
    Destructive,
}

pub open spec fn destructive_markers() -> Seq<Seq<char>> {
    seq!["rm -rf"@, "del /"@, "format "@, "remove-item"@, "rd /s"@]
}

pub open spec fn network_markers() -> Seq<Seq<char>> {
    seq!["curl "@, "wget "@, "invoke-webrequest"@, "irm "@]
}

pub open spec fn write_markers() -> Seq<Seq<char>> {
    seq![">"@, " copy "@, " cp "@, " mv "@, " move "@, "new-item"@, "set-content"@]
}

/// The risk class of a command line, judged on its ASCII-lowercased text:
/// destructive markers first, then network, then workspace writes.
pub open spec fn command_risk(command: Seq<char>) -> CommandRisk {
    let lower = ascii_lower(command);
    if contains_any(lower, destructive_markers()) {
        CommandRisk::Destructive
    } else if contains_any(lower, network_markers()) {
        CommandRisk::Network
    } else if contains_any(lower, write_markers()) {
        CommandRisk::WritesWorkspace
    } else {
        CommandRisk::Low
    }
}

impl CommandRisk {
    pub fn classify(command: &str) -> (r: CommandRisk)
        ensures
            r == command_risk(command@),
    {
        let lower = ascii_lower_chars(command);
        let destructive = ["rm -rf", "del /", "format ", "remove-item", "rd /s"];
        let network = ["curl ", "wget ", "invoke-webrequest", "irm "];
        let writes = [">", " copy ", " cp ", " mv ", " move ", "new-item", "set-content"];
        proof {
            reveal_strlit("rm -rf");
            reveal_strlit("del /");
            reveal_strlit("format ");
            reveal_strlit("remove-item");
            reveal_strlit("rd /s");
            reveal_strlit("curl ");
            reveal_strlit("wget ");
            reveal_strlit("invoke-webrequest");
            reveal_strlit("irm ");
            reveal_strlit(">");
            reveal_strlit(" copy ");
            reveal_strlit(" cp ");
            reveal_strlit(" mv ");
            reveal_strlit(" move ");
            reveal_strlit("new-item");
            reveal_strlit("set-content");
            assert(str_views(destructive@) =~= destructive_markers());
            assert(str_views(network@) =~= network_markers());
            assert(str_views(writes@) =~= write_markers());
        }
        if contains_any_chars(lower.as_slice(), &destructive) {
            CommandRisk::Destructive
        } else if contains_any_chars(lower.as_slice(), &network) {
            CommandRisk::Network
        } else if contains_any_chars(lower.as_slice(), &writes) {
            CommandRisk::WritesWorkspace
        } else {
            CommandRisk::Low
        }
    }
}

#[derive(Clone, Copy, Debug, PartialEq, Eq, Structural)]
pub enum SandboxRequirement {
    ReadOnly,
    WorkspaceWrite,
    DangerFullAccess,
}

#[derive(Clone, Copy, Debug, PartialEq, Eq, Structural)]
pub enum NetworkPolicy {
    Inherit,
    Disabled,
    Enabled,
}

#[derive(Clone, Debug, PartialEq, Eq)]
pub struct ExecutionPolicy {
    pub approval: ApprovalRequirement,
    pub sandbox: SandboxRequirement,
    pub network: NetworkPolicy,
    pub workspace_root: String,
}

#[derive(Clone, Debug, PartialEq, Eq)]
pub struct ApprovalRequest {
    pub reason: String,
    pub command: Option<String>,
    pub cwd: String,
    pub risk: CommandRisk,
}

#[derive(Clone, Debug, PartialEq, Eq)]
pub enum ApprovalResponse {
    Approved { justification: Option<String> },
    Denied { reason: String },
}

#[derive(Clone, Debug, PartialEq, Eq)]
pub enum PolicyDecision {
    Allowed,
    Blocked { reason: String },
}

#[derive(Clone, Copy, Debug, PartialEq, Eq, Structural)]
pub enum SandboxBackend {
    NoSandbox,
    WorkspaceGuard,
    WindowsRestrictedToken,
    LinuxLandlock,
    DangerFullAccess,
}

#[derive(Clone, Debug, PartialEq, Eq)]
pub struct SandboxBackendSelection {
    pub backend: SandboxBackend,
    pub reason: String,
}

#[derive(Clone, Copy, Debug, PartialEq, Eq, Structural)]
pub enum NetworkDecision {
    Inherited,
    Disabled,
    Enabled,
}

#[derive(Clone, Debug, PartialEq, Eq)]
pub struct PolicyEvaluation {
    pub decision: PolicyDecision,
    pub approval_request: Option<ApprovalRequest>,
    pub sandbox_backend: SandboxBackendSelection,
    pub network_decision: NetworkDecision,
}

pub open spec fn network_decision_for(policy: NetworkPolicy) -> NetworkDecision {
    match policy {
        NetworkPolicy::Inherit => NetworkDecision::Inherited,
        NetworkPolicy::Disabled => NetworkDecision::Disabled,
        NetworkPolicy::Enabled => NetworkDecision::Enabled,
    }
}

impl NetworkDecision {
    pub fn from_policy(policy: NetworkPolicy) -> (r: NetworkDecision)
        ensures
            r == network_decision_for(policy),
    {
        match policy {
            NetworkPolicy::Inherit => NetworkDecision::Inherited,
            NetworkPolicy::Disabled => NetworkDecision::Disabled,
            NetworkPolicy::Enabled => NetworkDecision::Enabled,
        }
    }
}

/// `std::path::MAIN_SEPARATOR`, the path separator of the host platform
/// (a backslash on Windows only); nothing more is stated of it.
#[verifier::external_body]
fn main_separator() -> (r: char) {
    std::path::MAIN_SEPARATOR
}

/// `Path::is_dir`: whether `path` names a directory on this host; the answer
/// depends on the file system, so nothing is stated of it.
#[verifier::external_body]
fn is_directory(path: &str) -> (r: bool) {
    std::path::Path::new(path).is_dir()
}

/// Whether this host is a Windows host (its path separator is a backslash).
pub fn is_windows_host() -> bool {
    main_separator() == '\\'
}

/// The sandbox backend for the host platform: Windows hosts use restricted
/// tokens, hosts with a Linux process file system use Landlock, others the
/// workspace guard.
fn platform_sandbox_backend() -> (r: SandboxBackend)
    ensures
        r == SandboxBackend::WindowsRestrictedToken || r == SandboxBackend::LinuxLandlock || r
            == SandboxBackend::WorkspaceGuard,
{
    if is_windows_host() {
        SandboxBackend::WindowsRestrictedToken
    } else if is_directory("/proc/self") {
        SandboxBackend::LinuxLandlock
    } else {
        SandboxBackend::WorkspaceGuard
    }
}

pub open spec fn requirement_label(requirement: SandboxRequirement) -> Seq<char> {
    match requirement {
        SandboxRequirement::ReadOnly => "ReadOnly"@,
        SandboxRequirement::WorkspaceWrite => "WorkspaceWrite"@,
        SandboxRequirement::DangerFullAccess => "DangerFullAccess"@,
    }
}

/// The selection for a requirement: full access bypasses wrapping; the other
/// requirements use the platform backend.
pub open spec fn selection_matches(s: SandboxBackendSelection, requirement: SandboxRequirement) -> bool {
    if requirement == SandboxRequirement::DangerFullAccess {
        s.backend == SandboxBackend::DangerFullAccess && s.reason@
            == "danger-full-access bypasses sandbox wrapping"@
    } else {
        (s.backend == SandboxBackend::WindowsRestrictedToken || s.backend
            == SandboxBackend::LinuxLandlock || s.backend == SandboxBackend::WorkspaceGuard)
            && s.reason@ == "selected for "@ + requirement_label(requirement)
    }
}

impl SandboxBackendSelection {
    pub fn from_requirement(requirement: SandboxRequirement) -> (r: SandboxBackendSelection)
        ensures
            selection_matches(r, requirement),
    {
        proof {
            reveal_strlit("selected for ");
            reveal_strlit("ReadOnly");
            reveal_strlit("WorkspaceWrite");
            reveal_strlit("selected for ReadOnly");
            reveal_strlit("selected for WorkspaceWrite");
            assert("selected for "@ + "ReadOnly"@ =~= "selected for ReadOnly"@);
            assert("selected for "@ + "WorkspaceWrite"@ =~= "selected for WorkspaceWrite"@);
        }
        match requirement {
            SandboxRequirement::ReadOnly => SandboxBackendSelection {
                backend: platform_sandbox_backend(),
                reason: owned("selected for ReadOnly"),
            },
            SandboxRequirement::WorkspaceWrite => SandboxBackendSelection {
                backend: platform_sandbox_backend(),
                reason: owned("selected for WorkspaceWrite"),
            },
            SandboxRequirement::DangerFullAccess => SandboxBackendSelection {
                backend: SandboxBackend::DangerFullAccess,
                reason: owned("danger-full-access bypasses sandbox wrapping"),
            },
        }
    }
}

pub open spec fn approval_for(mode: ApprovalMode) -> ApprovalRequirement {
    match mode {
        ApprovalMode::Never => ApprovalRequirement::PreApproved,
        ApprovalMode::OnRequest => ApprovalRequirement::AskBeforeRunning,
        ApprovalMode::OnFailure => ApprovalRequirement::AskOnFailure,
        ApprovalMode::Untrusted => ApprovalRequirement::AskBeforeRunning,
    }
}

pub open spec fn sandbox_for(mode: SandboxMode) -> SandboxRequirement {
    match mode {
        SandboxMode::ReadOnly => SandboxRequirement::ReadOnly,
        SandboxMode::WorkspaceWrite => SandboxRequirement::WorkspaceWrite,
        SandboxMode::DangerFullAccess => SandboxRequirement::DangerFullAccess,
    }
}

/// The reason every approval-gated evaluation gives.
pub open spec fn approval_reason() -> Seq<char> {
    "execution requires approval"@
}

/// The decision once approval is settled, given whether `cwd` lies inside the
/// workspace root.
pub open spec fn sandbox_decision_matches(
    d: PolicyDecision,
    policy: ExecutionPolicy,
    cwd: Seq<char>,
    within: bool,
) -> bool {
    if !policy.approval.spec_approved_without_prompt() {
        d matches PolicyDecision::Blocked { reason } && reason@ == approval_reason()
    } else {
        match policy.sandbox {
            SandboxRequirement::ReadOnly => d matches PolicyDecision::Blocked { reason }
                && reason@ == "sandbox is read-only"@,
            SandboxRequirement::WorkspaceWrite => if within {
                d == PolicyDecision::Allowed
            } else {
                d matches PolicyDecision::Blocked { reason } && reason@ == "cwd "@ + cwd
                    + " is outside workspace "@ + policy.workspace_root@
            },
            SandboxRequirement::DangerFullAccess => d == PolicyDecision::Allowed,
        }
    }
}

/// The approval request of an evaluation: none when the policy runs without
/// asking; otherwise one that gives the approval reason, the working
/// directory, the command (if any) and the command's risk (low without one).
pub open spec fn approval_request_matches(
    request: Option<ApprovalRequest>,
    policy: ExecutionPolicy,
    cwd: Seq<char>,
    command: Option<Seq<char>>,
) -> bool {
    let risk = match command {
        Some(c) => command_risk(c),
        None => CommandRisk::Low,
    };
    if policy.approval.spec_approved_without_prompt() {
        request is None
    } else {
        &&& request is Some
        &&& request->0.reason@ == approval_reason()
        &&& request->0.cwd@ == cwd
        &&& request->0.risk == risk
        &&& match command {
            Some(c) => request->0.command is Some && request->0.command->0@ == c,
            None => request->0.command is None,
        }
    }
}

/// The full evaluation for a working directory and an optional command.
pub open spec fn evaluation_matches(
    e: PolicyEvaluation,
    policy: ExecutionPolicy,
    cwd: Seq<char>,
    command: Option<Seq<char>>,
    within: bool,
) -> bool {
    &&& selection_matches(e.sandbox_backend, policy.sandbox)
    &&& e.network_decision == network_decision_for(policy.network)
    &&& sandbox_decision_matches(e.decision, policy, cwd, within)
    &&& approval_request_matches(e.approval_request, policy, cwd, command)
}

pub open spec fn opt_str_view(o: Option<&str>) -> Option<Seq<char>> {
    match o {
        Some(s) => Some(s@),
        None => None,
    }
}

/// `Path::canonicalize`: the absolute form of `path` with links resolved, or
/// the text of the I/O error when it cannot be resolved. The result depends on
/// the file system, so nothing is stated of it.
#[verifier::external_body]
pub(crate) fn canonicalize_path(path: &str) -> (r: Result<String, String>) {
    match std::path::Path::new(path).canonicalize() {
        Ok(resolved) => Ok(resolved.display().to_string()),
        Err(error) => Err(error.to_string()),
    }
}

/// What this build's `Path::starts_with` answers for `path` and `base`:
/// whether `base` is a whole-component prefix of `path`. How a path splits
/// into components is fixed by the platform the crate is built for.
pub uninterp spec fn path_prefix(path: Seq<char>, base: Seq<char>) -> bool;

/// `Path::starts_with` on two paths: its answer is `path_prefix` of the two
/// texts, and a path always starts with itself (its components are their own
/// prefix).
#[verifier::external_body]
fn path_starts_with(path: &str, base: &str) -> (r: bool)
    ensures
        r == path_prefix(path@, base@),
        path@ == base@ ==> r,
{
    std::path::Path::new(path).starts_with(std::path::Path::new(base))
}

/// Whether a resolved directory lies inside a resolved workspace root: false
/// when either could not be resolved; otherwise whether the resolved root is
/// a whole-component prefix of the resolved directory (so true when both
/// resolved to the same path).
pub fn within_resolved(root: &Result<String, String>, resolved: &Result<String, String>) -> (r: bool)
    ensures
        root is Err || resolved is Err ==> !r,
        root is Ok && resolved is Ok ==> r == path_prefix(resolved->Ok_0@, root->Ok_0@),
        root is Ok && resolved is Ok && root->Ok_0@ == resolved->Ok_0@ ==> r,
{
    match (root, resolved) {
        (Ok(root), Ok(resolved)) => path_starts_with(resolved.as_str(), root.as_str()),
        _ => false,
    }
}

impl ExecutionPolicy {
    pub fn from_config(config: &AgentConfig) -> (r: ExecutionPolicy)
        ensures
            r.approval == approval_for(config.approval_mode),
            r.sandbox == sandbox_for(config.sandbox_mode),
            r.network == NetworkPolicy::Inherit,
            r.workspace_root@ == config.cwd@,
    {
        let approval = match config.approval_mode {
            ApprovalMode::Never => ApprovalRequirement::PreApproved,
            ApprovalMode::OnRequest => ApprovalRequirement::AskBeforeRunning,
            ApprovalMode::OnFailure => ApprovalRequirement::AskOnFailure,
            ApprovalMode::Untrusted => ApprovalRequirement::AskBeforeRunning,
        };
        let sandbox = match config.sandbox_mode {
            SandboxMode::ReadOnly => SandboxRequirement::ReadOnly,
            SandboxMode::WorkspaceWrite => SandboxRequirement::WorkspaceWrite,
            SandboxMode::DangerFullAccess => SandboxRequirement::DangerFullAccess,
        };
        ExecutionPolicy {
            approval,
            sandbox,
            network: NetworkPolicy::Inherit,
            workspace_root: config.cwd.clone(),
        }
    }

    /// Whether `cwd` lies inside the workspace root once both are resolved on
    /// disk; false when either cannot be resolved. The resolutions come from
    /// the disk, so which texts they are is not stated; what is made of them
    /// is `within_resolved`: a true answer means some resolved directory has
    /// some resolved root as a whole-component prefix.
    pub fn is_within_workspace(&self, cwd: &str) -> (r: bool)
        ensures
            r ==> exists|resolved: Seq<char>, root: Seq<char>| path_prefix(resolved, root),
    {
        let root = canonicalize_path(self.workspace_root.as_str());
        let resolved = canonicalize_path(cwd);
        within_resolved(&root, &resolved)
    }

    /// The decision once approval is settled, for a known workspace check.
    pub fn sandbox_decision_with(&self, cwd: &str, within_workspace: bool) -> (r: PolicyDecision)
        ensures
            sandbox_decision_matches(r, *self, cwd@, within_workspace),
    {
        proof {
            reveal_strlit("execution requires approval");
            reveal_strlit("sandbox is read-only");
        }
        if !self.approval.is_approved_without_prompt() {
            return PolicyDecision::Blocked { reason: owned("execution requires approval") };
        }
        match self.sandbox {
            SandboxRequirement::ReadOnly => PolicyDecision::Blocked {
                reason: owned("sandbox is read-only"),
            },
            SandboxRequirement::WorkspaceWrite => {
                if within_workspace {
                    PolicyDecision::Allowed
                } else {
                    let head = concat("cwd ", cwd);
                    let tail = concat(" is outside workspace ", self.workspace_root.as_str());
                    let reason = concat(head.as_str(), tail.as_str());
                    assert(reason@ =~= "cwd "@ + cwd@ + " is outside workspace "@
                        + self.workspace_root@);
                    PolicyDecision::Blocked { reason }
                }
            },
            SandboxRequirement::DangerFullAccess => PolicyDecision::Allowed,
        }
    }

    /// The evaluation for a known workspace check; see `evaluation_matches`.
    pub fn evaluate_with(&self, cwd: &str, command: Option<&str>, within_workspace: bool) -> (r:
        PolicyEvaluation)
        ensures
            evaluation_matches(r, *self, cwd@, opt_str_view(command), within_workspace),
    {
        let risk = match command {
            Some(c) => CommandRisk::classify(c),
            None => CommandRisk::Low,
        };
        let decision = self.sandbox_decision_with(cwd, within_workspace);
        let approval_request = if !self.approval.is_approved_without_prompt() {
            proof {
                reveal_strlit("execution requires approval");
            }
            Some(
                ApprovalRequest {
                    reason: owned("execution requires approval"),
                    command: match command {
                        Some(c) => Some(owned(c)),
                        None => None,
                    },
                    cwd: owned(cwd),
                    risk,
                },
            )
        } else {
            None
        };
        PolicyEvaluation {
            decision,
            approval_request,
            sandbox_backend: SandboxBackendSelection::from_requirement(self.sandbox),
            network_decision: NetworkDecision::from_policy(self.network),
        }
    }

    /// The evaluation, resolving the workspace check on disk first: whatever
    /// the disk says, the evaluation is the one for some answer of that check.
    pub fn evaluate(&self, cwd: &str, command: Option<&str>) -> (r: PolicyEvaluation)
        ensures
            exists|within: bool| evaluation_matches(r, *self, cwd@, opt_str_view(command), within),
            approval_request_matches(r.approval_request, *self, cwd@, opt_str_view(command)),
            !self.approval.spec_approved_without_prompt() ==> r.decision is Blocked
                && r.decision->reason@ == approval_reason(),
            self.sandbox != SandboxRequirement::WorkspaceWrite ==> evaluation_matches(
                r,
                *self,
                cwd@,
                opt_str_view(command),
                true,
            ),
    {
        let within = if self.approval.is_approved_without_prompt() && self.sandbox
            == SandboxRequirement::WorkspaceWrite {
            self.is_within_workspace(cwd)
        } else {
            true
        };
        self.evaluate_with(cwd, command, within)
    }

    pub fn decision_for_cwd(&self, cwd: &str) -> (r: PolicyDecision)
        ensures
            exists|within: bool| sandbox_decision_matches(r, *self, cwd@, within),
            self.sandbox != SandboxRequirement::WorkspaceWrite ==> sandbox_decision_matches(
                r,
                *self,
                cwd@,
                true,
            ),
    {
        self.evaluate(cwd, None).decision
    }
}

/// An approval-gated policy blocks every command and asks for approval,
/// wherever it runs.
pub proof fn law_unapproved_policy_always_asks(
    e: PolicyEvaluation,
    policy: ExecutionPolicy,
    cwd: Seq<char>,
    command: Option<Seq<char>>,
    within: bool,
)
    requires
        evaluation_matches(e, policy, cwd, command, within),
        !policy.approval.spec_approved_without_prompt(),
    ensures
        e.decision is Blocked,
        e.decision->reason@ == approval_reason(),
        e.approval_request is Some,
        e.approval_request->0.cwd@ == cwd,
        e.approval_request->0.risk == (match command {
            Some(c) => command_risk(c),
            None => CommandRisk::Low,
        }),
        opt_view(e.approval_request->0.command) == command,
{
}

/// A read-only sandbox never allows execution.
pub proof fn law_read_only_never_allows(
    d: PolicyDecision,
    policy: ExecutionPolicy,
    cwd: Seq<char>,
    within: bool,
)
    requires
        sandbox_decision_matches(d, policy, cwd, within),
        policy.sandbox == SandboxRequirement::ReadOnly,
    ensures
        d is Blocked,
{
}

/// Under workspace-write, a pre-approved command is allowed exactly inside the workspace.
pub proof fn law_workspace_write_allows_only_inside(
    d: PolicyDecision,
    policy: ExecutionPolicy,
    cwd: Seq<char>,
    within: bool,
)
    requires
        sandbox_decision_matches(d, policy, cwd, within),
        policy.sandbox == SandboxRequirement::WorkspaceWrite,
        policy.approval.spec_approved_without_prompt(),
    ensures
        (d == PolicyDecision::Allowed) <==> within,
{
}

/// The command plays no part in the decision: for the same answer of the
/// workspace check, an evaluation with one command and a decision (or an
/// evaluation with another command) allow alike, and block for the same
/// reason.
pub proof fn law_decision_ignores_command(
    e: PolicyEvaluation,
    d: PolicyDecision,
    policy: ExecutionPolicy,
    cwd: Seq<char>,
    command: Option<Seq<char>>,
    within: bool,
)
    requires
        evaluation_matches(e, policy, cwd, command, within),
        sandbox_decision_matches(d, policy, cwd, within),
    ensures
        (e.decision is Allowed) == (d is Allowed),
        e.decision is Blocked ==> d is Blocked && e.decision->reason@ == d->reason@,
{
}

/// A command is judged by the markers its lowercased text holds, the most
/// dangerous first: any of `rm -rf`, `del /`, `format `, `remove-item`,
/// `rd /s` makes it destructive; otherwise any of `curl `, `wget `,
/// `invoke-webrequest`, `irm ` makes it a network command, whatever writes it
/// also makes (such as a `>` redirection); a network or destructive command is
/// never judged a mere workspace write.
pub proof fn law_command_risk_by_markers(command: Seq<char>)
    ensures
        ({
            let lower = ascii_lower(command);
            let destructive = seq_contains(lower, "rm -rf"@) || seq_contains(lower, "del /"@)
                || seq_contains(lower, "format "@) || seq_contains(lower, "remove-item"@)
                || seq_contains(lower, "rd /s"@);
            let network = seq_contains(lower, "curl "@) || seq_contains(lower, "wget "@)
                || seq_contains(lower, "invoke-webrequest"@) || seq_contains(lower, "irm "@);
            &&& destructive ==> command_risk(command) == CommandRisk::Destructive
            &&& !destructive && network ==> command_risk(command) == CommandRisk::Network
            &&& command_risk(command) == CommandRisk::WritesWorkspace ==> !destructive && !network
            &&& command_risk(command) == CommandRisk::Low ==> !destructive && !network
        }),
{
    let lower = ascii_lower(command);
    let d = destructive_markers();
    let n = network_markers();
    assert(d[0] == "rm -rf"@ && d[1] == "del /"@ && d[2] == "format "@ && d[3] == "remove-item"@
        && d[4] == "rd /s"@);
    assert(n[0] == "curl "@ && n[1] == "wget "@ && n[2] == "invoke-webrequest"@ && n[3] == "irm "@);
    if contains_any(lower, d) {
        let i = choose|i: int| 0 <= i < d.len() && seq_contains(lower, #[trigger] d[i]);
        assert(0 <= i < 5);
    }
    if contains_any(lower, n) {
        let i = choose|i: int| 0 <= i < n.len() && seq_contains(lower, #[trigger] n[i]);
        assert(0 <= i < 4);
    }
}

} // verus!
