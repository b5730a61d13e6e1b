//! Checks and summaries of the local web front end: the port it listens on,
//! how a chat prompt is accepted, and what a run is summarised as.
use vstd::prelude::*;
use crate::agent::{AgentConfig, AgentEvent, ApprovalMode, BackendKind, SandboxMode};
use crate::text::{concat3, is_blank, owned, trim, trim_str};

verus! {

/// The port the web front end listens on by default.
pub const DEFAULT_WEB_PORT: u16 = 17861;

/// A chat prompt once trimmed; a blank one is refused.
pub fn normalize_prompt(prompt: String) -> (r: Result<String, &'static str>)
    ensures
        is_blank(prompt@) <==> r is Err,
        r is Ok ==> r->Ok_0@ == trim(prompt@),
        r is Err ==> r->Err_0@ == "prompt is required"@,
{
    let p = trim_str(prompt.as_str());
    if p.unicode_len() == 0 {
        Err("prompt is required")
    } else {
        Ok(owned(p))
    }
}

/// The families of events a run summary counts.
#[derive(Clone, Copy, Debug, PartialEq, Eq, Structural)]
pub enum EventFamily {
    Command,
    ToolCall,
    Approval,
    Escalation,
    SandboxAttempt,
    McpTool,
    FileChange,
    Warning,
    Error,
}

/// The family an event is counted in, if any.
pub open spec fn event_family(e: AgentEvent) -> Option<EventFamily> {
    match e {
        AgentEvent::CommandStarted { .. } => Some(EventFamily::Command),
        AgentEvent::CommandUpdated { .. } => Some(EventFamily::Command),
        AgentEvent::CommandCompleted { .. } => Some(EventFamily::Command),
        AgentEvent::CommandFinished { .. } => Some(EventFamily::Command),
        AgentEvent::ToolCallStarted { .. } => Some(EventFamily::ToolCall),
        AgentEvent::ToolCallCompleted { .. } => Some(EventFamily::ToolCall),
        AgentEvent::ApprovalRequested { .. } => Some(EventFamily::Approval),
        AgentEvent::ApprovalCompleted { .. } => Some(EventFamily::Approval),
        AgentEvent::EscalationRequested { .. } => Some(EventFamily::Escalation),
        AgentEvent::EscalationCompleted { .. } => Some(EventFamily::Escalation),
        AgentEvent::SandboxAttempt { .. } => Some(EventFamily::SandboxAttempt),
        AgentEvent::McpToolStarted { .. } => Some(EventFamily::McpTool),
        AgentEvent::McpToolCompleted { .. } => Some(EventFamily::McpTool),
        AgentEvent::FileChanged { .. } => Some(EventFamily::FileChange),
        AgentEvent::PatchCompleted { .. } => Some(EventFamily::FileChange),
        AgentEvent::Warning { .. } => Some(EventFamily::Warning),
        AgentEvent::Error { .. } => Some(EventFamily::Error),
        AgentEvent::ProviderError { .. } => Some(EventFamily::Error),
        _ => None,
    }
}

/// How many events of `events` fall in `family`.
pub open spec fn family_count(events: Seq<AgentEvent>, family: EventFamily) -> nat
    decreases events.len(),
{
    if events.len() == 0 {
        0
    } else {
        family_count(events.drop_last(), family) + if event_family(events.last()) == Some(
            family,
        ) {
            1nat
        } else {
            0nat
        }
    }
}

/// How many events of each family a run produced.
#[derive(Clone, Copy, Debug, Default, PartialEq, Eq, Structural)]
pub struct RunInsights {
    pub commands: usize,
    pub tool_calls: usize,
    pub approvals: usize,
    pub escalations: usize,
    pub sandbox_attempts: usize,
    pub mcp_tools: usize,
    pub memory_recalls: usize,
    pub memory_writes: usize,
    pub persona_events: usize,
    pub files_changed: usize,
    pub warnings: usize,
    pub errors: usize,
}

/// The insights counted over `events`.
pub open spec fn insights_of(r: RunInsights, events: Seq<AgentEvent>) -> bool {
    &&& r.commands == family_count(events, EventFamily::Command)
    &&& r.tool_calls == family_count(events, EventFamily::ToolCall)
    &&& r.approvals == family_count(events, EventFamily::Approval)
    &&& r.escalations == family_count(events, EventFamily::Escalation)
    &&& r.sandbox_attempts == family_count(events, EventFamily::SandboxAttempt)
    &&& r.mcp_tools == family_count(events, EventFamily::McpTool)
    &&& r.memory_recalls == 0
    &&& r.memory_writes == 0
    &&& r.persona_events == 0
    &&& r.files_changed == family_count(events, EventFamily::FileChange)
    &&& r.warnings == family_count(events, EventFamily::Warning)
    &&& r.errors == family_count(events, EventFamily::Error)
}

proof fn lemma_family_count_bound(events: Seq<AgentEvent>, family: EventFamily)
    ensures
        family_count(events, family) <= events.len(),
    decreases events.len(),
{
    if events.len() > 0 {
        lemma_family_count_bound(events.drop_last(), family);
    }
}

/// Counts the events of each family; see `insights_of`.
pub fn summarize_events(events: &[AgentEvent]) -> (r: RunInsights)
    ensures
        insights_of(r, events@),
{
    let mut insights = RunInsights {
        commands: 0,
        tool_calls: 0,
        approvals: 0,
        escalations: 0,
        sandbox_attempts: 0,
        mcp_tools: 0,
        memory_recalls: 0,
        memory_writes: 0,
        persona_events: 0,
        files_changed: 0,
        warnings: 0,
        errors: 0,
    };
    let mut i: usize = 0;
    assert(events@.take(0) =~= Seq::<AgentEvent>::empty());
    while i < events.len()
        invariant
            i <= events@.len(),
            insights_of(insights, events@.take(i as int)),
        decreases events@.len() - i,
    {
        let ghost prefix = events@.take(i + 1);
        proof {
            assert(prefix.drop_last() =~= events@.take(i as int));
            assert(prefix.last() == events@[i as int]);
            lemma_family_count_bound(events@.take(i as int), EventFamily::Command);
            lemma_family_count_bound(events@.take(i as int), EventFamily::ToolCall);
            lemma_family_count_bound(events@.take(i as int), EventFamily::Approval);
            lemma_family_count_bound(events@.take(i as int), EventFamily::Escalation);
            lemma_family_count_bound(events@.take(i as int), EventFamily::SandboxAttempt);
            lemma_family_count_bound(events@.take(i as int), EventFamily::McpTool);
            lemma_family_count_bound(events@.take(i as int), EventFamily::FileChange);
            lemma_family_count_bound(events@.take(i as int), EventFamily::Warning);
            lemma_family_count_bound(events@.take(i as int), EventFamily::Error);
        }
        match &events[i] {
            AgentEvent::CommandStarted { .. }
            | AgentEvent::CommandUpdated { .. }
            | AgentEvent::CommandCompleted { .. }
            | AgentEvent::CommandFinished { .. } => {
                insights.commands = insights.commands + 1;
            },
            AgentEvent::ToolCallStarted { .. } | AgentEvent::ToolCallCompleted { .. } => {
                insights.tool_calls = insights.tool_calls + 1;
            },
            AgentEvent::ApprovalRequested { .. } | AgentEvent::ApprovalCompleted { .. } => {
                insights.approvals = insights.approvals + 1;
            },
            AgentEvent::EscalationRequested { .. } | AgentEvent::EscalationCompleted { .. } => {
                insights.escalations = insights.escalations + 1;
            },
            AgentEvent::SandboxAttempt { .. } => {
                insights.sandbox_attempts = insights.sandbox_attempts + 1;
            },
            AgentEvent::McpToolStarted { .. } | AgentEvent::McpToolCompleted { .. } => {
                insights.mcp_tools = insights.mcp_tools + 1;
            },
            AgentEvent::FileChanged { .. } | AgentEvent::PatchCompleted { .. } => {
                insights.files_changed = insights.files_changed + 1;
            },
            AgentEvent::Warning { .. } => {
                insights.warnings = insights.warnings + 1;
            },
            AgentEvent::Error { .. } | AgentEvent::ProviderError { .. } => {
                insights.errors = insights.errors + 1;
            },
            _ => {},
        }
        i = i + 1;
    }
    assert(events@.take(i as int) =~= events@);
    insights
}

// ---------------------------------------------------------------------------
// Status
// ---------------------------------------------------------------------------

/// The provider a run uses, as provider-mode resolution chose it: whether it
/// is live, the label of what decided, the provider and the model.
#[derive(Clone, Debug, PartialEq, Eq)]
pub struct ProviderSelection {
    pub live: bool,
    pub source: String,
    pub provider: String,
    pub model: String,
}

/// One capability the web console reports.
#[derive(Clone, Debug, PartialEq, Eq)]
pub struct CapabilityStatus {
    pub id: &'static str,
    pub label: &'static str,
    pub state: String,
    pub detail: String,
    pub action: &'static str,
}

/// What the web console's status endpoint answers.
#[derive(Clone, Debug, PartialEq, Eq)]
pub struct StatusResponse {
    pub status: &'static str,
    pub version: String,
    pub cwd: String,
    pub backend: String,
    pub provider: String,
    pub model: String,
    pub provider_live: bool,
    pub provider_source: String,
    pub approval_mode: String,
    pub sandbox_mode: String,
    pub memory_extraction: String,
    pub companion_enabled: bool,
    pub companion_tool_requests: bool,
    pub capabilities: Vec<CapabilityStatus>,
}

pub open spec fn approval_mode_name(mode: ApprovalMode) -> Seq<char> {
    match mode {
        ApprovalMode::Never => "Never"@,
        ApprovalMode::OnRequest => "OnRequest"@,
        ApprovalMode::OnFailure => "OnFailure"@,
        ApprovalMode::Untrusted => "Untrusted"@,
    }
}

fn approval_mode_str(mode: ApprovalMode) -> (r: &'static str)
    ensures
        r@ == approval_mode_name(mode),
{
    match mode {
        ApprovalMode::Never => "Never",
        ApprovalMode::OnRequest => "OnRequest",
        ApprovalMode::OnFailure => "OnFailure",
        ApprovalMode::Untrusted => "Untrusted",
    }
}

pub open spec fn sandbox_mode_name(mode: SandboxMode) -> Seq<char> {
    match mode {
        SandboxMode::ReadOnly => "ReadOnly"@,
        SandboxMode::WorkspaceWrite => "WorkspaceWrite"@,
        SandboxMode::DangerFullAccess => "DangerFullAccess"@,
    }
}

fn sandbox_mode_str(mode: SandboxMode) -> (r: &'static str)
    ensures
        r@ == sandbox_mode_name(mode),
{
    match mode {
        SandboxMode::ReadOnly => "ReadOnly",
        SandboxMode::WorkspaceWrite => "WorkspaceWrite",
        SandboxMode::DangerFullAccess => "DangerFullAccess",
    }
}

/// A backend's name in lower case.
pub open spec fn backend_name(backend: BackendKind) -> Seq<char> {
    match backend {
        BackendKind::DryRun => "dryrun"@,
        BackendKind::Yunxi => "yunxi"@,
        BackendKind::Codex => "codex"@,
    }
}

fn backend_str(backend: BackendKind) -> (r: &'static str)
    ensures
        r@ == backend_name(backend),
{
    match backend {
        BackendKind::DryRun => "dryrun",
        BackendKind::Yunxi => "yunxi",
        BackendKind::Codex => "codex",
    }
}

/// `c` is the capability with these fields.
pub open spec fn capability_is(
    c: CapabilityStatus,
    id: Seq<char>,
    label: Seq<char>,
    state: Seq<char>,
    detail: Seq<char>,
    action: Seq<char>,
) -> bool {
    c.id@ == id && c.label@ == label && c.state@ == state && c.detail@ == detail && c.action@ == action
}

/// The console's capabilities: chat (live or offline, through which provider
/// and model), tools (the approval and sandbox modes), memory (the extraction
/// mode), persona (whether the companion and its tool requests are on) and
/// the Weixin gateway.
pub open spec fn capabilities_match(
    r: Seq<CapabilityStatus>,
    config: AgentConfig,
    selection: ProviderSelection,
    memory_extraction: Seq<char>,
) -> bool {
    &&& r.len() == 5
    &&& capability_is(
        r[0],
        "chat"@,
        "Agent Chat"@,
        if selection.live {
            "live"@
        } else {
            "offline"@
        },
        selection.provider@ + "/"@ + selection.model@,
        "send"@,
    )
    &&& capability_is(
        r[1],
        "tools"@,
        "Tools"@,
        approval_mode_name(config.approval_mode),
        sandbox_mode_name(config.sandbox_mode),
        "inspect"@,
    )
    &&& capability_is(
        r[2],
        "memory"@,
        "Memory"@,
        memory_extraction,
        "runtime event summary is returned after every chat run"@,
        "test-memory"@,
    )
    &&& capability_is(
        r[3],
        "persona"@,
        "Persona"@,
        if config.companion.enabled {
            "enabled"@
        } else {
            "disabled"@
        },
        if config.companion.allow_tool_requests {
            "companion tool requests enabled"@
        } else {
            "companion tool requests disabled"@
        },
        "test-persona"@,
    )
    &&& capability_is(
        r[4],
        "weixin"@,
        "Weixin"@,
        "shared-runtime"@,
        "web console does not replace the local Weixin gateway"@,
        "inspect"@,
    )
}

/// The capabilities; `memory_extraction` names the memory extraction mode.
pub fn capability_statuses(config: &AgentConfig, selection: &ProviderSelection, memory_extraction: &str) -> (r:
    Vec<CapabilityStatus>)
    ensures
        capabilities_match(r@, *config, *selection, memory_extraction@),
{
    let mut out: Vec<CapabilityStatus> = Vec::new();
    out.push(
        CapabilityStatus {
            id: "chat",
            label: "Agent Chat",
            state: owned(if selection.live { "live" } else { "offline" }),
            detail: concat3(selection.provider.as_str(), "/", selection.model.as_str()),
            action: "send",
        },
    );
    out.push(
        CapabilityStatus {
            id: "tools",
            label: "Tools",
            state: owned(approval_mode_str(config.approval_mode)),
            detail: owned(sandbox_mode_str(config.sandbox_mode)),
            action: "inspect",
        },
    );
    out.push(
        CapabilityStatus {
            id: "memory",
            label: "Memory",
            state: owned(memory_extraction),
            detail: owned("runtime event summary is returned after every chat run"),
            action: "test-memory",
        },
    );
    out.push(
        CapabilityStatus {
            id: "persona",
            label: "Persona",
            state: owned(if config.companion.enabled { "enabled" } else { "disabled" }),
            detail: owned(
                if config.companion.allow_tool_requests {
                    "companion tool requests enabled"
                } else {
                    "companion tool requests disabled"
                },
            ),
            action: "test-persona",
        },
    );
    out.push(
        CapabilityStatus {
            id: "weixin",
            label: "Weixin",
            state: owned("shared-runtime"),
            detail: owned("web console does not replace the local Weixin gateway"),
            action: "inspect",
        },
    );
    out
}

/// The status of the console: `ok`, the version, the workspace, the backend
/// in lower case, the provider selection, the modes and companion switches,
/// and the capabilities.
pub fn status_response(
    config: &AgentConfig,
    backend: BackendKind,
    selection: &ProviderSelection,
    memory_extraction: &str,
    version: &str,
) -> (r: StatusResponse)
    ensures
        r.status@ == "ok"@,
        r.version@ == version@,
        r.cwd == config.cwd,
        r.backend@ == backend_name(backend),
        r.provider == selection.provider,
        r.model == selection.model,
        r.provider_live == selection.live,
        r.provider_source == selection.source,
        r.approval_mode@ == approval_mode_name(config.approval_mode),
        r.sandbox_mode@ == sandbox_mode_name(config.sandbox_mode),
        r.memory_extraction@ == memory_extraction@,
        r.companion_enabled == config.companion.enabled,
        r.companion_tool_requests == config.companion.allow_tool_requests,
        capabilities_match(r.capabilities@, *config, *selection, memory_extraction@),
{
    StatusResponse {
        status: "ok",
        version: owned(version),
        cwd: config.cwd.clone(),
        backend: owned(backend_str(backend)),
        provider: selection.provider.clone(),
        model: selection.model.clone(),
        provider_live: selection.live,
        provider_source: selection.source.clone(),
        approval_mode: owned(approval_mode_str(config.approval_mode)),
        sandbox_mode: owned(sandbox_mode_str(config.sandbox_mode)),
        memory_extraction: owned(memory_extraction),
        companion_enabled: config.companion.enabled,
        companion_tool_requests: config.companion.allow_tool_requests,
        capabilities: capability_statuses(config, selection, memory_extraction),
    }
}

} // verus!
