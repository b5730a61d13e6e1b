//! The agent facade: configuration, input, run events, results and errors,
//! and the dry-run agent that answers without a provider.
use vstd::prelude::*;
use crate::text::{concat, is_blank, opt_string_copy, owned, trim, trim_str};

verus! {

/// When tool execution asks the user first.
#[derive(Clone, Copy, Debug, PartialEq, Eq, Structural)]
pub enum ApprovalMode {
    Never,
    OnRequest,
    OnFailure,
    Untrusted,
}

/// How far tool execution may reach outside the workspace.
#[derive(Clone, Copy, Debug, PartialEq, Eq, Structural)]
pub enum SandboxMode {
    ReadOnly,
    WorkspaceWrite,
    DangerFullAccess,
}

/// Which backend runs an agent turn.
#[derive(Clone, Copy, Debug, PartialEq, Eq, Structural)]
pub enum BackendKind {
    DryRun,
    Yunxi,
    Codex,
}

/// A window of minutes of the day (0..1440) during which proactive companion
/// plans stay silent; it may wrap past midnight.
#[derive(Clone, Copy, Debug, PartialEq, Eq, Structural)]
pub struct QuietHours {
    pub start_minute: u16,
    pub end_minute: u16,
}

/// A quiet-hours window is made of two distinct minutes of the day.
pub open spec fn valid_quiet_hours(start: u16, end: u16) -> bool {
    start < 1440 && end < 1440 && start != end
}

/// Whether `minute` falls inside the window `[start, end)`, read across midnight
/// when `end` comes before `start`.
pub open spec fn quiet_contains(start: u16, end: u16, minute: u16) -> bool {
    if start < end {
        start <= minute && minute < end
    } else {
        minute >= start || minute < end
    }
}

impl QuietHours {
    /// A window from `start_minute` to `end_minute`, or `None` when either
    /// minute lies outside the day or the two are equal.
    pub fn new(start_minute: u16, end_minute: u16) -> (r: Option<QuietHours>)
        ensures
            r is Some <==> valid_quiet_hours(start_minute, end_minute),
            r is Some ==> r->0.start_minute == start_minute && r->0.end_minute == end_minute,
    {
        if start_minute < 1440 && end_minute < 1440 && start_minute != end_minute {
            Some(QuietHours { start_minute, end_minute })
        } else {
            None
        }
    }

    pub fn contains(&self, minute: u16) -> (r: bool)
        ensures
            r == quiet_contains(self.start_minute, self.end_minute, minute),
    {
        if self.start_minute < self.end_minute {
            self.start_minute <= minute && minute < self.end_minute
        } else {
            minute >= self.start_minute || minute < self.end_minute
        }
    }
}

/// Proactive companion settings: off by default, limited per session and
/// per day, and requiring a reason for every plan.
#[derive(Clone, Copy, Debug, PartialEq, Eq, Structural)]
pub struct CompanionSettings {
    pub enabled: bool,
    pub max_proactive_per_session: u32,
    pub max_proactive_per_day: u32,
    pub quiet_hours: Option<QuietHours>,
    pub require_reason: bool,
    pub allow_tool_requests: bool,
}

pub open spec fn default_companion_settings() -> CompanionSettings {
    CompanionSettings {
        enabled: false,
        max_proactive_per_session: 3,
        max_proactive_per_day: 8,
        quiet_hours: None,
        require_reason: true,
        allow_tool_requests: false,
    }
}

impl Default for CompanionSettings {
    fn default() -> (r: Self)
        ensures
            r == default_companion_settings(),
    {
        CompanionSettings {
            enabled: false,
            max_proactive_per_session: 3,
            max_proactive_per_day: 8,
            quiet_hours: None,
            require_reason: true,
            allow_tool_requests: false,
        }
    }
}

/// The configuration an agent turn runs with.
#[derive(Clone, Debug, PartialEq, Eq)]
pub struct AgentConfig {
    pub cwd: String,
    pub model: Option<String>,
    pub provider: Option<String>,
    pub codex_home: Option<String>,
    pub approval_mode: ApprovalMode,
    pub sandbox_mode: SandboxMode,
    pub parent_session_id: Option<String>,
    pub session_title: Option<String>,
    pub context_window_tokens: Option<i64>,
    pub auto_compact_threshold_tokens: Option<i64>,
    pub companion: CompanionSettings,
}

/// An optional string holds exactly `t`.
pub open spec fn opt_text_is(a: Option<String>, t: Seq<char>) -> bool {
    a is Some && a->0@ == t
}

impl AgentConfig {
    /// A copy equal to this configuration.
    pub(crate) fn copy(&self) -> (r: AgentConfig)
        ensures
            r == *self,
    {
        AgentConfig {
            cwd: self.cwd.clone(),
            model: opt_string_copy(&self.model),
            provider: opt_string_copy(&self.provider),
            codex_home: opt_string_copy(&self.codex_home),
            approval_mode: self.approval_mode,
            sandbox_mode: self.sandbox_mode,
            parent_session_id: opt_string_copy(&self.parent_session_id),
            session_title: opt_string_copy(&self.session_title),
            context_window_tokens: self.context_window_tokens,
            auto_compact_threshold_tokens: self.auto_compact_threshold_tokens,
            companion: self.companion,
        }
    }

    /// A configuration for `cwd` that asks on request, writes only inside the
    /// workspace and leaves every optional field unset.
    pub fn new(cwd: &str) -> (r: AgentConfig)
        ensures
            r.cwd@ == cwd@,
            r.model is None,
            r.provider is None,
            r.codex_home is None,
            r.approval_mode == ApprovalMode::OnRequest,
            r.sandbox_mode == SandboxMode::WorkspaceWrite,
            r.parent_session_id is None,
            r.session_title is None,
            r.context_window_tokens is None,
            r.auto_compact_threshold_tokens is None,
            r.companion == default_companion_settings(),
    {
        AgentConfig {
            cwd: owned(cwd),
            model: None,
            provider: None,
            codex_home: None,
            approval_mode: ApprovalMode::OnRequest,
            sandbox_mode: SandboxMode::WorkspaceWrite,
            parent_session_id: None,
            session_title: None,
            context_window_tokens: None,
            auto_compact_threshold_tokens: None,
            companion: CompanionSettings::default(),
        }
    }

    pub fn with_model(self, model: &str) -> (r: AgentConfig)
        ensures
            opt_text_is(r.model, model@),
            r == (AgentConfig { model: r.model, ..self }),
    {
        AgentConfig { model: Some(owned(model)), ..self }
    }

    pub fn with_provider(self, provider: &str) -> (r: AgentConfig)
        ensures
            opt_text_is(r.provider, provider@),
            r == (AgentConfig { provider: r.provider, ..self }),
    {
        AgentConfig { provider: Some(owned(provider)), ..self }
    }

    pub fn with_codex_home(self, codex_home: &str) -> (r: AgentConfig)
        ensures
            opt_text_is(r.codex_home, codex_home@),
            r == (AgentConfig { codex_home: r.codex_home, ..self }),
    {
        AgentConfig { codex_home: Some(owned(codex_home)), ..self }
    }

    pub fn with_approval_mode(self, approval_mode: ApprovalMode) -> (r: AgentConfig)
        ensures
            r == (AgentConfig { approval_mode, ..self }),
    {
        AgentConfig { approval_mode, ..self }
    }

    pub fn with_sandbox_mode(self, sandbox_mode: SandboxMode) -> (r: AgentConfig)
        ensures
            r == (AgentConfig { sandbox_mode, ..self }),
    {
        AgentConfig { sandbox_mode, ..self }
    }

    pub fn with_parent_session_id(self, parent_session_id: &str) -> (r: AgentConfig)
        ensures
            opt_text_is(r.parent_session_id, parent_session_id@),
            r == (AgentConfig { parent_session_id: r.parent_session_id, ..self }),
    {
        AgentConfig { parent_session_id: Some(owned(parent_session_id)), ..self }
    }

    pub fn with_session_title(self, session_title: &str) -> (r: AgentConfig)
        ensures
            opt_text_is(r.session_title, session_title@),
            r == (AgentConfig { session_title: r.session_title, ..self }),
    {
        AgentConfig { session_title: Some(owned(session_title)), ..self }
    }

    pub fn with_context_window_tokens(self, tokens: i64) -> (r: AgentConfig)
        ensures
            r == (AgentConfig { context_window_tokens: Some(tokens), ..self }),
    {
        AgentConfig { context_window_tokens: Some(tokens), ..self }
    }

    pub fn with_auto_compact_threshold_tokens(self, tokens: i64) -> (r: AgentConfig)
        ensures
            r == (AgentConfig { auto_compact_threshold_tokens: Some(tokens), ..self }),
    {
        AgentConfig { auto_compact_threshold_tokens: Some(tokens), ..self }
    }

    pub fn with_companion(self, companion: CompanionSettings) -> (r: AgentConfig)
        ensures
            r == (AgentConfig { companion, ..self }),
    {
        AgentConfig { companion, ..self }
    }
}

/// The user input of one turn.
#[derive(Clone, Debug, PartialEq, Eq)]
pub struct AgentInput {
    pub prompt: String,
}

impl AgentInput {
    pub fn text(prompt: &str) -> (r: AgentInput)
        ensures
            r.prompt@ == prompt@,
    {
        AgentInput { prompt: owned(prompt) }
    }
}

/// Why an agent turn could not run.
#[derive(Clone, Debug, PartialEq, Eq)]
pub enum AgentError {
    EmptyPrompt,
    MissingWorkingDirectory { path: String },
    Execution { message: String },
    Provider { provider: String, status: Option<u16>, classification: String, message: String },
}

#[derive(Clone, Copy, Debug, PartialEq, Eq, Structural)]
pub enum AgentRunStatus {
    Completed,
    Failed,
    Cancelled,
}

#[derive(Clone, Copy, Debug, PartialEq, Eq, Structural)]
pub enum CommandStatus {
    InProgress,
    Completed,
    Failed,
    Declined,
    Cancelled,
}

#[derive(Clone, Copy, Debug, PartialEq, Eq, Structural)]
pub enum FileChangeKind {
    Add,
    Delete,
    Update,
    Move,
}

#[derive(Clone, Copy, Debug, PartialEq, Eq, Structural)]
pub enum PatchStatus {
    InProgress,
    Completed,
    Failed,
}

#[derive(Clone, Copy, Debug, PartialEq, Eq, Structural)]
pub enum McpToolStatus {
    InProgress,
    Completed,
    Failed,
}

#[derive(Clone, Debug, PartialEq, Eq)]
pub struct TodoStatus {
    pub text: String,
    pub completed: bool,
}

#[derive(Clone, Copy, Debug, PartialEq, Eq, Structural)]
pub struct TokenUsage {
    pub input_tokens: i64,
    pub cached_input_tokens: i64,
    pub output_tokens: i64,
    pub reasoning_output_tokens: i64,
}

/// Free-form key/value annotations carried by runtime state events.
pub type DeepParityData = Vec<(String, String)>;

#[derive(Clone, Debug, PartialEq, Eq)]
pub struct ThreadRuntimeState {
    pub thread_id: String,
    pub session_id: Option<String>,
    pub parent_thread_id: Option<String>,
    pub status: String,
    pub cwd: String,
    pub resume_source: Option<String>,
    pub child_depth: usize,
    pub data: DeepParityData,
}

#[derive(Clone, Debug, PartialEq, Eq)]
pub struct TurnRuntimeMetadata {
    pub session_id: Option<String>,
    pub cwd: String,
    pub model: Option<String>,
    pub provider: Option<String>,
    pub approval_mode: Option<String>,
    pub sandbox_mode: Option<String>,
    pub context_phase: Option<String>,
    pub resume_source: Option<String>,
    pub cancellation_state: Option<String>,
    pub child_depth: usize,
    pub data: DeepParityData,
}

#[derive(Clone, Debug, PartialEq, Eq)]
pub struct TurnRuntimeState {
    pub phase: String,
    pub status: String,
    pub provider_status: String,
    pub tool_loop_status: String,
    pub cancellation_state: String,
    pub data: DeepParityData,
}

/// One observable step of an agent run.
#[derive(Clone, Debug, PartialEq, Eq)]
pub enum AgentEvent {
    Started { prompt: String },
    ThreadStarted { thread_id: String },
    TurnStarted,
    ThreadState { state: ThreadRuntimeState },
    TurnMetadata { metadata: TurnRuntimeMetadata },
    TurnState { state: TurnRuntimeState },
    DeepParityState { layer: String, status: String, message: Option<String>, data: DeepParityData },
    SandboxAttempt {
        id: Option<String>,
        platform: String,
        status: String,
        backend: String,
        os_isolation: bool,
        enforcement: String,
        command: Option<String>,
        cwd: String,
        message: Option<String>,
    },
    ApprovalCacheState {
        session_id: Option<String>,
        tool_name: String,
        key: String,
        decision: String,
        reused: bool,
    },
    Message { content: String },
    Reasoning { content: String },
    CommandStarted { id: Option<String>, command: String },
    CommandUpdated { id: Option<String>, command: String, aggregated_output: String },
    CommandCompleted {
        id: Option<String>,
        command: String,
        aggregated_output: String,
        exit_code: Option<i32>,
        status: CommandStatus,
    },
    CommandFinished { command: String, exit_code: i32 },
    FileChanged { path: String, kind: FileChangeKind },
    PatchCompleted { status: PatchStatus },
    McpToolStarted { id: Option<String>, server: String, tool: String },
    McpToolCompleted { id: Option<String>, server: String, tool: String, status: McpToolStatus },
    ToolCallStarted { id: Option<String>, name: String, arguments_json: Option<String> },
    ToolCallCompleted { id: Option<String>, name: String, output: String, status: CommandStatus },
    ApprovalRequested { id: Option<String>, tool_name: String, reason: String },
    ApprovalCompleted { id: Option<String>, approved: bool, reason: Option<String> },
    EscalationRequested {
        id: Option<String>,
        tool_name: String,
        reason: String,
        required_sandbox: Option<String>,
        required_network: Option<String>,
    },
    EscalationCompleted { id: Option<String>, approved: bool, reason: Option<String> },
    McpSession { server: String, status: String, message: Option<String> },
    MultiAgentEvent {
        agent_id: String,
        parent_agent_id: Option<String>,
        status: String,
        message: Option<String>,
    },
    ChildAgentEvent {
        agent_id: String,
        child_session_id: String,
        parent_session_id: Option<String>,
        status: String,
        message: Option<String>,
    },
    ChildScopedStream {
        agent_id: String,
        child_session_id: String,
        parent_session_id: Option<String>,
        event: String,
        seq: usize,
        message: Option<String>,
    },
    ContextStatus {
        active_context_tokens: i64,
        token_limit_reached: bool,
        compacted: bool,
        dropped_messages: usize,
    },
    StorageState {
        session_id: Option<String>,
        parent_session_id: Option<String>,
        rollout_items: usize,
        rollout_truncated: bool,
        child_session_ids: Vec<String>,
    },
    TodoUpdated { id: Option<String>, items: Vec<TodoStatus> },
    Warning { message: String },
    Cancelled { reason: Option<String> },
    ProviderError { provider: String, status: Option<u16>, classification: String, message: String },
    Error { message: String },
    Completed { status: AgentRunStatus, usage: Option<TokenUsage> },
}

/// What an agent run produced.
#[derive(Clone, Debug, PartialEq, Eq)]
pub struct AgentRunResult {
    pub status: AgentRunStatus,
    pub final_response: Option<String>,
    pub events: Vec<AgentEvent>,
}

/// The agent facade over one configuration.
#[derive(Clone, Debug)]
pub struct Agent {
    config: AgentConfig,
}

/// The text the dry-run agent answers for an (already trimmed) prompt.
pub open spec fn dry_run_response(prompt: Seq<char>) -> Seq<char> {
    "Dry run accepted prompt: "@ + prompt
}

/// The dry-run result for a prompt: the trimmed prompt is echoed as a
/// `Started` event, the answer as a `Message`, and the run completes.
pub open spec fn dry_run_result_matches(r: AgentRunResult, prompt: Seq<char>) -> bool {
    let p = trim(prompt);
    &&& r.status == AgentRunStatus::Completed
    &&& opt_text_is(r.final_response, dry_run_response(p))
    &&& r.events@.len() == 3
    &&& (r.events@[0] matches AgentEvent::Started { prompt } && prompt@ == p)
    &&& (r.events@[1] matches AgentEvent::Message { content } && content@ == dry_run_response(p))
    &&& r.events@[2] == (AgentEvent::Completed { status: AgentRunStatus::Completed, usage: None })
}

impl Agent {
    pub fn new(config: AgentConfig) -> (r: Agent)
        ensures
            r.config_view() == config,
    {
        Agent { config }
    }

    pub closed spec fn config_view(&self) -> AgentConfig {
        self.config
    }

    pub fn config(&self) -> (r: &AgentConfig)
        ensures
            *r == self.config_view(),
    {
        &self.config
    }

    /// Answers without a provider: a blank prompt is refused, any other prompt
    /// is echoed back, trimmed.
    pub fn run_dry(&self, input: AgentInput) -> (r: Result<AgentRunResult, AgentError>)
        ensures
            is_blank(input.prompt@) <==> r is Err,
            r is Err ==> r->Err_0 == AgentError::EmptyPrompt,
            r is Ok ==> dry_run_result_matches(r->Ok_0, input.prompt@),
    {
        let prompt = trim_str(input.prompt.as_str());
        if prompt.unicode_len() == 0 {
            return Err(AgentError::EmptyPrompt);
        }
        let response = concat("Dry run accepted prompt: ", prompt);
        proof {
            reveal_strlit("Dry run accepted prompt: ");
        }
        let shown = response.clone();
        let mut events: Vec<AgentEvent> = Vec::new();
        events.push(AgentEvent::Started { prompt: owned(prompt) });
        events.push(AgentEvent::Message { content: response });
        events.push(AgentEvent::Completed { status: AgentRunStatus::Completed, usage: None });
        Ok(AgentRunResult {
            status: AgentRunStatus::Completed,
            final_response: Some(shown),
            events,
        })
    }
}

/// A backend that runs an agent turn.
pub trait AgentBackend {
    fn run(&self, config: AgentConfig, input: AgentInput) -> Result<AgentRunResult, AgentError>;
}

/// The backend that answers without a model: the dry run of `Agent`.
#[derive(Clone, Copy, Debug, Default)]
pub struct DryRunBackend;

impl AgentBackend for DryRunBackend {
    fn run(&self, config: AgentConfig, input: AgentInput) -> (r: Result<AgentRunResult, AgentError>)
        ensures
            is_blank(input.prompt@) <==> r is Err,
            r is Err ==> r->Err_0 == AgentError::EmptyPrompt,
            r is Ok ==> dry_run_result_matches(r->Ok_0, input.prompt@),
    {
        Agent::new(config).run_dry(input)
    }
}

/// A quiet-hours window that does not cross midnight covers exactly the
/// minutes from its start up to, but not including, its end; one that
/// crosses midnight covers every minute except those from its end up to, but
/// not including, its start.
pub proof fn law_quiet_hours_window(start: u16, end: u16, minute: u16)
    ensures
        start < end ==> (quiet_contains(start, end, minute) <==> (start <= minute && minute < end)),
        start < end && minute >= end ==> !quiet_contains(start, end, minute),
        start < end && minute < start ==> !quiet_contains(start, end, minute),
        end < start ==> (quiet_contains(start, end, minute) <==> !(end <= minute && minute < start)),
{
}

} // verus!
