//! Tool requests and responses as the runtime sees them, and the agent events
//! that announce a tool's start and report its outcome. The tool router that
//! runs requests lives outside this library; these types hold what the
//! runtime reads of its requests and responses.
use vstd::prelude::*;
use crate::agent::{
    AgentConfig, AgentEvent, CommandStatus, FileChangeKind, McpToolStatus, PatchStatus,
};
use crate::provider::ProviderToolCall;
use crate::runtime::{json_object_with, json_string, json_string_literal, tool_started_is};
use crate::text::{concat, opt_string_copy, owned};

verus! {

/// What a tool request asks for.
#[derive(Clone, Debug, PartialEq, Eq)]
pub enum ToolRequestKind {
    Shell { command: String },
    Patch { patch: String },
    Mcp { server: String, tool: String, arguments_json: Option<String> },
    Skill { name: String, arguments_json: Option<String> },
    MultiAgent { action: String, arguments_json: Option<String> },
    ToolSearch { query: String },
    RequestUserInput { prompt: String },
    ViewImage { path: String },
}

/// A request to run a tool in a working directory.
#[derive(Clone, Debug, PartialEq, Eq)]
pub struct ToolRequest {
    pub id: Option<String>,
    pub cwd: String,
    pub kind: ToolRequestKind,
}

#[derive(Clone, Copy, Debug, PartialEq, Eq, Structural)]
pub enum ToolStatus {
    InProgress,
    Completed,
    Failed,
    Declined,
}

#[derive(Clone, Copy, Debug, PartialEq, Eq, Structural)]
pub enum ToolFileChangeKind {
    Added,
    Deleted,
    Updated,
    Moved,
}

#[derive(Clone, Debug, PartialEq, Eq)]
pub struct ToolFileChange {
    pub path: String,
    pub kind: ToolFileChangeKind,
}

/// What running a tool gave.
#[derive(Clone, Debug, PartialEq, Eq)]
pub struct ToolResponse {
    pub id: Option<String>,
    pub status: ToolStatus,
    pub output: Option<String>,
    pub error: Option<String>,
    pub exit_code: Option<i32>,
    pub changed_files: Vec<ToolFileChange>,
}

// ---------------------------------------------------------------------------
// Requests from provider tool calls
// ---------------------------------------------------------------------------

pub open spec fn provider_call_id(call: ProviderToolCall) -> Option<String> {
    match call {
        ProviderToolCall::Shell { id, .. } => id,
        ProviderToolCall::Patch { id, .. } => id,
        ProviderToolCall::Mcp { id, .. } => id,
        ProviderToolCall::Skill { id, .. } => id,
        ProviderToolCall::MultiAgent { id, .. } => id,
        ProviderToolCall::ToolSearch { id, .. } => id,
        ProviderToolCall::RequestUserInput { id, .. } => id,
        ProviderToolCall::ViewImage { id, .. } => id,
    }
}

/// The request kind with the call's kind and fields.
pub open spec fn request_kind(call: ProviderToolCall) -> ToolRequestKind {
    match call {
        ProviderToolCall::Shell { command, .. } => ToolRequestKind::Shell { command },
        ProviderToolCall::Patch { patch, .. } => ToolRequestKind::Patch { patch },
        ProviderToolCall::Mcp { server, tool, arguments_json, .. } => ToolRequestKind::Mcp {
            server,
            tool,
            arguments_json,
        },
        ProviderToolCall::Skill { name, arguments_json, .. } => ToolRequestKind::Skill {
            name,
            arguments_json,
        },
        ProviderToolCall::MultiAgent { action, arguments_json, .. } => ToolRequestKind::MultiAgent {
            action,
            arguments_json,
        },
        ProviderToolCall::ToolSearch { query, .. } => ToolRequestKind::ToolSearch { query },
        ProviderToolCall::RequestUserInput { prompt, .. } => ToolRequestKind::RequestUserInput {
            prompt,
        },
        ProviderToolCall::ViewImage { path, .. } => ToolRequestKind::ViewImage { path },
    }
}

/// The request for a provider's tool call, in the agent's working directory.
pub fn map_tool_call(config: &AgentConfig, tool_call: ProviderToolCall) -> (r: ToolRequest)
    ensures
        r == (ToolRequest {
            id: provider_call_id(tool_call),
            cwd: config.cwd,
            kind: request_kind(tool_call),
        }),
{
    let cwd = config.cwd.clone();
    match tool_call {
        ProviderToolCall::Shell { id, command } => ToolRequest {
            id,
            cwd,
            kind: ToolRequestKind::Shell { command },
        },
        ProviderToolCall::Patch { id, patch } => ToolRequest {
            id,
            cwd,
            kind: ToolRequestKind::Patch { patch },
        },
        ProviderToolCall::Mcp { id, server, tool, arguments_json } => ToolRequest {
            id,
            cwd,
            kind: ToolRequestKind::Mcp { server, tool, arguments_json },
        },
        ProviderToolCall::Skill { id, name, arguments_json } => ToolRequest {
            id,
            cwd,
            kind: ToolRequestKind::Skill { name, arguments_json },
        },
        ProviderToolCall::MultiAgent { id, action, arguments_json } => ToolRequest {
            id,
            cwd,
            kind: ToolRequestKind::MultiAgent { action, arguments_json },
        },
        ProviderToolCall::ToolSearch { id, query } => ToolRequest {
            id,
            cwd,
            kind: ToolRequestKind::ToolSearch { query },
        },
        ProviderToolCall::RequestUserInput { id, prompt } => ToolRequest {
            id,
            cwd,
            kind: ToolRequestKind::RequestUserInput { prompt },
        },
        ProviderToolCall::ViewImage { id, path } => ToolRequest {
            id,
            cwd,
            kind: ToolRequestKind::ViewImage { path },
        },
    }
}

// ---------------------------------------------------------------------------
// Start events
// ---------------------------------------------------------------------------

/// `{"key":<value as a JSON string>}`.
pub open spec fn one_field_json(key: Seq<char>, value: Seq<char>) -> Seq<char> {
    "{\""@ + key + "\":"@ + json_string_literal(value) + "}"@
}

/// The event that announces a request: a command start for a shell, a patch
/// in progress, an MCP tool start, and for the other kinds a tool-call start
/// named after the kind with its arguments (a multi-agent call's own
/// arguments when it has them).
pub open spec fn started_event_matches(e: AgentEvent, request: ToolRequest) -> bool {
    let id = request.id;
    match request.kind {
        ToolRequestKind::Shell { command } => e == (AgentEvent::CommandStarted { id, command }),
        ToolRequestKind::Patch { .. } => e == (AgentEvent::PatchCompleted {
            status: PatchStatus::InProgress,
        }),
        ToolRequestKind::Mcp { server, tool, .. } => e == (AgentEvent::McpToolStarted {
            id,
            server,
            tool,
        }),
        ToolRequestKind::Skill { name, .. } => tool_started_is(
            e,
            id,
            "skill"@,
            Some(one_field_json("name"@, name@)),
        ),
        ToolRequestKind::MultiAgent { action, arguments_json } => tool_started_is(
            e,
            id,
            "multi_agent"@,
            Some(
                match arguments_json {
                    Some(a) => a@,
                    None => one_field_json("action"@, action@),
                },
            ),
        ),
        ToolRequestKind::ToolSearch { query } => tool_started_is(
            e,
            id,
            "tool_search"@,
            Some(one_field_json("query"@, query@)),
        ),
        ToolRequestKind::RequestUserInput { prompt } => tool_started_is(
            e,
            id,
            "request_user_input"@,
            Some(one_field_json("prompt"@, prompt@)),
        ),
        ToolRequestKind::ViewImage { path } => tool_started_is(
            e,
            id,
            "view_image"@,
            Some(one_field_json("path"@, path@)),
        ),
    }
}

fn tool_started(id: &Option<String>, name: &str, key: &str, value: &str) -> (r: AgentEvent)
    ensures
        tool_started_is(r, *id, name@, Some(one_field_json(key@, value@))),
{
    let encoded = json_string(value);
    AgentEvent::ToolCallStarted {
        id: opt_string_copy(id),
        name: owned(name),
        arguments_json: Some(json_object_with(key, encoded.as_str())),
    }
}

/// The event that announces `request`; see `started_event_matches`.
pub fn tool_started_event(request: &ToolRequest) -> (r: AgentEvent)
    ensures
        started_event_matches(r, *request),
{
    match &request.kind {
        ToolRequestKind::Shell { command } => AgentEvent::CommandStarted {
            id: opt_string_copy(&request.id),
            command: command.clone(),
        },
        ToolRequestKind::Patch { .. } => AgentEvent::PatchCompleted { status: PatchStatus::InProgress },
        ToolRequestKind::Mcp { server, tool, .. } => AgentEvent::McpToolStarted {
            id: opt_string_copy(&request.id),
            server: server.clone(),
            tool: tool.clone(),
        },
        ToolRequestKind::Skill { name, .. } => tool_started(&request.id, "skill", "name", name.as_str()),
        ToolRequestKind::MultiAgent { action, arguments_json } => match arguments_json {
            Some(a) => AgentEvent::ToolCallStarted {
                id: opt_string_copy(&request.id),
                name: owned("multi_agent"),
                arguments_json: Some(a.clone()),
            },
            None => tool_started(&request.id, "multi_agent", "action", action.as_str()),
        },
        ToolRequestKind::ToolSearch { query } => tool_started(
            &request.id,
            "tool_search",
            "query",
            query.as_str(),
        ),
        ToolRequestKind::RequestUserInput { prompt } => tool_started(
            &request.id,
            "request_user_input",
            "prompt",
            prompt.as_str(),
        ),
        ToolRequestKind::ViewImage { path } => tool_started(
            &request.id,
            "view_image",
            "path",
            path.as_str(),
        ),
    }
}

// ---------------------------------------------------------------------------
// Completion events
// ---------------------------------------------------------------------------

pub open spec fn command_status_for(status: ToolStatus) -> CommandStatus {
    match status {
        ToolStatus::InProgress => CommandStatus::InProgress,
        ToolStatus::Completed => CommandStatus::Completed,
        ToolStatus::Failed => CommandStatus::Failed,
        ToolStatus::Declined => CommandStatus::Declined,
    }
}

pub fn map_tool_status(status: ToolStatus) -> (r: CommandStatus)
    ensures
        r == command_status_for(status),
{
    match status {
        ToolStatus::InProgress => CommandStatus::InProgress,
        ToolStatus::Completed => CommandStatus::Completed,
        ToolStatus::Failed => CommandStatus::Failed,
        ToolStatus::Declined => CommandStatus::Declined,
    }
}

/// A failed or declined patch is a failed patch.
pub open spec fn patch_status_for(status: ToolStatus) -> PatchStatus {
    match status {
        ToolStatus::Completed => PatchStatus::Completed,
        ToolStatus::InProgress => PatchStatus::InProgress,
        _ => PatchStatus::Failed,
    }
}

/// A failed or declined MCP call is a failed call.
pub open spec fn mcp_status_for(status: ToolStatus) -> McpToolStatus {
    match status {
        ToolStatus::Completed => McpToolStatus::Completed,
        ToolStatus::InProgress => McpToolStatus::InProgress,
        _ => McpToolStatus::Failed,
    }
}

pub open spec fn tool_status_debug(status: ToolStatus) -> Seq<char> {
    match status {
        ToolStatus::InProgress => "InProgress"@,
        ToolStatus::Completed => "Completed"@,
        ToolStatus::Failed => "Failed"@,
        ToolStatus::Declined => "Declined"@,
    }
}

fn tool_status_debug_str(status: ToolStatus) -> (r: &'static str)
    ensures
        r@ == tool_status_debug(status),
{
    match status {
        ToolStatus::InProgress => "InProgress",
        ToolStatus::Completed => "Completed",
        ToolStatus::Failed => "Failed",
        ToolStatus::Declined => "Declined",
    }
}

/// What a response says: its output, else its error, else its status.
pub open spec fn rendered_response(response: ToolResponse) -> Seq<char> {
    match response.output {
        Some(o) => o@,
        None => match response.error {
            Some(e) => e@,
            None => "tool completed with status "@ + tool_status_debug(response.status),
        },
    }
}

pub fn render_tool_response(response: &ToolResponse) -> (r: String)
    ensures
        r@ == rendered_response(*response),
{
    if let Some(output) = &response.output {
        return output.clone();
    }
    if let Some(error) = &response.error {
        return error.clone();
    }
    concat("tool completed with status ", tool_status_debug_str(response.status))
}

/// `e` is a `ToolCallCompleted` event with this id, name, output and status.
pub open spec fn tool_completed_is(
    e: AgentEvent,
    id: Option<String>,
    name: Seq<char>,
    output: Seq<char>,
    status: CommandStatus,
) -> bool {
    &&& e matches AgentEvent::ToolCallCompleted { id: i, name: n, output: o, status: s }
    &&& i == id
    &&& n@ == name
    &&& o@ == output
    &&& s == status
}

/// The event that reports a response to `request`: the command's output and
/// exit code for a shell (no output reading as empty), the patch's or MCP
/// call's status, and for the other kinds a tool-call completion named after
/// the kind (a skill or multi-agent call with its name or action) carrying
/// the rendered response.
pub open spec fn completed_event_matches(e: AgentEvent, request: ToolRequest, response: ToolResponse) -> bool {
    let id = response.id;
    let status = command_status_for(response.status);
    let out = rendered_response(response);
    match request.kind {
        ToolRequestKind::Shell { command } => {
            &&& e matches AgentEvent::CommandCompleted { id: i, command: c, aggregated_output: a, exit_code: x, status: s }
            &&& i == id
            &&& c == command
            &&& a@ == match response.output {
                Some(o) => o@,
                None => Seq::<char>::empty(),
            }
            &&& x == response.exit_code
            &&& s == status
        },
        ToolRequestKind::Patch { .. } => e == (AgentEvent::PatchCompleted {
            status: patch_status_for(response.status),
        }),
        ToolRequestKind::Mcp { server, tool, .. } => e == (AgentEvent::McpToolCompleted {
            id,
            server,
            tool,
            status: mcp_status_for(response.status),
        }),
        ToolRequestKind::Skill { name, .. } => tool_completed_is(e, id, "skill:"@ + name@, out, status),
        ToolRequestKind::MultiAgent { action, .. } => tool_completed_is(
            e,
            id,
            "multi_agent:"@ + action@,
            out,
            status,
        ),
        ToolRequestKind::ToolSearch { .. } => tool_completed_is(e, id, "tool_search"@, out, status),
        ToolRequestKind::RequestUserInput { .. } => tool_completed_is(
            e,
            id,
            "request_user_input"@,
            out,
            status,
        ),
        ToolRequestKind::ViewImage { .. } => tool_completed_is(e, id, "view_image"@, out, status),
    }
}

fn tool_completed(response: &ToolResponse, name: String) -> (r: AgentEvent)
    ensures
        tool_completed_is(
            r,
            response.id,
            name@,
            rendered_response(*response),
            command_status_for(response.status),
        ),
{
    AgentEvent::ToolCallCompleted {
        id: opt_string_copy(&response.id),
        name,
        output: render_tool_response(response),
        status: map_tool_status(response.status),
    }
}

/// The event that reports `response` to `request`; see
/// `completed_event_matches`.
pub fn tool_completed_event(request: &ToolRequest, response: &ToolResponse) -> (r: AgentEvent)
    ensures
        completed_event_matches(r, *request, *response),
{
    match &request.kind {
        ToolRequestKind::Shell { command } => AgentEvent::CommandCompleted {
            id: opt_string_copy(&response.id),
            command: command.clone(),
            aggregated_output: match &response.output {
                Some(o) => o.clone(),
                None => String::new(),
            },
            exit_code: response.exit_code,
            status: map_tool_status(response.status),
        },
        ToolRequestKind::Patch { .. } => AgentEvent::PatchCompleted {
            status: match response.status {
                ToolStatus::Completed => PatchStatus::Completed,
                ToolStatus::InProgress => PatchStatus::InProgress,
                _ => PatchStatus::Failed,
            },
        },
        ToolRequestKind::Mcp { server, tool, .. } => AgentEvent::McpToolCompleted {
            id: opt_string_copy(&response.id),
            server: server.clone(),
            tool: tool.clone(),
            status: match response.status {
                ToolStatus::Completed => McpToolStatus::Completed,
                ToolStatus::InProgress => McpToolStatus::InProgress,
                _ => McpToolStatus::Failed,
            },
        },
        ToolRequestKind::Skill { name, .. } => tool_completed(response, concat("skill:", name.as_str())),
        ToolRequestKind::MultiAgent { action, .. } => tool_completed(
            response,
            concat("multi_agent:", action.as_str()),
        ),
        ToolRequestKind::ToolSearch { .. } => tool_completed(response, owned("tool_search")),
        ToolRequestKind::RequestUserInput { .. } => tool_completed(
            response,
            owned("request_user_input"),
        ),
        ToolRequestKind::ViewImage { .. } => tool_completed(response, owned("view_image")),
    }
}

/// A failed or declined response is reported as a warning with its error,
/// else its output; any other response, or one with neither, gives none.
pub open spec fn warning_matches(r: Option<AgentEvent>, response: ToolResponse) -> bool {
    let failed = response.status == ToolStatus::Declined || response.status == ToolStatus::Failed;
    let message = match response.error {
        Some(e) => Some(e),
        None => response.output,
    };
    if failed && message is Some {
        r == Some(AgentEvent::Warning { message: message->0 })
    } else {
        r is None
    }
}

pub fn tool_warning_event(response: &ToolResponse) -> (r: Option<AgentEvent>)
    ensures
        warning_matches(r, *response),
{
    match response.status {
        ToolStatus::Declined | ToolStatus::Failed => {
            let message = match &response.error {
                Some(e) => Some(e),
                None => response.output.as_ref(),
            };
            match message {
                Some(m) => Some(AgentEvent::Warning { message: m.clone() }),
                None => None,
            }
        },
        _ => None,
    }
}

pub open spec fn file_change_kind_for(kind: ToolFileChangeKind) -> FileChangeKind {
    match kind {
        ToolFileChangeKind::Added => FileChangeKind::Add,
        ToolFileChangeKind::Deleted => FileChangeKind::Delete,
        ToolFileChangeKind::Updated => FileChangeKind::Update,
        ToolFileChangeKind::Moved => FileChangeKind::Move,
    }
}

/// One file-change event per changed file, in order.
pub fn file_change_events(response: &ToolResponse) -> (r: Vec<AgentEvent>)
    ensures
        r@.len() == response.changed_files@.len(),
        forall|i: int|
            0 <= i < r@.len() ==> #[trigger] r@[i] == (AgentEvent::FileChanged {
                path: response.changed_files@[i].path,
                kind: file_change_kind_for(response.changed_files@[i].kind),
            }),
{
    let mut out: Vec<AgentEvent> = Vec::new();
    let mut i: usize = 0;
    while i < response.changed_files.len()
        invariant
            i <= response.changed_files@.len(),
            out@.len() == i,
            forall|j: int|
                0 <= j < i ==> #[trigger] out@[j] == (AgentEvent::FileChanged {
                    path: response.changed_files@[j].path,
                    kind: file_change_kind_for(response.changed_files@[j].kind),
                }),
        decreases response.changed_files@.len() - i,
    {
        let change = &response.changed_files[i];
        let kind = match change.kind {
            ToolFileChangeKind::Added => FileChangeKind::Add,
            ToolFileChangeKind::Deleted => FileChangeKind::Delete,
            ToolFileChangeKind::Updated => FileChangeKind::Update,
            ToolFileChangeKind::Moved => FileChangeKind::Move,
        };
        out.push(AgentEvent::FileChanged { path: change.path.clone(), kind });
        i = i + 1;
    }
    out
}

} // verus!
