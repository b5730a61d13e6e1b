//! The runtime protocol: threads, turns, input and response items, tool calls,
//! runtime events, and the streaming events and deltas that providers emit.
use vstd::prelude::*;
use crate::text::{opt_string_copy, opt_view, owned};

verus! {

#[derive(Clone, Copy, Debug, PartialEq, Eq, Structural)]
pub enum ProtocolVersion {
    V1,
}

#[derive(Clone, Debug, PartialEq, Eq)]
pub struct ThreadId(pub String);

#[derive(Clone, Debug, PartialEq, Eq)]
pub struct TurnId(pub String);

#[derive(Clone, Copy, Debug, PartialEq, Eq, Structural)]
pub enum ProtocolRole {
    System,
    Developer,
    User,
    Assistant,
    Tool,
}

#[derive(Clone, Debug, PartialEq, Eq)]
pub enum InputItem {
    Message { role: ProtocolRole, content: String },
    ToolResult { call_id: Option<String>, content: String },
    LocalContext { name: String, content: String },
}

/// A tool the model asked for.
#[derive(Clone, Debug, PartialEq, Eq)]
pub enum ToolCall {
    Shell { id: Option<String>, command: String },
    Patch { id: Option<String>, patch: String },
    Mcp { id: Option<String>, server: String, tool: String, arguments_json: Option<String> },
    Skill { id: Option<String>, name: String, arguments_json: Option<String> },
    MultiAgent { id: Option<String>, action: String, arguments_json: Option<String> },
    ToolSearch { id: Option<String>, query: String },
    RequestUserInput { id: Option<String>, prompt: String },
    ViewImage { id: Option<String>, path: String },
}

/// The call id of a tool call, whatever its kind.
pub open spec fn tool_call_id(call: ToolCall) -> Option<String> {
    match call {
        ToolCall::Shell { id, .. } => id,
        ToolCall::Patch { id, .. } => id,
        ToolCall::Mcp { id, .. } => id,
        ToolCall::Skill { id, .. } => id,
        ToolCall::MultiAgent { id, .. } => id,
        ToolCall::ToolSearch { id, .. } => id,
        ToolCall::RequestUserInput { id, .. } => id,
        ToolCall::ViewImage { id, .. } => id,
    }
}

impl ToolCall {
    pub fn id(&self) -> (r: Option<&str>)
        ensures
            match tool_call_id(*self) {
                Some(s) => r is Some && r->0@ == s@,
                None => r is None,
            },
    {
        let id = match self {
            ToolCall::Shell { id, .. } => id,
            ToolCall::Patch { id, .. } => id,
            ToolCall::Mcp { id, .. } => id,
            ToolCall::Skill { id, .. } => id,
            ToolCall::MultiAgent { id, .. } => id,
            ToolCall::ToolSearch { id, .. } => id,
            ToolCall::RequestUserInput { id, .. } => id,
            ToolCall::ViewImage { id, .. } => id,
        };
        match id {
            Some(s) => Some(s.as_str()),
            None => None,
        }
    }
}

/// Progress of a tool call.
#[derive(Clone, Copy, Debug, PartialEq, Eq, Structural)]
pub enum ToolCallStatus {
    InProgress,
    Completed,
    Failed,
    Cancelled,
}

/// Progress of a whole response.
#[derive(Clone, Copy, Debug, PartialEq, Eq, Structural)]
pub enum ResponseStatus {
    InProgress,
    Completed,
    Failed,
    Cancelled,
}

/// A piece of message content.
#[derive(Clone, Debug, PartialEq, Eq)]
pub enum ContentItem {
    InputText { text: String },
    OutputText { text: String },
    InputImage { image_url: String },
    LocalImage { path: String },
}

/// An item of a model response.
#[derive(Clone, Debug, PartialEq, Eq)]
pub enum ResponseItem {
    Message { role: ProtocolRole, content: String },
    AgentMessage { content: Vec<ContentItem> },
    Reasoning { content: String },
    ReasoningItem { summary_text: Vec<String> },
    ToolCall { call: ToolCall },
    FunctionCall {
        id: String,
        call_id: String,
        name: String,
        arguments: String,
        status: ToolCallStatus,
    },
    McpToolCall {
        id: String,
        call_id: String,
        server: String,
        tool: String,
        arguments: String,
        status: ToolCallStatus,
    },
    WebSearchCall { id: String, query: String, status: ToolCallStatus },
    Compaction { summary: String },
    FunctionCallOutput { id: String, call_id: String, output: String },
    Usage {
        input_tokens: i64,
        cached_input_tokens: i64,
        output_tokens: i64,
        reasoning_output_tokens: i64,
    },
}

/// An incremental change to a response item while it streams.
#[derive(Clone, Debug, PartialEq, Eq)]
pub enum ResponseItemDelta {
    MessageContent { item_id: Option<String>, delta: String },
    ReasoningContent { item_id: Option<String>, delta: String },
    ToolCallName { call_id: Option<String>, name: String },
    ToolCallArguments { call_id: Option<String>, delta: String },
    ToolCallStatus { call_id: Option<String>, status: ToolCallStatus },
    ToolOutput { call_id: Option<String>, delta: String },
}

/// The text delta of an assistant message.
pub fn response_text_delta(delta: &str) -> (r: ResponseItemDelta)
    ensures
        r matches ResponseItemDelta::MessageContent { item_id, delta: d } && item_id is None && d@
            == delta@,
{
    ResponseItemDelta::MessageContent { item_id: None, delta: owned(delta) }
}

/// Settings a turn runs with, as the protocol reports them.
#[derive(Clone, Debug, PartialEq, Eq)]
pub struct TurnMetadata {
    pub thread_id: ThreadId,
    pub turn_id: TurnId,
    pub cwd: String,
    pub session_id: Option<String>,
    pub model: Option<String>,
    pub provider: Option<String>,
    pub approval_mode: Option<String>,
    pub sandbox_mode: Option<String>,
    pub extra: Vec<(String, String)>,
}

/// One event of a streamed response.
#[derive(Clone, Debug, PartialEq, Eq)]
pub enum StreamEvent {
    ResponseStarted { thread_id: ThreadId, turn_id: TurnId, metadata: Option<TurnMetadata> },
    ItemStarted { thread_id: ThreadId, turn_id: TurnId, item: ResponseItem },
    ItemDelta { thread_id: ThreadId, turn_id: TurnId, delta: ResponseItemDelta },
    ItemCompleted { thread_id: ThreadId, turn_id: TurnId, item: ResponseItem },
    ResponseCompleted { thread_id: ThreadId, turn_id: TurnId, status: ResponseStatus },
    ResponseFailed { thread_id: ThreadId, turn_id: TurnId, message: String },
}

/// A thread's state, as the protocol reports it.
#[derive(Clone, Debug, PartialEq, Eq)]
pub struct ThreadState {
    pub thread_id: ThreadId,
    pub session_id: Option<String>,
    pub parent_thread_id: Option<ThreadId>,
    pub status: String,
    pub cwd: String,
    pub resume_source: Option<String>,
    pub child_depth: usize,
    pub data: Vec<(String, String)>,
}

/// A turn's state, as the protocol reports it.
#[derive(Clone, Debug, PartialEq, Eq)]
pub struct TurnState {
    pub phase: String,
    pub status: String,
    pub provider_status: String,
    pub tool_loop_status: String,
    pub cancellation_state: String,
    pub data: Vec<(String, String)>,
}

/// An event of the runtime event log.
#[derive(Clone, Debug, PartialEq, Eq)]
pub enum RuntimeEvent {
    ThreadStarted { thread_id: ThreadId },
    TurnStarted { thread_id: ThreadId, turn_id: TurnId },
    ThreadState { thread_id: ThreadId, state: ThreadState },
    TurnMetadata { thread_id: ThreadId, turn_id: TurnId, metadata: TurnMetadata },
    TurnState { thread_id: ThreadId, turn_id: TurnId, state: TurnState },
    DeepParityState {
        thread_id: ThreadId,
        turn_id: TurnId,
        layer: String,
        status: String,
        message: Option<String>,
        data: Vec<(String, String)>,
    },
    SandboxAttempt {
        thread_id: ThreadId,
        turn_id: TurnId,
        call_id: Option<String>,
        platform: String,
        status: String,
        backend: String,
        os_isolation: bool,
        enforcement: String,
        command: Option<String>,
        cwd: String,
        message: Option<String>,
    },
    ApprovalCacheState {
        thread_id: ThreadId,
        turn_id: TurnId,
        session_id: Option<String>,
        tool_name: String,
        key: String,
        decision: String,
        reused: bool,
    },
    Item { thread_id: ThreadId, turn_id: TurnId, item: ResponseItem },
    ItemDelta { thread_id: ThreadId, turn_id: TurnId, delta: ResponseItemDelta },
    ToolStarted { thread_id: ThreadId, turn_id: TurnId, call: ToolCall },
    ToolCompleted {
        thread_id: ThreadId,
        turn_id: TurnId,
        call_id: Option<String>,
        output: String,
        success: bool,
    },
    ApprovalRequested {
        thread_id: ThreadId,
        turn_id: TurnId,
        call_id: Option<String>,
        tool_name: String,
        reason: String,
    },
    ApprovalCompleted {
        thread_id: ThreadId,
        turn_id: TurnId,
        call_id: Option<String>,
        approved: bool,
        reason: Option<String>,
    },
    EscalationRequested {
        thread_id: ThreadId,
        turn_id: TurnId,
        call_id: Option<String>,
        tool_name: String,
        reason: String,
        required_sandbox: Option<String>,
        required_network: Option<String>,
    },
    EscalationCompleted {
        thread_id: ThreadId,
        turn_id: TurnId,
        call_id: Option<String>,
        approved: bool,
        reason: Option<String>,
    },
    McpSession {
        thread_id: ThreadId,
        turn_id: TurnId,
        server: String,
        status: String,
        message: Option<String>,
    },
    MultiAgent {
        thread_id: ThreadId,
        turn_id: TurnId,
        agent_id: String,
        parent_agent_id: Option<String>,
        status: String,
        message: Option<String>,
    },
    ChildAgent {
        thread_id: ThreadId,
        turn_id: TurnId,
        agent_id: String,
        child_session_id: String,
        parent_session_id: Option<String>,
        status: String,
        message: Option<String>,
    },
    ChildScopedStream {
        thread_id: ThreadId,
        turn_id: TurnId,
        agent_id: String,
        child_session_id: String,
        parent_session_id: Option<String>,
        event: String,
        seq: usize,
        message: Option<String>,
    },
    ContextStatus {
        thread_id: ThreadId,
        turn_id: TurnId,
        active_context_tokens: i64,
        token_limit_reached: bool,
        compacted: bool,
        dropped_messages: usize,
    },
    StorageState {
        thread_id: ThreadId,
        turn_id: TurnId,
        session_id: Option<String>,
        parent_session_id: Option<String>,
        rollout_items: usize,
        rollout_truncated: bool,
        child_session_ids: Vec<String>,
    },
    FileChanged { thread_id: ThreadId, turn_id: TurnId, path: String, kind: String },
    TurnCompleted { thread_id: ThreadId, turn_id: TurnId },
    Cancelled { thread_id: Option<ThreadId>, turn_id: Option<TurnId>, reason: Option<String> },
    ProviderError {
        thread_id: Option<ThreadId>,
        turn_id: Option<TurnId>,
        provider: String,
        status: Option<u16>,
        classification: String,
        message: String,
    },
    Error { thread_id: Option<ThreadId>, turn_id: Option<TurnId>, message: String },
}

// ---------------------------------------------------------------------------
// Streamed events by value
// ---------------------------------------------------------------------------

/// A response item by value.
pub enum ResponseItemView {
    Message { role: ProtocolRole, content: Seq<char> },
    AgentMessage { content: Seq<ContentItem> },
    Reasoning { content: Seq<char> },
    ReasoningItem { summary_text: Seq<String> },
    ToolCall { call: ToolCall },
    FunctionCall {
        id: Seq<char>,
        call_id: Seq<char>,
        name: Seq<char>,
        arguments: Seq<char>,
        status: ToolCallStatus,
    },
    McpToolCall {
        id: Seq<char>,
        call_id: Seq<char>,
        server: Seq<char>,
        tool: Seq<char>,
        arguments: Seq<char>,
        status: ToolCallStatus,
    },
    WebSearchCall { id: Seq<char>, query: Seq<char>, status: ToolCallStatus },
    Compaction { summary: Seq<char> },
    FunctionCallOutput { id: Seq<char>, call_id: Seq<char>, output: Seq<char> },
    Usage {
        input_tokens: i64,
        cached_input_tokens: i64,
        output_tokens: i64,
        reasoning_output_tokens: i64,
    },
}

pub open spec fn item_view(item: ResponseItem) -> ResponseItemView {
    match item {
        ResponseItem::Message { role, content } => ResponseItemView::Message {
            role,
            content: content@,
        },
        ResponseItem::AgentMessage { content } => ResponseItemView::AgentMessage {
            content: content@,
        },
        ResponseItem::Reasoning { content } => ResponseItemView::Reasoning { content: content@ },
        ResponseItem::ReasoningItem { summary_text } => ResponseItemView::ReasoningItem {
            summary_text: summary_text@,
        },
        ResponseItem::ToolCall { call } => ResponseItemView::ToolCall { call },
        ResponseItem::FunctionCall { id, call_id, name, arguments, status } =>
            ResponseItemView::FunctionCall {
            id: id@,
            call_id: call_id@,
            name: name@,
            arguments: arguments@,
            status,
        },
        ResponseItem::McpToolCall { id, call_id, server, tool, arguments, status } =>
            ResponseItemView::McpToolCall {
            id: id@,
            call_id: call_id@,
            server: server@,
            tool: tool@,
            arguments: arguments@,
            status,
        },
        ResponseItem::WebSearchCall { id, query, status } => ResponseItemView::WebSearchCall {
            id: id@,
            query: query@,
            status,
        },
        ResponseItem::Compaction { summary } => ResponseItemView::Compaction {
            summary: summary@,
        },
        ResponseItem::FunctionCallOutput { id, call_id, output } =>
            ResponseItemView::FunctionCallOutput { id: id@, call_id: call_id@, output: output@ },
        ResponseItem::Usage {
            input_tokens,
            cached_input_tokens,
            output_tokens,
            reasoning_output_tokens,
        } => ResponseItemView::Usage {
            input_tokens,
            cached_input_tokens,
            output_tokens,
            reasoning_output_tokens,
        },
    }
}

/// Turn metadata by value.
pub struct TurnMetadataView {
    pub thread: Seq<char>,
    pub turn: Seq<char>,
    pub cwd: Seq<char>,
    pub session_id: Option<String>,
    pub model: Option<String>,
    pub provider: Option<String>,
    pub approval_mode: Option<String>,
    pub sandbox_mode: Option<String>,
    pub extra: Seq<(String, String)>,
}

pub open spec fn metadata_view(m: Option<TurnMetadata>) -> Option<TurnMetadataView> {
    match m {
        Some(m) => Some(
            TurnMetadataView {
                thread: m.thread_id.0@,
                turn: m.turn_id.0@,
                cwd: m.cwd@,
                session_id: m.session_id,
                model: m.model,
                provider: m.provider,
                approval_mode: m.approval_mode,
                sandbox_mode: m.sandbox_mode,
                extra: m.extra@,
            },
        ),
        None => None,
    }
}

/// A delta by value.
pub enum DeltaView {
    MessageContent { item_id: Option<Seq<char>>, delta: Seq<char> },
    ReasoningContent { item_id: Option<Seq<char>>, delta: Seq<char> },
    ToolCallName { call_id: Option<Seq<char>>, name: Seq<char> },
    ToolCallArguments { call_id: Option<Seq<char>>, delta: Seq<char> },
    ToolCallStatus { call_id: Option<Seq<char>>, status: ToolCallStatus },
    ToolOutput { call_id: Option<Seq<char>>, delta: Seq<char> },
}

pub open spec fn delta_view(d: ResponseItemDelta) -> DeltaView {
    match d {
        ResponseItemDelta::MessageContent { item_id, delta } => DeltaView::MessageContent {
            item_id: opt_view(item_id),
            delta: delta@,
        },
        ResponseItemDelta::ReasoningContent { item_id, delta } => DeltaView::ReasoningContent {
            item_id: opt_view(item_id),
            delta: delta@,
        },
        ResponseItemDelta::ToolCallName { call_id, name } => DeltaView::ToolCallName {
            call_id: opt_view(call_id),
            name: name@,
        },
        ResponseItemDelta::ToolCallArguments { call_id, delta } => DeltaView::ToolCallArguments {
            call_id: opt_view(call_id),
            delta: delta@,
        },
        ResponseItemDelta::ToolCallStatus { call_id, status } => DeltaView::ToolCallStatus {
            call_id: opt_view(call_id),
            status,
        },
        ResponseItemDelta::ToolOutput { call_id, delta } => DeltaView::ToolOutput {
            call_id: opt_view(call_id),
            delta: delta@,
        },
    }
}

/// A stream event by value.
pub enum StreamEventView {
    ResponseStarted { thread: Seq<char>, turn: Seq<char>, metadata: Option<TurnMetadataView> },
    ItemStarted { thread: Seq<char>, turn: Seq<char>, item: ResponseItemView },
    ItemDelta { thread: Seq<char>, turn: Seq<char>, delta: DeltaView },
    ItemCompleted { thread: Seq<char>, turn: Seq<char>, item: ResponseItemView },
    ResponseCompleted { thread: Seq<char>, turn: Seq<char>, status: ResponseStatus },
    ResponseFailed { thread: Seq<char>, turn: Seq<char>, message: Seq<char> },
}

pub open spec fn event_view(e: StreamEvent) -> StreamEventView {
    match e {
        StreamEvent::ResponseStarted { thread_id, turn_id, metadata } =>
            StreamEventView::ResponseStarted {
            thread: thread_id.0@,
            turn: turn_id.0@,
            metadata: metadata_view(metadata),
        },
        StreamEvent::ItemStarted { thread_id, turn_id, item } => StreamEventView::ItemStarted {
            thread: thread_id.0@,
            turn: turn_id.0@,
            item: item_view(item),
        },
        StreamEvent::ItemDelta { thread_id, turn_id, delta } => StreamEventView::ItemDelta {
            thread: thread_id.0@,
            turn: turn_id.0@,
            delta: delta_view(delta),
        },
        StreamEvent::ItemCompleted { thread_id, turn_id, item } => StreamEventView::ItemCompleted {
            thread: thread_id.0@,
            turn: turn_id.0@,
            item: item_view(item),
        },
        StreamEvent::ResponseCompleted { thread_id, turn_id, status } =>
            StreamEventView::ResponseCompleted { thread: thread_id.0@, turn: turn_id.0@, status },
        StreamEvent::ResponseFailed { thread_id, turn_id, message } =>
            StreamEventView::ResponseFailed {
            thread: thread_id.0@,
            turn: turn_id.0@,
            message: message@,
        },
    }
}

pub open spec fn events_view(events: Seq<StreamEvent>) -> Seq<StreamEventView> {
    events.map_values(|e: StreamEvent| event_view(e))
}

// ---------------------------------------------------------------------------
// Copies
// ---------------------------------------------------------------------------

pub(crate) fn copy_strings(v: &Vec<String>) -> (r: Vec<String>)
    ensures
        r@ == v@,
{
    let mut out: Vec<String> = Vec::new();
    let mut i: usize = 0;
    while i < v.len()
        invariant
            i <= v@.len(),
            out@ == v@.take(i as int),
        decreases v@.len() - i,
    {
        out.push(v[i].clone());
        assert(out@ =~= v@.take(i + 1));
        i = i + 1;
    }
    assert(v@.take(i as int) =~= v@);
    out
}

pub(crate) fn copy_pairs(v: &Vec<(String, String)>) -> (r: Vec<(String, String)>)
    ensures
        r@ == v@,
{
    let mut out: Vec<(String, String)> = Vec::new();
    let mut i: usize = 0;
    while i < v.len()
        invariant
            i <= v@.len(),
            out@ == v@.take(i as int),
        decreases v@.len() - i,
    {
        out.push((v[i].0.clone(), v[i].1.clone()));
        assert(out@ =~= v@.take(i + 1));
        i = i + 1;
    }
    assert(v@.take(i as int) =~= v@);
    out
}

impl ContentItem {
    pub fn copy(&self) -> (r: ContentItem)
        ensures
            r == *self,
    {
        match self {
            ContentItem::InputText { text } => ContentItem::InputText { text: text.clone() },
            ContentItem::OutputText { text } => ContentItem::OutputText { text: text.clone() },
            ContentItem::InputImage { image_url } => ContentItem::InputImage {
                image_url: image_url.clone(),
            },
            ContentItem::LocalImage { path } => ContentItem::LocalImage { path: path.clone() },
        }
    }
}

fn copy_contents(v: &Vec<ContentItem>) -> (r: Vec<ContentItem>)
    ensures
        r@ == v@,
{
    let mut out: Vec<ContentItem> = Vec::new();
    let mut i: usize = 0;
    while i < v.len()
        invariant
            i <= v@.len(),
            out@ == v@.take(i as int),
        decreases v@.len() - i,
    {
        out.push(v[i].copy());
        assert(out@ =~= v@.take(i + 1));
        i = i + 1;
    }
    assert(v@.take(i as int) =~= v@);
    out
}

impl ThreadId {
    pub fn copy(&self) -> (r: ThreadId)
        ensures
            r == *self,
    {
        ThreadId(self.0.clone())
    }
}

impl TurnId {
    pub fn copy(&self) -> (r: TurnId)
        ensures
            r == *self,
    {
        TurnId(self.0.clone())
    }
}

impl ToolCall {
    pub fn copy(&self) -> (r: ToolCall)
        ensures
            r == *self,
    {
        match self {
            ToolCall::Shell { id, command } => ToolCall::Shell {
                id: opt_string_copy(id),
                command: command.clone(),
            },
            ToolCall::Patch { id, patch } => ToolCall::Patch {
                id: opt_string_copy(id),
                patch: patch.clone(),
            },
            ToolCall::Mcp { id, server, tool, arguments_json } => ToolCall::Mcp {
                id: opt_string_copy(id),
                server: server.clone(),
                tool: tool.clone(),
                arguments_json: opt_string_copy(arguments_json),
            },
            ToolCall::Skill { id, name, arguments_json } => ToolCall::Skill {
                id: opt_string_copy(id),
                name: name.clone(),
                arguments_json: opt_string_copy(arguments_json),
            },
            ToolCall::MultiAgent { id, action, arguments_json } => ToolCall::MultiAgent {
                id: opt_string_copy(id),
                action: action.clone(),
                arguments_json: opt_string_copy(arguments_json),
            },
            ToolCall::ToolSearch { id, query } => ToolCall::ToolSearch {
                id: opt_string_copy(id),
                query: query.clone(),
            },
            ToolCall::RequestUserInput { id, prompt } => ToolCall::RequestUserInput {
                id: opt_string_copy(id),
                prompt: prompt.clone(),
            },
            ToolCall::ViewImage { id, path } => ToolCall::ViewImage {
                id: opt_string_copy(id),
                path: path.clone(),
            },
        }
    }
}

impl ResponseItem {
    pub fn copy(&self) -> (r: ResponseItem)
        ensures
            item_view(r) == item_view(*self),
    {
        match self {
            ResponseItem::Message { role, content } => ResponseItem::Message {
                role: *role,
                content: content.clone(),
            },
            ResponseItem::AgentMessage { content } => ResponseItem::AgentMessage {
                content: copy_contents(content),
            },
            ResponseItem::Reasoning { content } => ResponseItem::Reasoning {
                content: content.clone(),
            },
            ResponseItem::ReasoningItem { summary_text } => ResponseItem::ReasoningItem {
                summary_text: copy_strings(summary_text),
            },
            ResponseItem::ToolCall { call } => ResponseItem::ToolCall { call: call.copy() },
            ResponseItem::FunctionCall { id, call_id, name, arguments, status } =>
                ResponseItem::FunctionCall {
                id: id.clone(),
                call_id: call_id.clone(),
                name: name.clone(),
                arguments: arguments.clone(),
                status: *status,
            },
            ResponseItem::McpToolCall { id, call_id, server, tool, arguments, status } =>
                ResponseItem::McpToolCall {
                id: id.clone(),
                call_id: call_id.clone(),
                server: server.clone(),
                tool: tool.clone(),
                arguments: arguments.clone(),
                status: *status,
            },
            ResponseItem::WebSearchCall { id, query, status } => ResponseItem::WebSearchCall {
                id: id.clone(),
                query: query.clone(),
                status: *status,
            },
            ResponseItem::Compaction { summary } => ResponseItem::Compaction {
                summary: summary.clone(),
            },
            ResponseItem::FunctionCallOutput { id, call_id, output } =>
                ResponseItem::FunctionCallOutput {
                id: id.clone(),
                call_id: call_id.clone(),
                output: output.clone(),
            },
            ResponseItem::Usage {
                input_tokens,
                cached_input_tokens,
                output_tokens,
                reasoning_output_tokens,
            } => ResponseItem::Usage {
                input_tokens: *input_tokens,
                cached_input_tokens: *cached_input_tokens,
                output_tokens: *output_tokens,
                reasoning_output_tokens: *reasoning_output_tokens,
            },
        }
    }
}

impl ResponseItemDelta {
    pub fn copy(&self) -> (r: ResponseItemDelta)
        ensures
            r == *self,
    {
        match self {
            ResponseItemDelta::MessageContent { item_id, delta } => ResponseItemDelta::MessageContent {
                item_id: opt_string_copy(item_id),
                delta: delta.clone(),
            },
            ResponseItemDelta::ReasoningContent { item_id, delta } =>
                ResponseItemDelta::ReasoningContent {
                item_id: opt_string_copy(item_id),
                delta: delta.clone(),
            },
            ResponseItemDelta::ToolCallName { call_id, name } => ResponseItemDelta::ToolCallName {
                call_id: opt_string_copy(call_id),
                name: name.clone(),
            },
            ResponseItemDelta::ToolCallArguments { call_id, delta } =>
                ResponseItemDelta::ToolCallArguments {
                call_id: opt_string_copy(call_id),
                delta: delta.clone(),
            },
            ResponseItemDelta::ToolCallStatus { call_id, status } =>
                ResponseItemDelta::ToolCallStatus { call_id: opt_string_copy(call_id), status: *status },
            ResponseItemDelta::ToolOutput { call_id, delta } => ResponseItemDelta::ToolOutput {
                call_id: opt_string_copy(call_id),
                delta: delta.clone(),
            },
        }
    }
}

impl TurnMetadata {
    pub fn copy(&self) -> (r: TurnMetadata)
        ensures
            metadata_view(Some(r)) == metadata_view(Some(*self)),
    {
        TurnMetadata {
            thread_id: self.thread_id.copy(),
            turn_id: self.turn_id.copy(),
            cwd: self.cwd.clone(),
            session_id: opt_string_copy(&self.session_id),
            model: opt_string_copy(&self.model),
            provider: opt_string_copy(&self.provider),
            approval_mode: opt_string_copy(&self.approval_mode),
            sandbox_mode: opt_string_copy(&self.sandbox_mode),
            extra: copy_pairs(&self.extra),
        }
    }
}

impl StreamEvent {
    pub fn copy(&self) -> (r: StreamEvent)
        ensures
            event_view(r) == event_view(*self),
    {
        match self {
            StreamEvent::ResponseStarted { thread_id, turn_id, metadata } =>
                StreamEvent::ResponseStarted {
                thread_id: thread_id.copy(),
                turn_id: turn_id.copy(),
                metadata: match metadata {
                    Some(m) => Some(m.copy()),
                    None => None,
                },
            },
            StreamEvent::ItemStarted { thread_id, turn_id, item } => StreamEvent::ItemStarted {
                thread_id: thread_id.copy(),
                turn_id: turn_id.copy(),
                item: item.copy(),
            },
            StreamEvent::ItemDelta { thread_id, turn_id, delta } => StreamEvent::ItemDelta {
                thread_id: thread_id.copy(),
                turn_id: turn_id.copy(),
                delta: delta.copy(),
            },
            StreamEvent::ItemCompleted { thread_id, turn_id, item } => StreamEvent::ItemCompleted {
                thread_id: thread_id.copy(),
                turn_id: turn_id.copy(),
                item: item.copy(),
            },
            StreamEvent::ResponseCompleted { thread_id, turn_id, status } =>
                StreamEvent::ResponseCompleted {
                thread_id: thread_id.copy(),
                turn_id: turn_id.copy(),
                status: *status,
            },
            StreamEvent::ResponseFailed { thread_id, turn_id, message } =>
                StreamEvent::ResponseFailed {
                thread_id: thread_id.copy(),
                turn_id: turn_id.copy(),
                message: message.clone(),
            },
        }
    }
}

/// A copy of the events from index `from` on.
pub fn copy_events_from(events: &Vec<StreamEvent>, from: usize) -> (r: Vec<StreamEvent>)
    requires
        from <= events@.len(),
    ensures
        events_view(r@) == events_view(events@).skip(from as int),
{
    let mut out: Vec<StreamEvent> = Vec::new();
    let mut i = from;
    while i < events.len()
        invariant
            from <= i <= events@.len(),
            events_view(out@) == events_view(events@).subrange(from as int, i as int),
        decreases events@.len() - i,
    {
        let ghost before = events_view(out@);
        out.push(events[i].copy());
        assert(events_view(out@) =~= before.push(event_view(events@[i as int])));
        assert(events_view(out@) =~= events_view(events@).subrange(from as int, i + 1));
        i = i + 1;
    }
    assert(events_view(events@).subrange(from as int, i as int) =~= events_view(events@).skip(
        from as int,
    ));
    out
}

} // verus!
