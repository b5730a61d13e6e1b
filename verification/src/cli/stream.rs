//! The runtime event stream that the command line writes as JSON lines: each
//! agent event becomes the protocol events that report it, on the thread and
//! turn of the run, with the thread and turn opened once, before the first
//! event that needs them.
use vstd::prelude::*;
use crate::agent::{
    AgentEvent, AgentRunStatus, CommandStatus, FileChangeKind, McpToolStatus, PatchStatus,
    ThreadRuntimeState, TurnRuntimeMetadata, TurnRuntimeState,
};
use crate::cli::errors::{dynamic_call_matches, dynamic_tool_call, ensure_protocol_turn_started};
use crate::keyed::keyed_insert;
use crate::protocol::{
    copy_pairs, copy_strings, ProtocolRole, ResponseItem, ResponseItemDelta, RuntimeEvent, ThreadId,
    ThreadState, ToolCall, ToolCallStatus, TurnId, TurnMetadata, TurnState,
};
use crate::request::{header_views, set_header};
use crate::text::{concat, decimal, opt_string_copy, opt_view, owned, signed_decimal, u64_to_decimal};

verus! {

// ---------------------------------------------------------------------------
// Names and texts
// ---------------------------------------------------------------------------

/// How a patch status is written (its variant's name).
pub open spec fn patch_status_name(s: PatchStatus) -> Seq<char> {
    match s {
        PatchStatus::InProgress => "InProgress"@,
        PatchStatus::Completed => "Completed"@,
        PatchStatus::Failed => "Failed"@,
    }
}

/// How an MCP tool status is written (its variant's name).
pub open spec fn mcp_status_name(s: McpToolStatus) -> Seq<char> {
    match s {
        McpToolStatus::InProgress => "InProgress"@,
        McpToolStatus::Completed => "Completed"@,
        McpToolStatus::Failed => "Failed"@,
    }
}

/// How a file change is written (its variant's name).
pub open spec fn file_change_name(k: FileChangeKind) -> Seq<char> {
    match k {
        FileChangeKind::Add => "Add"@,
        FileChangeKind::Delete => "Delete"@,
        FileChangeKind::Update => "Update"@,
        FileChangeKind::Move => "Move"@,
    }
}

/// The protocol status of an MCP tool status.
pub open spec fn mcp_call_status(s: McpToolStatus) -> ToolCallStatus {
    match s {
        McpToolStatus::Completed => ToolCallStatus::Completed,
        McpToolStatus::InProgress => ToolCallStatus::InProgress,
        McpToolStatus::Failed => ToolCallStatus::Failed,
    }
}

/// What this build's `{:?}` writes for an optional text: `None`, or `Some`
/// around the text quoted and escaped as `str::escape_debug` escapes it.
pub uninterp spec fn debug_text(o: Option<Seq<char>>) -> Seq<char>;

/// `<Option<String> as Debug>::fmt`, through `format!("{:?}", ..)`: the text
/// is `debug_text` of the optional text, and `None` for none.
#[verifier::external_body]
fn option_debug_text(o: &Option<String>) -> (r: String)
    ensures
        r@ == debug_text(opt_view(*o)),
        o is None ==> r@ == "None"@,
{
    format!("{:?}", o)
}

fn patch_status_text(s: PatchStatus) -> (r: &'static str)
    ensures
        r@ == patch_status_name(s),
{
    match s {
        PatchStatus::InProgress => "InProgress",
        PatchStatus::Completed => "Completed",
        PatchStatus::Failed => "Failed",
    }
}

fn mcp_status_text(s: McpToolStatus) -> (r: &'static str)
    ensures
        r@ == mcp_status_name(s),
{
    match s {
        McpToolStatus::InProgress => "InProgress",
        McpToolStatus::Completed => "Completed",
        McpToolStatus::Failed => "Failed",
    }
}

fn file_change_text(k: FileChangeKind) -> (r: &'static str)
    ensures
        r@ == file_change_name(k),
{
    match k {
        FileChangeKind::Add => "Add",
        FileChangeKind::Delete => "Delete",
        FileChangeKind::Update => "Update",
        FileChangeKind::Move => "Move",
    }
}

// ---------------------------------------------------------------------------
// The mapping, event by event
// ---------------------------------------------------------------------------

/// Where the stream stands: the thread that events are reported on, and
/// whether the thread and the turn have been opened.
pub struct StreamCursor {
    pub thread: ThreadId,
    pub thread_open: bool,
    pub turn_open: bool,
}

/// Events that open the thread and the turn before they are reported.
pub open spec fn needs_turn(e: AgentEvent) -> bool {
    ||| e is Started
    ||| e is TurnStarted
    ||| e is TurnMetadata
    ||| e is TurnState
    ||| e is DeepParityState
    ||| e is SandboxAttempt
    ||| e is ApprovalCacheState
}

/// The cursor after an event: a thread start or a thread state moves the
/// stream to that thread, which is then open; an event that needs the turn
/// leaves both open.
pub open spec fn cursor_after(c: StreamCursor, e: AgentEvent) -> StreamCursor {
    match e {
        AgentEvent::ThreadStarted { thread_id } => StreamCursor {
            thread: ThreadId(thread_id),
            thread_open: true,
            turn_open: c.turn_open,
        },
        AgentEvent::ThreadState { state } => StreamCursor {
            thread: ThreadId(state.thread_id),
            thread_open: true,
            turn_open: c.turn_open,
        },
        _ => if needs_turn(e) {
            StreamCursor { thread: c.thread, thread_open: true, turn_open: true }
        } else {
            c
        },
    }
}

/// What opens the stream before an event: for an event that needs the turn,
/// the thread start unless the thread is open, then the turn start unless the
/// turn is open; for a thread state, the start of its thread unless a thread
/// is open; nothing otherwise.
pub open spec fn openings(c: StreamCursor, e: AgentEvent, turn: TurnId) -> Seq<RuntimeEvent> {
    if needs_turn(e) {
        (if c.thread_open {
            Seq::empty()
        } else {
            seq![RuntimeEvent::ThreadStarted { thread_id: c.thread }]
        }) + (if c.turn_open {
            Seq::empty()
        } else {
            seq![RuntimeEvent::TurnStarted { thread_id: c.thread, turn_id: turn }]
        })
    } else {
        match e {
            AgentEvent::ThreadState { state } => if c.thread_open {
                Seq::empty()
            } else {
                seq![RuntimeEvent::ThreadStarted { thread_id: ThreadId(state.thread_id) }]
            },
            _ => Seq::empty(),
        }
    }
}

/// The protocol's optional parent thread of a thread state.
pub open spec fn parent_thread(p: Option<String>) -> Option<ThreadId> {
    match p {
        Some(id) => Some(ThreadId(id)),
        None => None,
    }
}

/// The protocol thread state that reports an agent's thread state.
pub open spec fn thread_state_matches(s: ThreadState, a: ThreadRuntimeState) -> bool {
    &&& s.thread_id == ThreadId(a.thread_id)
    &&& s.session_id == a.session_id
    &&& s.parent_thread_id == parent_thread(a.parent_thread_id)
    &&& s.status == a.status
    &&& s.cwd == a.cwd
    &&& s.resume_source == a.resume_source
    &&& s.child_depth == a.child_depth
    &&& s.data@ == a.data@
}

/// The protocol turn state that reports an agent's turn state.
pub open spec fn turn_state_matches(s: TurnState, a: TurnRuntimeState) -> bool {
    &&& s.phase == a.phase
    &&& s.status == a.status
    &&& s.provider_status == a.provider_status
    &&& s.tool_loop_status == a.tool_loop_status
    &&& s.cancellation_state == a.cancellation_state
    &&& s.data@ == a.data@
}

/// `value` under `key` in the keyed list `h`, when there is a value.
pub open spec fn keyed_insert_opt(
    h: Seq<(Seq<char>, Seq<char>)>,
    key: Seq<char>,
    value: Option<String>,
) -> Seq<(Seq<char>, Seq<char>)> {
    match value {
        Some(v) => keyed_insert(h, key, v@),
        None => h,
    }
}

/// The extra entries of reported turn metadata: the agent's own data, then
/// the context phase, resume source and cancellation state where known, and
/// the child depth, each set as a keyed entry.
pub open spec fn metadata_extra(m: TurnRuntimeMetadata) -> Seq<(Seq<char>, Seq<char>)> {
    let a = keyed_insert_opt(header_views(m.data@), "context_phase"@, m.context_phase);
    let b = keyed_insert_opt(a, "resume_source"@, m.resume_source);
    let c = keyed_insert_opt(b, "cancellation_state"@, m.cancellation_state);
    keyed_insert(c, "child_depth"@, decimal(m.child_depth as nat))
}

/// The protocol turn metadata that reports an agent's turn metadata on
/// thread `t` and turn `u`.
pub open spec fn metadata_matches(p: TurnMetadata, m: TurnRuntimeMetadata, t: ThreadId, u: TurnId) -> bool {
    &&& p.thread_id == t
    &&& p.turn_id == u
    &&& p.cwd == m.cwd
    &&& p.session_id == m.session_id
    &&& p.model == m.model
    &&& p.provider == m.provider
    &&& p.approval_mode == m.approval_mode
    &&& p.sandbox_mode == m.sandbox_mode
    &&& header_views(p.extra@) == metadata_extra(m)
}

/// The call id an MCP completion is reported under: its own, or `mcp`.
pub open spec fn mcp_call_id(id: Option<String>) -> Seq<char> {
    match id {
        Some(s) => s@,
        None => "mcp"@,
    }
}

/// The protocol events that report event `e` itself (after what opens the
/// stream), on thread `t` and turn `u`.
pub open spec fn body_matches(b: Seq<RuntimeEvent>, e: AgentEvent, t: ThreadId, u: TurnId) -> bool {
    match e {
        AgentEvent::ThreadStarted { thread_id } => b == seq![
            RuntimeEvent::ThreadStarted { thread_id: ThreadId(thread_id) },
        ],
        AgentEvent::ThreadState { state } => {
            &&& b.len() == 1
            &&& b[0] matches RuntimeEvent::ThreadState { thread_id, state: s }
            &&& thread_id == ThreadId(state.thread_id)
            &&& thread_state_matches(s, state)
        },
        AgentEvent::Started { prompt } => b == seq![
            RuntimeEvent::Item {
                thread_id: t,
                turn_id: u,
                item: ResponseItem::Message { role: ProtocolRole::User, content: prompt },
            },
        ],
        AgentEvent::TurnStarted => b.len() == 0,
        AgentEvent::TurnMetadata { metadata } => {
            &&& b.len() == 1
            &&& b[0] matches RuntimeEvent::TurnMetadata { thread_id, turn_id, metadata: p }
            &&& thread_id == t
            &&& turn_id == u
            &&& metadata_matches(p, metadata, t, u)
        },
        AgentEvent::TurnState { state } => {
            &&& b.len() == 1
            &&& b[0] matches RuntimeEvent::TurnState { thread_id, turn_id, state: s }
            &&& thread_id == t
            &&& turn_id == u
            &&& turn_state_matches(s, state)
        },
        AgentEvent::DeepParityState { layer, status, message, data } => {
            &&& b.len() == 1
            &&& b[0] matches RuntimeEvent::DeepParityState {
                thread_id,
                turn_id,
                layer: l,
                status: s,
                message: m,
                data: d,
            }
            &&& thread_id == t
            &&& turn_id == u
            &&& l == layer
            &&& s == status
            &&& m == message
            &&& d@ == data@
        },
        AgentEvent::SandboxAttempt {
            id,
            platform,
            status,
            backend,
            os_isolation,
            enforcement,
            command,
            cwd,
            message,
        } => b == seq![
            RuntimeEvent::SandboxAttempt {
                thread_id: t,
                turn_id: u,
                call_id: id,
                platform,
                status,
                backend,
                os_isolation,
                enforcement,
                command,
                cwd,
                message,
            },
        ],
        AgentEvent::ApprovalCacheState { session_id, tool_name, key, decision, reused } => b
            == seq![
            RuntimeEvent::ApprovalCacheState {
                thread_id: t,
                turn_id: u,
                session_id,
                tool_name,
                key,
                decision,
                reused,
            },
        ],
        AgentEvent::Message { content } => b == seq![
            RuntimeEvent::Item {
                thread_id: t,
                turn_id: u,
                item: ResponseItem::Message { role: ProtocolRole::Assistant, content },
            },
        ],
        AgentEvent::Reasoning { content } => b == seq![
            RuntimeEvent::Item { thread_id: t, turn_id: u, item: ResponseItem::Reasoning { content } },
        ],
        AgentEvent::CommandStarted { id, command } => b == seq![
            RuntimeEvent::ToolStarted {
                thread_id: t,
                turn_id: u,
                call: ToolCall::Shell { id, command },
            },
        ],
        AgentEvent::CommandUpdated { id, aggregated_output, .. } => b == seq![
            RuntimeEvent::ItemDelta {
                thread_id: t,
                turn_id: u,
                delta: ResponseItemDelta::ToolOutput { call_id: id, delta: aggregated_output },
            },
        ],
        AgentEvent::CommandCompleted { id, aggregated_output, status, .. } => b == seq![
            RuntimeEvent::ToolCompleted {
                thread_id: t,
                turn_id: u,
                call_id: id,
                output: aggregated_output,
                success: status == CommandStatus::Completed,
            },
        ],
        AgentEvent::CommandFinished { command, exit_code } => {
            &&& b.len() == 1
            &&& b[0] matches RuntimeEvent::ToolCompleted {
                thread_id,
                turn_id,
                call_id,
                output,
                success,
            }
            &&& thread_id == t
            &&& turn_id == u
            &&& call_id is None
            &&& output@ == command@ + " exited with "@ + signed_decimal(exit_code as int)
            &&& success == (exit_code == 0)
        },
        AgentEvent::FileChanged { path, kind } => {
            &&& b.len() == 1
            &&& b[0] matches RuntimeEvent::FileChanged { thread_id, turn_id, path: p, kind: k }
            &&& thread_id == t
            &&& turn_id == u
            &&& p == path
            &&& k@ == file_change_name(kind)
        },
        AgentEvent::PatchCompleted { status } => {
            &&& b.len() == 1
            &&& b[0] matches RuntimeEvent::Item { thread_id, turn_id, item }
            &&& thread_id == t
            &&& turn_id == u
            &&& item matches ResponseItem::FunctionCallOutput { id, call_id, output }
            &&& id@ == "patch"@
            &&& call_id@ == "patch"@
            &&& output@ == "patch status: "@ + patch_status_name(status)
        },
        AgentEvent::McpToolStarted { id, server, tool } => b == seq![
            RuntimeEvent::ToolStarted {
                thread_id: t,
                turn_id: u,
                call: ToolCall::Mcp { id, server, tool, arguments_json: None },
            },
        ],
        AgentEvent::McpToolCompleted { id, server, tool, status } => {
            &&& b.len() == 2
            &&& b[0] matches RuntimeEvent::ToolCompleted {
                thread_id,
                turn_id,
                call_id,
                output,
                success,
            }
            &&& thread_id == t
            &&& turn_id == u
            &&& call_id is Some
            &&& call_id->0@ == mcp_call_id(id)
            &&& output@ == server@ + "."@ + tool@ + " status: "@ + mcp_status_name(status)
            &&& success == (status == McpToolStatus::Completed)
            &&& b[1] matches RuntimeEvent::Item { thread_id: t2, turn_id: u2, item }
            &&& t2 == t
            &&& u2 == u
            &&& item matches ResponseItem::McpToolCall {
                id: i,
                call_id: c,
                server: sv,
                tool: tl,
                arguments,
                status: st,
            }
            &&& i@ == mcp_call_id(id)
            &&& c@ == mcp_call_id(id)
            &&& sv == server
            &&& tl == tool
            &&& arguments@ == Seq::<char>::empty()
            &&& st == mcp_call_status(status)
        },
        AgentEvent::ToolCallStarted { id, name, arguments_json } => {
            &&& b.len() == 1
            &&& b[0] matches RuntimeEvent::ToolStarted { thread_id, turn_id, call }
            &&& thread_id == t
            &&& turn_id == u
            &&& dynamic_call_matches(call, id, name@, arguments_json)
        },
        AgentEvent::ToolCallCompleted { id, name, output, status } => {
            &&& b.len() == 1
            &&& b[0] matches RuntimeEvent::ToolCompleted {
                thread_id,
                turn_id,
                call_id,
                output: o,
                success,
            }
            &&& thread_id == t
            &&& turn_id == u
            &&& call_id == id
            &&& o@ == name@ + ": "@ + output@
            &&& success == (status == CommandStatus::Completed)
        },
        AgentEvent::ApprovalRequested { id, tool_name, reason } => b == seq![
            RuntimeEvent::ApprovalRequested { thread_id: t, turn_id: u, call_id: id, tool_name, reason },
        ],
        AgentEvent::ApprovalCompleted { id, approved, reason } => b == seq![
            RuntimeEvent::ApprovalCompleted { thread_id: t, turn_id: u, call_id: id, approved, reason },
        ],
        AgentEvent::EscalationRequested {
            id,
            tool_name,
            reason,
            required_sandbox,
            required_network,
        } => b == seq![
            RuntimeEvent::EscalationRequested {
                thread_id: t,
                turn_id: u,
                call_id: id,
                tool_name,
                reason,
                required_sandbox,
                required_network,
            },
        ],
        AgentEvent::EscalationCompleted { id, approved, reason } => b == seq![
            RuntimeEvent::EscalationCompleted {
                thread_id: t,
                turn_id: u,
                call_id: id,
                approved,
                reason,
            },
        ],
        AgentEvent::McpSession { server, status, message } => b == seq![
            RuntimeEvent::McpSession { thread_id: t, turn_id: u, server, status, message },
        ],
        AgentEvent::MultiAgentEvent { agent_id, parent_agent_id, status, message } => b == seq![
            RuntimeEvent::MultiAgent {
                thread_id: t,
                turn_id: u,
                agent_id,
                parent_agent_id,
                status,
                message,
            },
        ],
        AgentEvent::ChildAgentEvent {
            agent_id,
            child_session_id,
            parent_session_id,
            status,
            message,
        } => b == seq![
            RuntimeEvent::ChildAgent {
                thread_id: t,
                turn_id: u,
                agent_id,
                child_session_id,
                parent_session_id,
                status,
                message,
            },
        ],
        AgentEvent::ChildScopedStream {
            agent_id,
            child_session_id,
            parent_session_id,
            event,
            seq,
            message,
        } => b == seq![
            RuntimeEvent::ChildScopedStream {
                thread_id: t,
                turn_id: u,
                agent_id,
                child_session_id,
                parent_session_id,
                event,
                seq,
                message,
            },
        ],
        AgentEvent::ContextStatus {
            active_context_tokens,
            token_limit_reached,
            compacted,
            dropped_messages,
        } => b == seq![
            RuntimeEvent::ContextStatus {
                thread_id: t,
                turn_id: u,
                active_context_tokens,
                token_limit_reached,
                compacted,
                dropped_messages,
            },
        ],
        AgentEvent::StorageState {
            session_id,
            parent_session_id,
            rollout_items,
            rollout_truncated,
            child_session_ids,
        } => {
            &&& b.len() == 1
            &&& b[0] matches RuntimeEvent::StorageState {
                thread_id,
                turn_id,
                session_id: s,
                parent_session_id: p,
                rollout_items: n,
                rollout_truncated: tr,
                child_session_ids: c,
            }
            &&& thread_id == t
            &&& turn_id == u
            &&& s == session_id
            &&& p == parent_session_id
            &&& n == rollout_items
            &&& tr == rollout_truncated
            &&& c@ == child_session_ids@
        },
        AgentEvent::TodoUpdated { id, items } => {
            &&& b.len() == 1
            &&& b[0] matches RuntimeEvent::Item { thread_id, turn_id, item }
            &&& thread_id == t
            &&& turn_id == u
            &&& item matches ResponseItem::Reasoning { content }
            &&& content@ == "todo updated "@ + debug_text(opt_view(id)) + ": "@ + decimal(
                items@.len(),
            ) + " item(s)"@
        },
        AgentEvent::Warning { message } => b == seq![
            RuntimeEvent::Error { thread_id: Some(t), turn_id: Some(u), message },
        ],
        AgentEvent::Error { message } => b == seq![
            RuntimeEvent::Error { thread_id: Some(t), turn_id: Some(u), message },
        ],
        AgentEvent::Cancelled { reason } => b == seq![
            RuntimeEvent::Cancelled { thread_id: Some(t), turn_id: Some(u), reason },
        ],
        AgentEvent::ProviderError { provider, status, classification, message } => b == seq![
            RuntimeEvent::ProviderError {
                thread_id: Some(t),
                turn_id: Some(u),
                provider,
                status,
                classification,
                message,
            },
        ],
        AgentEvent::Completed { status, .. } => {
            &&& b.len() >= 1
            &&& b[0] == RuntimeEvent::TurnCompleted { thread_id: t, turn_id: u }
            &&& match status {
                AgentRunStatus::Completed => b.len() == 1,
                AgentRunStatus::Failed => {
                    &&& b.len() == 2
                    &&& b[1] matches RuntimeEvent::Error { thread_id, turn_id, message }
                    &&& thread_id == Some(t)
                    &&& turn_id == Some(u)
                    &&& message@ == "agent run failed"@
                },
                AgentRunStatus::Cancelled => {
                    &&& b.len() == 2
                    &&& b[1] matches RuntimeEvent::Cancelled { thread_id, turn_id, reason }
                    &&& thread_id == Some(t)
                    &&& turn_id == Some(u)
                    &&& reason is Some
                    &&& reason->0@ == "agent run cancelled"@
                },
            }
        },
    }
}

/// The protocol events for one agent event from cursor `c`: what opens the
/// stream, then the event's own report on the thread after it.
pub open spec fn event_emits(seg: Seq<RuntimeEvent>, e: AgentEvent, c: StreamCursor, u: TurnId) -> bool {
    let open = openings(c, e, u);
    &&& seg.len() >= open.len()
    &&& seg.take(open.len() as int) == open
    &&& body_matches(seg.skip(open.len() as int), e, cursor_after(c, e).thread, u)
}

/// The cursor after a run of events, from thread `t0` with nothing open.
pub open spec fn cursor_of(events: Seq<AgentEvent>, t0: ThreadId) -> StreamCursor
    decreases events.len(),
{
    if events.len() == 0 {
        StreamCursor { thread: t0, thread_open: false, turn_open: false }
    } else {
        cursor_after(cursor_of(events.drop_last(), t0), events.last())
    }
}

/// How many protocol events report an event itself: none for a turn start,
/// two for an MCP completion and for a run that failed or was cancelled, one
/// otherwise.
pub open spec fn body_len(e: AgentEvent) -> int {
    match e {
        AgentEvent::TurnStarted => 0,
        AgentEvent::McpToolCompleted { .. } => 2,
        AgentEvent::Completed { status, .. } => if status == AgentRunStatus::Completed {
            1
        } else {
            2
        },
        _ => 1,
    }
}

/// The runtime events for a run of agent events, from thread `t0` on turn
/// `u`: the reports of the events one after another, each event's as
/// `event_emits` gives it from where the events before it left the stream.
pub open spec fn runtime_events_from(
    r: Seq<RuntimeEvent>,
    events: Seq<AgentEvent>,
    t0: ThreadId,
    u: TurnId,
) -> bool
    decreases events.len(),
{
    if events.len() == 0 {
        r.len() == 0
    } else {
        let c = cursor_of(events.drop_last(), t0);
        let e = events.last();
        let k = r.len() - (openings(c, e, u).len() + body_len(e));
        &&& 0 <= k
        &&& runtime_events_from(r.take(k), events.drop_last(), t0, u)
        &&& event_emits(r.skip(k), e, c, u)
    }
}

/// The runtime events for a run of agent events on the command line: thread
/// `cli-thread` (until the events name another) and turn `cli-turn`.
pub open spec fn runtime_events_match(r: Seq<RuntimeEvent>, events: Seq<AgentEvent>) -> bool {
    exists|t0: ThreadId, u: TurnId|
        t0.0@ == "cli-thread"@ && u.0@ == "cli-turn"@ && #[trigger] runtime_events_from(
            r,
            events,
            t0,
            u,
        )
}

// ---------------------------------------------------------------------------
// Building the stream
// ---------------------------------------------------------------------------

fn needs_turn_exec(e: &AgentEvent) -> (r: bool)
    ensures
        r == needs_turn(*e),
{
    match e {
        AgentEvent::Started { .. } => true,
        AgentEvent::TurnStarted => true,
        AgentEvent::TurnMetadata { .. } => true,
        AgentEvent::TurnState { .. } => true,
        AgentEvent::DeepParityState { .. } => true,
        AgentEvent::SandboxAttempt { .. } => true,
        AgentEvent::ApprovalCacheState { .. } => true,
        _ => false,
    }
}

fn protocol_thread_state(a: &ThreadRuntimeState) -> (s: ThreadState)
    ensures
        thread_state_matches(s, *a),
{
    ThreadState {
        thread_id: ThreadId(a.thread_id.clone()),
        session_id: opt_string_copy(&a.session_id),
        parent_thread_id: match &a.parent_thread_id {
            Some(id) => Some(ThreadId(id.clone())),
            None => None,
        },
        status: a.status.clone(),
        cwd: a.cwd.clone(),
        resume_source: opt_string_copy(&a.resume_source),
        child_depth: a.child_depth,
        data: copy_pairs(&a.data),
    }
}

fn protocol_turn_state(a: &TurnRuntimeState) -> (s: TurnState)
    ensures
        turn_state_matches(s, *a),
{
    TurnState {
        phase: a.phase.clone(),
        status: a.status.clone(),
        provider_status: a.provider_status.clone(),
        tool_loop_status: a.tool_loop_status.clone(),
        cancellation_state: a.cancellation_state.clone(),
        data: copy_pairs(&a.data),
    }
}

fn set_optional_entry(extra: &mut Vec<(String, String)>, key: &str, value: &Option<String>)
    ensures
        header_views(final(extra)@) == keyed_insert_opt(header_views(old(extra)@), key@, *value),
{
    match value {
        Some(v) => set_header(extra, key, v.clone()),
        None => {},
    }
}

fn protocol_metadata(m: &TurnRuntimeMetadata, t: &ThreadId, u: &TurnId) -> (p: TurnMetadata)
    ensures
        metadata_matches(p, *m, *t, *u),
{
    let mut extra = copy_pairs(&m.data);
    set_optional_entry(&mut extra, "context_phase", &m.context_phase);
    set_optional_entry(&mut extra, "resume_source", &m.resume_source);
    set_optional_entry(&mut extra, "cancellation_state", &m.cancellation_state);
    set_header(&mut extra, "child_depth", u64_to_decimal(m.child_depth as u64));
    TurnMetadata {
        thread_id: t.copy(),
        turn_id: u.copy(),
        cwd: m.cwd.clone(),
        session_id: opt_string_copy(&m.session_id),
        model: opt_string_copy(&m.model),
        provider: opt_string_copy(&m.provider),
        approval_mode: opt_string_copy(&m.approval_mode),
        sandbox_mode: opt_string_copy(&m.sandbox_mode),
        extra,
    }
}

/// The protocol events that report one agent event on thread `t` and turn
/// `u`; see `body_matches`.
#[verifier::rlimit(40)]
fn event_body(e: &AgentEvent, t: &ThreadId, u: &TurnId) -> (b: Vec<RuntimeEvent>)
    ensures
        body_matches(b@, *e, *t, *u),
{
    proof {
        reveal_strlit("patch");
        reveal_strlit("mcp");
        reveal_strlit("");
        reveal_strlit("agent run failed");
        reveal_strlit("agent run cancelled");
    }
    match e {
        AgentEvent::ThreadStarted { thread_id } => {
            let b = vec![RuntimeEvent::ThreadStarted { thread_id: ThreadId(thread_id.clone()) }];
            assert(b@ =~= seq![b@[0]]);
            b
        },
        AgentEvent::ThreadState { state } => {
            let b = vec![
                RuntimeEvent::ThreadState {
                    thread_id: ThreadId(state.thread_id.clone()),
                    state: protocol_thread_state(state),
                },
            ];
            assert(b@ =~= seq![b@[0]]);
            b
        },
        AgentEvent::Started { prompt } => {
            let b = vec![
                RuntimeEvent::Item {
                    thread_id: t.copy(),
                    turn_id: u.copy(),
                    item: ResponseItem::Message { role: ProtocolRole::User, content: prompt.clone() },
                },
            ];
            assert(b@ =~= seq![b@[0]]);
            b
        },
        AgentEvent::TurnStarted => Vec::new(),
        AgentEvent::TurnMetadata { metadata } => {
            let b = vec![
                RuntimeEvent::TurnMetadata {
                    thread_id: t.copy(),
                    turn_id: u.copy(),
                    metadata: protocol_metadata(metadata, t, u),
                },
            ];
            assert(b@ =~= seq![b@[0]]);
            b
        },
        AgentEvent::TurnState { state } => {
            let b = vec![
                RuntimeEvent::TurnState {
                    thread_id: t.copy(),
                    turn_id: u.copy(),
                    state: protocol_turn_state(state),
                },
            ];
            assert(b@ =~= seq![b@[0]]);
            b
        },
        AgentEvent::DeepParityState { layer, status, message, data } => {
            let b = vec![
                RuntimeEvent::DeepParityState {
                    thread_id: t.copy(),
                    turn_id: u.copy(),
                    layer: layer.clone(),
                    status: status.clone(),
                    message: opt_string_copy(message),
                    data: copy_pairs(data),
                },
            ];
            assert(b@ =~= seq![b@[0]]);
            b
        },
        AgentEvent::SandboxAttempt {
            id,
            platform,
            status,
            backend,
            os_isolation,
            enforcement,
            command,
            cwd,
            message,
        } => {
            let b = vec![
                RuntimeEvent::SandboxAttempt {
                    thread_id: t.copy(),
                    turn_id: u.copy(),
                    call_id: opt_string_copy(id),
                    platform: platform.clone(),
                    status: status.clone(),
                    backend: backend.clone(),
                    os_isolation: *os_isolation,
                    enforcement: enforcement.clone(),
                    command: opt_string_copy(command),
                    cwd: cwd.clone(),
                    message: opt_string_copy(message),
                },
            ];
            assert(b@ =~= seq![b@[0]]);
            b
        },
        AgentEvent::ApprovalCacheState { session_id, tool_name, key, decision, reused } => {
            let b = vec![
                RuntimeEvent::ApprovalCacheState {
                    thread_id: t.copy(),
                    turn_id: u.copy(),
                    session_id: opt_string_copy(session_id),
                    tool_name: tool_name.clone(),
                    key: key.clone(),
                    decision: decision.clone(),
                    reused: *reused,
                },
            ];
            assert(b@ =~= seq![b@[0]]);
            b
        },
        AgentEvent::Message { content } => {
            let b = vec![
                RuntimeEvent::Item {
                    thread_id: t.copy(),
                    turn_id: u.copy(),
                    item: ResponseItem::Message {
                        role: ProtocolRole::Assistant,
                        content: content.clone(),
                    },
                },
            ];
            assert(b@ =~= seq![b@[0]]);
            b
        },
        AgentEvent::Reasoning { content } => {
            let b = vec![
                RuntimeEvent::Item {
                    thread_id: t.copy(),
                    turn_id: u.copy(),
                    item: ResponseItem::Reasoning { content: content.clone() },
                },
            ];
            assert(b@ =~= seq![b@[0]]);
            b
        },
        AgentEvent::CommandStarted { id, command } => {
            let b = vec![
                RuntimeEvent::ToolStarted {
                    thread_id: t.copy(),
                    turn_id: u.copy(),
                    call: ToolCall::Shell { id: opt_string_copy(id), command: command.clone() },
                },
            ];
            assert(b@ =~= seq![b@[0]]);
            b
        },
        AgentEvent::CommandUpdated { id, aggregated_output, .. } => {
            let b = vec![
                RuntimeEvent::ItemDelta {
                    thread_id: t.copy(),
                    turn_id: u.copy(),
                    delta: ResponseItemDelta::ToolOutput {
                        call_id: opt_string_copy(id),
                        delta: aggregated_output.clone(),
                    },
                },
            ];
            assert(b@ =~= seq![b@[0]]);
            b
        },
        AgentEvent::CommandCompleted { id, aggregated_output, status, .. } => {
            let b = vec![
                RuntimeEvent::ToolCompleted {
                    thread_id: t.copy(),
                    turn_id: u.copy(),
                    call_id: opt_string_copy(id),
                    output: aggregated_output.clone(),
                    success: *status == CommandStatus::Completed,
                },
            ];
            assert(b@ =~= seq![b@[0]]);
            b
        },
        AgentEvent::CommandFinished { command, exit_code } => {
            let head = concat(command.as_str(), " exited with ");
            let code = crate::text::i64_to_decimal(*exit_code as i64);
            let output = concat(head.as_str(), code.as_str());
            let b = vec![
                RuntimeEvent::ToolCompleted {
                    thread_id: t.copy(),
                    turn_id: u.copy(),
                    call_id: None,
                    output,
                    success: *exit_code == 0,
                },
            ];
            assert(b@ =~= seq![b@[0]]);
            b
        },
        AgentEvent::FileChanged { path, kind } => {
            let b = vec![
                RuntimeEvent::FileChanged {
                    thread_id: t.copy(),
                    turn_id: u.copy(),
                    path: path.clone(),
                    kind: owned(file_change_text(*kind)),
                },
            ];
            assert(b@ =~= seq![b@[0]]);
            b
        },
        AgentEvent::PatchCompleted { status } => {
            let b = vec![
                RuntimeEvent::Item {
                    thread_id: t.copy(),
                    turn_id: u.copy(),
                    item: ResponseItem::FunctionCallOutput {
                        id: owned("patch"),
                        call_id: owned("patch"),
                        output: concat("patch status: ", patch_status_text(*status)),
                    },
                },
            ];
            assert(b@ =~= seq![b@[0]]);
            b
        },
        AgentEvent::McpToolStarted { id, server, tool } => {
            let b = vec![
                RuntimeEvent::ToolStarted {
                    thread_id: t.copy(),
                    turn_id: u.copy(),
                    call: ToolCall::Mcp {
                        id: opt_string_copy(id),
                        server: server.clone(),
                        tool: tool.clone(),
                        arguments_json: None,
                    },
                },
            ];
            assert(b@ =~= seq![b@[0]]);
            b
        },
        AgentEvent::McpToolCompleted { id, server, tool, status } => {
            let call_id = match id {
                Some(s) => s.clone(),
                None => owned("mcp"),
            };
            let protocol_status = match status {
                McpToolStatus::Completed => ToolCallStatus::Completed,
                McpToolStatus::InProgress => ToolCallStatus::InProgress,
                McpToolStatus::Failed => ToolCallStatus::Failed,
            };
            let head = concat(server.as_str(), ".");
            let named = concat(head.as_str(), tool.as_str());
            let tail = concat(" status: ", mcp_status_text(*status));
            let output = concat(named.as_str(), tail.as_str());
            assert(output@ =~= server@ + "."@ + tool@ + " status: "@ + mcp_status_name(*status));
            let b = vec![
                RuntimeEvent::ToolCompleted {
                    thread_id: t.copy(),
                    turn_id: u.copy(),
                    call_id: Some(call_id.clone()),
                    output,
                    success: *status == McpToolStatus::Completed,
                },
                RuntimeEvent::Item {
                    thread_id: t.copy(),
                    turn_id: u.copy(),
                    item: ResponseItem::McpToolCall {
                        id: call_id.clone(),
                        call_id,
                        server: server.clone(),
                        tool: tool.clone(),
                        arguments: owned(""),
                        status: protocol_status,
                    },
                },
            ];
            assert(b@ =~= seq![b@[0], b@[1]]);
            assert(b@[1]->item->McpToolCall_arguments@ =~= Seq::<char>::empty());
            assert(b@[0]->ToolCompleted_output@ == server@ + "."@ + tool@ + " status: "@ + mcp_status_name(*status));
            assert(b@[0]->ToolCompleted_thread_id == *t);
            b
        },
        AgentEvent::ToolCallStarted { id, name, arguments_json } => {
            let b = vec![
                RuntimeEvent::ToolStarted {
                    thread_id: t.copy(),
                    turn_id: u.copy(),
                    call: dynamic_tool_call(
                        opt_string_copy(id),
                        name.as_str(),
                        opt_string_copy(arguments_json),
                    ),
                },
            ];
            assert(b@ =~= seq![b@[0]]);
            b
        },
        AgentEvent::ToolCallCompleted { id, name, output, status } => {
            let head = concat(name.as_str(), ": ");
            let b = vec![
                RuntimeEvent::ToolCompleted {
                    thread_id: t.copy(),
                    turn_id: u.copy(),
                    call_id: opt_string_copy(id),
                    output: concat(head.as_str(), output.as_str()),
                    success: *status == CommandStatus::Completed,
                },
            ];
            assert(b@ =~= seq![b@[0]]);
            b
        },
        AgentEvent::ApprovalRequested { id, tool_name, reason } => {
            let b = vec![
                RuntimeEvent::ApprovalRequested {
                    thread_id: t.copy(),
                    turn_id: u.copy(),
                    call_id: opt_string_copy(id),
                    tool_name: tool_name.clone(),
                    reason: reason.clone(),
                },
            ];
            assert(b@ =~= seq![b@[0]]);
            b
        },
        AgentEvent::ApprovalCompleted { id, approved, reason } => {
            let b = vec![
                RuntimeEvent::ApprovalCompleted {
                    thread_id: t.copy(),
                    turn_id: u.copy(),
                    call_id: opt_string_copy(id),
                    approved: *approved,
                    reason: opt_string_copy(reason),
                },
            ];
            assert(b@ =~= seq![b@[0]]);
            b
        },
        AgentEvent::EscalationRequested {
            id,
            tool_name,
            reason,
            required_sandbox,
            required_network,
        } => {
            let b = vec![
                RuntimeEvent::EscalationRequested {
                    thread_id: t.copy(),
                    turn_id: u.copy(),
                    call_id: opt_string_copy(id),
                    tool_name: tool_name.clone(),
                    reason: reason.clone(),
                    required_sandbox: opt_string_copy(required_sandbox),
                    required_network: opt_string_copy(required_network),
                },
            ];
            assert(b@ =~= seq![b@[0]]);
            b
        },
        AgentEvent::EscalationCompleted { id, approved, reason } => {
            let b = vec![
                RuntimeEvent::EscalationCompleted {
                    thread_id: t.copy(),
                    turn_id: u.copy(),
                    call_id: opt_string_copy(id),
                    approved: *approved,
                    reason: opt_string_copy(reason),
                },
            ];
            assert(b@ =~= seq![b@[0]]);
            b
        },
        AgentEvent::McpSession { server, status, message } => {
            let b = vec![
                RuntimeEvent::McpSession {
                    thread_id: t.copy(),
                    turn_id: u.copy(),
                    server: server.clone(),
                    status: status.clone(),
                    message: opt_string_copy(message),
                },
            ];
            assert(b@ =~= seq![b@[0]]);
            b
        },
        AgentEvent::MultiAgentEvent { agent_id, parent_agent_id, status, message } => {
            let b = vec![
                RuntimeEvent::MultiAgent {
                    thread_id: t.copy(),
                    turn_id: u.copy(),
                    agent_id: agent_id.clone(),
                    parent_agent_id: opt_string_copy(parent_agent_id),
                    status: status.clone(),
                    message: opt_string_copy(message),
                },
            ];
            assert(b@ =~= seq![b@[0]]);
            b
        },
        AgentEvent::ChildAgentEvent {
            agent_id,
            child_session_id,
            parent_session_id,
            status,
            message,
        } => {
            let b = vec![
                RuntimeEvent::ChildAgent {
                    thread_id: t.copy(),
                    turn_id: u.copy(),
                    agent_id: agent_id.clone(),
                    child_session_id: child_session_id.clone(),
                    parent_session_id: opt_string_copy(parent_session_id),
                    status: status.clone(),
                    message: opt_string_copy(message),
                },
            ];
            assert(b@ =~= seq![b@[0]]);
            b
        },
        AgentEvent::ChildScopedStream {
            agent_id,
            child_session_id,
            parent_session_id,
            event,
            seq,
            message,
        } => {
            let b = vec![
                RuntimeEvent::ChildScopedStream {
                    thread_id: t.copy(),
                    turn_id: u.copy(),
                    agent_id: agent_id.clone(),
                    child_session_id: child_session_id.clone(),
                    parent_session_id: opt_string_copy(parent_session_id),
                    event: event.clone(),
                    seq: *seq,
                    message: opt_string_copy(message),
                },
            ];
            assert(b@ =~= seq![b@[0]]);
            b
        },
        AgentEvent::ContextStatus {
            active_context_tokens,
            token_limit_reached,
            compacted,
            dropped_messages,
        } => {
            let b = vec![
                RuntimeEvent::ContextStatus {
                    thread_id: t.copy(),
                    turn_id: u.copy(),
                    active_context_tokens: *active_context_tokens,
                    token_limit_reached: *token_limit_reached,
                    compacted: *compacted,
                    dropped_messages: *dropped_messages,
                },
            ];
            assert(b@ =~= seq![b@[0]]);
            b
        },
        AgentEvent::StorageState {
            session_id,
            parent_session_id,
            rollout_items,
            rollout_truncated,
            child_session_ids,
        } => {
            let b = vec![
                RuntimeEvent::StorageState {
                    thread_id: t.copy(),
                    turn_id: u.copy(),
                    session_id: opt_string_copy(session_id),
                    parent_session_id: opt_string_copy(parent_session_id),
                    rollout_items: *rollout_items,
                    rollout_truncated: *rollout_truncated,
                    child_session_ids: copy_strings(child_session_ids),
                },
            ];
            assert(b@ =~= seq![b@[0]]);
            b
        },
        AgentEvent::TodoUpdated { id, items } => {
            let a = concat("todo updated ", option_debug_text(id).as_str());
            let b = concat(a.as_str(), ": ");
            let n = u64_to_decimal(items.len() as u64);
            let c = concat(b.as_str(), n.as_str());
            let content = concat(c.as_str(), " item(s)");
            let b = vec![
                RuntimeEvent::Item {
                    thread_id: t.copy(),
                    turn_id: u.copy(),
                    item: ResponseItem::Reasoning { content },
                },
            ];
            assert(b@ =~= seq![b@[0]]);
            b
        },
        AgentEvent::Warning { message } => {
            let b = vec![
                RuntimeEvent::Error {
                    thread_id: Some(t.copy()),
                    turn_id: Some(u.copy()),
                    message: message.clone(),
                },
            ];
            assert(b@ =~= seq![b@[0]]);
            b
        },
        AgentEvent::Error { message } => {
            let b = vec![
                RuntimeEvent::Error {
                    thread_id: Some(t.copy()),
                    turn_id: Some(u.copy()),
                    message: message.clone(),
                },
            ];
            assert(b@ =~= seq![b@[0]]);
            b
        },
        AgentEvent::Cancelled { reason } => {
            let b = vec![
                RuntimeEvent::Cancelled {
                    thread_id: Some(t.copy()),
                    turn_id: Some(u.copy()),
                    reason: opt_string_copy(reason),
                },
            ];
            assert(b@ =~= seq![b@[0]]);
            b
        },
        AgentEvent::ProviderError { provider, status, classification, message } => {
            let b = vec![
                RuntimeEvent::ProviderError {
                    thread_id: Some(t.copy()),
                    turn_id: Some(u.copy()),
                    provider: provider.clone(),
                    status: *status,
                    classification: classification.clone(),
                    message: message.clone(),
                },
            ];
            assert(b@ =~= seq![b@[0]]);
            b
        },
        AgentEvent::Completed { status, .. } => {
            let mut b = vec![RuntimeEvent::TurnCompleted { thread_id: t.copy(), turn_id: u.copy() }];
            match status {
                AgentRunStatus::Failed => {
                    b.push(
                        RuntimeEvent::Error {
                            thread_id: Some(t.copy()),
                            turn_id: Some(u.copy()),
                            message: owned("agent run failed"),
                        },
                    );
                },
                AgentRunStatus::Cancelled => {
                    b.push(
                        RuntimeEvent::Cancelled {
                            thread_id: Some(t.copy()),
                            turn_id: Some(u.copy()),
                            reason: Some(owned("agent run cancelled")),
                        },
                    );
                },
                AgentRunStatus::Completed => {},
            }
            b
        },
    }
}


/// The runtime events for `events`, from thread `thread0` on turn `turn`.
fn protocol_events_with(events: &[AgentEvent], thread0: ThreadId, turn: TurnId) -> (r: Vec<
    RuntimeEvent,
>)
    ensures
        runtime_events_from(r@, events@, thread0, turn),
{
    let ghost t0 = thread0;
    let mut thread_id = thread0;
    let mut output: Vec<RuntimeEvent> = Vec::new();
    let mut emitted_thread = false;
    let mut emitted_turn = false;
    let mut i: usize = 0;
    assert(events@.take(0) =~= Seq::<AgentEvent>::empty());
    while i < events.len()
        invariant
            i <= events@.len(),
            runtime_events_from(output@, events@.take(i as int), t0, turn),
            cursor_of(events@.take(i as int), t0) == (StreamCursor {
                thread: thread_id,
                thread_open: emitted_thread,
                turn_open: emitted_turn,
            }),
        decreases events@.len() - i,
    {
        let e = &events[i];
        let ghost c = StreamCursor {
            thread: thread_id,
            thread_open: emitted_thread,
            turn_open: emitted_turn,
        };
        let ghost start = output@;
        match e {
            AgentEvent::ThreadStarted { thread_id: id } => {
                thread_id = ThreadId(id.clone());
                emitted_thread = true;
            },
            AgentEvent::ThreadState { state } => {
                if !emitted_thread {
                    output.push(RuntimeEvent::ThreadStarted { thread_id: ThreadId(state.thread_id.clone()) });
                    emitted_thread = true;
                }
                thread_id = ThreadId(state.thread_id.clone());
            },
            _ => {
                if needs_turn_exec(e) {
                    ensure_protocol_turn_started(
                        &mut output,
                        &thread_id,
                        &turn,
                        &mut emitted_thread,
                        &mut emitted_turn,
                    );
                }
            },
        }
        let ghost opened = output@;
        assert(opened =~= start + openings(c, *e, turn));
        let mut body = event_body(e, &thread_id, &turn);
        let ghost body_view = body@;
        output.append(&mut body);
        proof {
            let pre = events@.take(i + 1);
            assert(pre.drop_last() =~= events@.take(i as int));
            assert(pre.last() == *e);
            let k = start.len() as int;
            let open = openings(c, *e, turn);
            assert(output@.take(k) =~= start);
            let seg = output@.skip(k);
            assert(seg =~= open + body_view);
            assert(seg.take(open.len() as int) =~= open);
            assert(seg.skip(open.len() as int) =~= body_view);
            assert(event_emits(seg, *e, c, turn));
            assert(cursor_of(pre.drop_last(), t0) == c);
            assert(runtime_events_from(output@.take(k), pre.drop_last(), t0, turn));
            assert(event_emits(output@.skip(k), pre.last(), cursor_of(pre.drop_last(), t0), turn));
            assert(body_view.len() == body_len(*e));
            assert(runtime_events_from(output@, pre, t0, turn));
        }
        i = i + 1;
    }
    assert(events@.take(i as int) =~= events@);
    output
}

/// The runtime events that the command line writes for an agent run, on
/// thread `cli-thread` (until the events name another) and turn `cli-turn`;
/// see `runtime_events_match`.
pub fn protocol_events_from_agent_events(events: &[AgentEvent]) -> (r: Vec<RuntimeEvent>)
    ensures
        runtime_events_match(r@, events@),
{
    let thread0 = ThreadId(owned("cli-thread"));
    let turn = TurnId(owned("cli-turn"));
    let ghost t0 = thread0;
    let ghost u = turn;
    let r = protocol_events_with(events, thread0, turn);
    assert(runtime_events_from(r@, events@, t0, u));
    r
}

// ---------------------------------------------------------------------------
// The turn is opened once
// ---------------------------------------------------------------------------

/// How many turn starts a run of protocol events holds.
pub open spec fn turn_starts(r: Seq<RuntimeEvent>) -> nat
    decreases r.len(),
{
    if r.len() == 0 {
        0
    } else {
        turn_starts(r.drop_last()) + if r.last() is TurnStarted {
            1nat
        } else {
            0nat
        }
    }
}

/// Whether some event of a run needs the turn.
pub open spec fn some_event_needs_turn(events: Seq<AgentEvent>) -> bool {
    exists|i: int| 0 <= i < events.len() && needs_turn(#[trigger] events[i])
}

proof fn lemma_turn_starts_concat(a: Seq<RuntimeEvent>, b: Seq<RuntimeEvent>)
    ensures
        turn_starts(a + b) == turn_starts(a) + turn_starts(b),
    decreases b.len(),
{
    if b.len() == 0 {
        assert(a + b =~= a);
    } else {
        lemma_turn_starts_concat(a, b.drop_last());
        assert((a + b).drop_last() =~= a + b.drop_last());
    }
}

proof fn lemma_turn_starts_short(b: Seq<RuntimeEvent>)
    requires
        b.len() <= 2,
    ensures
        turn_starts(b) == (if b.len() >= 1 && b[0] is TurnStarted {
            1nat
        } else {
            0nat
        }) + (if b.len() == 2 && b[1] is TurnStarted {
            1nat
        } else {
            0nat
        }),
{
    reveal_with_fuel(turn_starts, 3);
    if b.len() == 2 {
        assert(b.last() == b[1]);
        assert(b.drop_last().last() == b[0]);
        assert(b.drop_last().drop_last().len() == 0);
    } else if b.len() == 1 {
        assert(b.last() == b[0]);
        assert(b.drop_last().len() == 0);
    }
}

proof fn lemma_body_opens_nothing(b: Seq<RuntimeEvent>, e: AgentEvent, t: ThreadId, u: TurnId)
    requires
        body_matches(b, e, t, u),
    ensures
        turn_starts(b) == 0,
{
    assert(b.len() <= 2);
    lemma_turn_starts_short(b);
}

proof fn lemma_openings_start_turn(c: StreamCursor, e: AgentEvent, u: TurnId)
    ensures
        turn_starts(openings(c, e, u)) == (if needs_turn(e) && !c.turn_open {
            1nat
        } else {
            0nat
        }),
{
    let o = openings(c, e, u);
    assert(o.len() <= 2);
    lemma_turn_starts_short(o);
}

proof fn lemma_turn_open_iff_needed(events: Seq<AgentEvent>, t0: ThreadId)
    ensures
        cursor_of(events, t0).turn_open == some_event_needs_turn(events),
    decreases events.len(),
{
    if events.len() > 0 {
        let pre = events.drop_last();
        lemma_turn_open_iff_needed(pre, t0);
        if some_event_needs_turn(pre) {
            let i = choose|i: int| 0 <= i < pre.len() && needs_turn(#[trigger] pre[i]);
            assert(events[i] == pre[i]);
        }
        if some_event_needs_turn(events) {
            let i = choose|i: int| 0 <= i < events.len() && needs_turn(#[trigger] events[i]);
            if i < events.len() - 1 {
                assert(pre[i] == events[i]);
            }
        }
        if needs_turn(events.last()) {
            assert(needs_turn(events[events.len() - 1]));
        }
    }
}

/// The stream opens the turn once: it holds one turn start when some event
/// needs the turn and none otherwise (the start comes, with the thread start
/// when no thread is open yet, just before the first such event's report).
pub proof fn law_turn_opened_once(
    r: Seq<RuntimeEvent>,
    events: Seq<AgentEvent>,
    t0: ThreadId,
    u: TurnId,
)
    requires
        runtime_events_from(r, events, t0, u),
    ensures
        turn_starts(r) == (if some_event_needs_turn(events) {
            1nat
        } else {
            0nat
        }),
    decreases events.len(),
{
    lemma_turn_open_iff_needed(events, t0);
    if events.len() > 0 {
        let pre = events.drop_last();
        let c = cursor_of(pre, t0);
        let e = events.last();
        let open = openings(c, e, u);
        let k = r.len() - (open.len() + body_len(e));
        law_turn_opened_once(r.take(k), pre, t0, u);
        lemma_turn_open_iff_needed(pre, t0);
        let seg = r.skip(k);
        lemma_turn_starts_concat(r.take(k), seg);
        assert(r.take(k) + seg =~= r);
        lemma_turn_starts_concat(seg.take(open.len() as int), seg.skip(open.len() as int));
        assert(seg.take(open.len() as int) + seg.skip(open.len() as int) =~= seg);
        lemma_openings_start_turn(c, e, u);
        lemma_body_opens_nothing(seg.skip(open.len() as int), e, cursor_after(c, e).thread, u);
    } else {
        assert(r.len() == 0);
    }
}

} // verus!
