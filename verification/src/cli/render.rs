//! Plain rendering of an agent run: the banner, and the lines each event
//! prints, with the state that keeps repeated output from printing twice.
use vstd::prelude::*;
use crate::agent::{AgentEvent, AgentRunResult, AgentRunStatus, TodoStatus};
use crate::cli::format::{
    approval_text, approval_word, command_status_label, command_status_text, exit_code_suffix,
    exit_code_suffix_string, file_kind_debug, http_status_suffix, http_status_suffix_string, file_kind_name, i32_text, mcp_status_debug,
    mcp_status_name, opt_or, opt_or_string, opt_suffix, opt_suffix_string, patch_status_debug,
    patch_status_name, run_status_debug, run_status_name, usage_string, usage_text, usize_text,
};
use crate::persona::settings::{bool_str, bool_text};
use crate::text::{
    concat, decimal, i64_to_decimal, is_blank, is_blank_str, opt_view, owned, signed_decimal,
    str_eq, };

verus! {

/// What the interactive mode shows when it starts.
#[derive(Clone, Debug, PartialEq, Eq)]
pub struct InteractiveBanner {
    pub cwd: String,
    pub backend: String,
    pub provider_live: bool,
    pub provider_source: String,
    pub model: String,
    pub provider: String,
}

/// The banner's lines.
pub open spec fn banner_text(b: InteractiveBanner) -> Seq<Seq<char>> {
    let head = seq![
        "YunXi Agent v1.7.3 interactive CLI"@,
        "cwd: "@ + b.cwd@,
        "backend: "@ + b.backend@,
        "provider_mode: "@ + (if b.provider_live {
            "live"@
        } else {
            "offline"@
        }),
        "provider_source: "@ + b.provider_source@,
        "provider: "@ + b.provider@,
        "model: "@ + b.model@,
    ];
    let body = if !b.provider_live {
        head.push("offline_runtime: static_provider (stage fixtures disabled by default)"@)
    } else {
        head
    };
    body.push("Type /help for commands, /exit to quit."@)
}

pub open spec fn string_lines(v: Seq<String>) -> Seq<Seq<char>> {
    v.map_values(|s: String| s@)
}

/// The banner's lines; see `banner_text`.
pub fn banner_lines(banner: &InteractiveBanner) -> (r: Vec<String>)
    ensures
        string_lines(r@) == banner_text(*banner),
{
    let mut v: Vec<String> = Vec::new();
    v.push(owned("YunXi Agent v1.7.3 interactive CLI"));
    v.push(concat("cwd: ", banner.cwd.as_str()));
    v.push(concat("backend: ", banner.backend.as_str()));
    v.push(concat("provider_mode: ", if banner.provider_live { "live" } else { "offline" }));
    v.push(concat("provider_source: ", banner.provider_source.as_str()));
    v.push(concat("provider: ", banner.provider.as_str()));
    v.push(concat("model: ", banner.model.as_str()));
    if !banner.provider_live {
        v.push(owned("offline_runtime: static_provider (stage fixtures disabled by default)"));
    }
    v.push(owned("Type /help for commands, /exit to quit."));
    assert(string_lines(v@) =~= banner_text(*banner));
    v
}

/// What earlier events left behind that decides what later ones print.
#[derive(Clone, Debug, Default, PartialEq, Eq)]
pub struct RenderState {
    saw_assistant_message: bool,
    last_assistant_message: Option<String>,
    last_command_output: Option<String>,
    offline_label: bool,
}

/// A render state by value.
pub struct RenderStateView {
    pub saw_assistant: bool,
    pub last_assistant: Option<Seq<char>>,
    pub last_output: Option<Seq<char>>,
    pub offline: bool,
}

impl RenderState {
    pub closed spec fn view(&self) -> RenderStateView {
        RenderStateView {
            saw_assistant: self.saw_assistant_message,
            last_assistant: opt_view(self.last_assistant_message),
            last_output: opt_view(self.last_command_output),
            offline: self.offline_label,
        }
    }

    /// A fresh state that marks assistant text as offline or not.
    pub fn with_offline_label(offline_label: bool) -> (r: RenderState)
        ensures
            r.view() == (RenderStateView {
                saw_assistant: false,
                last_assistant: None,
                last_output: None,
                offline: offline_label,
            }),
    {
        RenderState {
            saw_assistant_message: false,
            last_assistant_message: None,
            last_command_output: None,
            offline_label,
        }
    }

    pub fn saw_assistant_message(&self) -> (r: bool)
        ensures
            r == self.view().saw_assistant,
    {
        self.saw_assistant_message
    }

    /// Assistant text as shown: marked `[offline]` in offline mode.
    pub fn render_assistant_content(&self, content: &str) -> (r: String)
        ensures
            r@ == assistant_text(self.view().offline, content@),
    {
        if self.offline_label {
            concat("[offline] ", content)
        } else {
            owned(content)
        }
    }

    /// Notes assistant text; gives it as shown unless it repeats the last one.
    pub fn observe_assistant_content(&mut self, content: &str) -> (r: Option<String>)
        ensures
            final(self).view() == observed_state(old(self).view(), content@),
            opt_view(r) == observed_output(old(self).view(), content@),
    {
        self.saw_assistant_message = true;
        let rendered = self.render_assistant_content(content);
        let repeated = match &self.last_assistant_message {
            Some(last) => str_eq(last.as_str(), rendered.as_str()),
            None => false,
        };
        if repeated {
            return None;
        }
        self.last_assistant_message = Some(rendered.clone());
        Some(rendered)
    }

    /// Notes command output; gives it unless it is blank or repeats the last
    /// output.
    fn observe_command_output(&mut self, output: &String) -> (r: Option<String>)
        ensures
            final(self).view() == output_state(old(self).view(), output@),
            opt_view(r) == output_printed(old(self).view(), output@),
    {
        if is_blank_str(output.as_str()) {
            return None;
        }
        let repeated = match &self.last_command_output {
            Some(last) => str_eq(last.as_str(), output.as_str()),
            None => false,
        };
        if repeated {
            return None;
        }
        self.last_command_output = Some(output.clone());
        Some(output.clone())
    }
}

pub open spec fn assistant_text(offline: bool, content: Seq<char>) -> Seq<char> {
    if offline {
        "[offline] "@ + content
    } else {
        content
    }
}

/// The state after assistant text: seen, and remembered unless it repeats.
pub open spec fn observed_state(st: RenderStateView, content: Seq<char>) -> RenderStateView {
    let shown = assistant_text(st.offline, content);
    RenderStateView {
        saw_assistant: true,
        last_assistant: Some(shown),
        ..st
    }
}

/// The assistant text to print, unless it repeats the last one.
pub open spec fn observed_output(st: RenderStateView, content: Seq<char>) -> Option<Seq<char>> {
    let shown = assistant_text(st.offline, content);
    if st.last_assistant == Some(shown) {
        None
    } else {
        Some(shown)
    }
}

/// Command output prints when it is not blank and not the same as the last.
pub open spec fn output_printed(st: RenderStateView, output: Seq<char>) -> Option<Seq<char>> {
    if !is_blank(output) && st.last_output != Some(output) {
        Some(output)
    } else {
        None
    }
}

pub open spec fn output_state(st: RenderStateView, output: Seq<char>) -> RenderStateView {
    match output_printed(st, output) {
        Some(o) => RenderStateView { last_output: Some(o), ..st },
        None => st,
    }
}

pub open spec fn todo_line(item: TodoStatus) -> Seq<char> {
    "[todo] ["@ + (if item.completed {
        "x"@
    } else {
        " "@
    }) + "] "@ + item.text@
}

pub open spec fn opt_line(o: Option<Seq<char>>) -> Seq<Seq<char>> {
    match o {
        Some(l) => seq![l],
        None => Seq::empty(),
    }
}

/// The lines an event prints in plain mode.
pub open spec fn plain_event_lines(e: AgentEvent, st: RenderStateView) -> Seq<Seq<char>> {
    match e {
        AgentEvent::Message { content } => opt_line(observed_output(st, content@)),
        AgentEvent::Reasoning { content } => seq!["[reasoning] "@ + content@],
        AgentEvent::CommandStarted { command, .. } => seq!["[shell] started: "@ + command@],
        AgentEvent::CommandUpdated { aggregated_output, .. } => opt_line(
            output_printed(st, aggregated_output@),
        ),
        AgentEvent::CommandCompleted { command, exit_code, status, .. } => seq![
            "[shell] "@ + command@ + " -> "@ + command_status_text(status) + exit_code_suffix(
                exit_code,
            ),
        ],
        AgentEvent::CommandFinished { command, exit_code } => seq![
            "[shell] "@ + command@ + " exited with "@ + signed_decimal(exit_code as int),
        ],
        AgentEvent::FileChanged { path, kind } => seq![
            "[file] "@ + file_kind_name(kind) + ": "@ + path@,
        ],
        AgentEvent::PatchCompleted { status } => seq!["[patch] "@ + patch_status_name(status)],
        AgentEvent::TodoUpdated { id, items } => seq![
            "[todo] "@ + decimal(items@.len()) + " item(s)"@ + opt_suffix(" id="@, id),
        ] + items@.map_values(|item: TodoStatus| todo_line(item)),
        AgentEvent::ToolCallStarted { name, .. } => seq!["[tool] started: "@ + name@],
        AgentEvent::ToolCallCompleted { name, output, status, .. } => {
            let head = seq!["[tool] "@ + name@ + " -> "@ + command_status_text(status)];
            if !is_blank(output@) {
                head.push(output@)
            } else {
                head
            }
        },
        AgentEvent::McpToolStarted { server, tool, .. } => seq![
            "[mcp] "@ + server@ + "/"@ + tool@ + " started"@,
        ],
        AgentEvent::McpToolCompleted { server, tool, status, .. } => seq![
            "[mcp] "@ + server@ + "/"@ + tool@ + " -> "@ + mcp_status_name(status),
        ],
        AgentEvent::McpSession { server, status, message } => seq![
            "[mcp-session] "@ + server@ + ": "@ + status@ + opt_suffix(" - "@, message),
        ],
        AgentEvent::ApprovalRequested { tool_name, reason, .. } => seq![
            "[approval] requested for "@ + tool_name@ + ": "@ + reason@,
        ],
        AgentEvent::ApprovalCompleted { approved, reason, .. } => seq![
            "[approval] "@ + approval_text(approved) + opt_suffix(" - "@, reason),
        ],
        AgentEvent::EscalationRequested {
            tool_name,
            reason,
            required_sandbox,
            required_network,
            ..
        } => seq![
            "[escalation] "@ + tool_name@ + ": "@ + reason@ + opt_suffix(
                " sandbox="@,
                required_sandbox,
            ) + opt_suffix(" network="@, required_network),
        ],
        AgentEvent::EscalationCompleted { approved, reason, .. } => seq![
            "[escalation] "@ + approval_text(approved) + opt_suffix(" - "@, reason),
        ],
        AgentEvent::ChildAgentEvent { agent_id, child_session_id, status, message, .. } => seq![
            "[child:"@ + agent_id@ + "] "@ + status@ + " session="@ + child_session_id@
                + opt_suffix(" - "@, message),
        ],
        AgentEvent::ChildScopedStream { agent_id, event, seq, message, .. } => seq![
            "  [child:"@ + agent_id@ + " #"@ + decimal(seq as nat) + "] "@ + event@ + opt_suffix(
                " - "@,
                message,
            ),
        ],
        AgentEvent::ContextStatus {
            active_context_tokens,
            token_limit_reached,
            compacted,
            dropped_messages,
        } => seq![
            "[context] tokens="@ + signed_decimal(active_context_tokens as int)
                + " limit_reached="@ + bool_text(token_limit_reached) + " compacted="@ + bool_text(
                compacted,
            ) + " dropped="@ + decimal(dropped_messages as nat),
        ],
        AgentEvent::StorageState {
            session_id,
            rollout_items,
            rollout_truncated,
            child_session_ids,
            ..
        } => seq![
            "[session] "@ + opt_or(session_id, "unknown"@) + " rollout_items="@ + decimal(
                rollout_items as nat,
            ) + " truncated="@ + bool_text(rollout_truncated) + " children="@ + decimal(
                child_session_ids@.len(),
            ),
        ],
        AgentEvent::Warning { message } => seq!["[warning] "@ + message@],
        AgentEvent::Error { message } => seq!["[error] "@ + message@],
        AgentEvent::ProviderError { provider, classification, status, message } => seq![
            "[provider:"@ + provider@ + "] "@ + classification@ + http_status_suffix(status) + " - "@ + message@,
        ],
        AgentEvent::Cancelled { reason } => seq![
            "[cancelled] "@ + opt_or(reason, "current turn cancelled"@),
        ],
        AgentEvent::Completed { status, usage } => {
            let head: Seq<Seq<char>> = if status != AgentRunStatus::Completed {
                seq!["[turn] "@ + run_status_name(status)]
            } else {
                Seq::empty()
            };
            match usage {
                Some(u) => head.push("[usage] "@ + usage_text(u)),
                None => head,
            }
        },
        AgentEvent::SandboxAttempt { platform, status, backend, command, cwd, message, .. } => seq![
            "[policy-guard] platform="@ + platform@ + " status="@ + status@ + " backend="@
                + backend@ + " cwd="@ + cwd@ + " command="@ + opt_or(command, "none"@)
                + " message="@ + opt_or(message, "none"@) + " (advisory only, no OS isolation)"@,
        ],
        _ => Seq::empty(),
    }
}

/// The state after an event in plain mode.
pub open spec fn plain_event_state(e: AgentEvent, st: RenderStateView) -> RenderStateView {
    match e {
        AgentEvent::Message { content } => observed_state(st, content@),
        AgentEvent::CommandUpdated { aggregated_output, .. } => output_state(
            st,
            aggregated_output@,
        ),
        _ => st,
    }
}

fn one(s: String) -> (r: Vec<String>)
    ensures
        string_lines(r@) == seq![s@],
{
    let mut v: Vec<String> = Vec::new();
    v.push(s);
    assert(string_lines(v@) =~= seq![s@]);
    v
}

fn push_opt(v: &mut Vec<String>, o: Option<String>)
    ensures
        string_lines(final(v)@) == string_lines(old(v)@) + opt_line(opt_view(o)),
{
    let ghost before = string_lines(v@);
    match o {
        Some(s) => {
            v.push(s);
        },
        None => {},
    }
    assert(string_lines(v@) =~= before + opt_line(opt_view(o)));
}

fn todo_lines(items: &Vec<TodoStatus>) -> (r: Vec<String>)
    ensures
        string_lines(r@) == items@.map_values(|item: TodoStatus| todo_line(item)),
{
    let mut v: Vec<String> = Vec::new();
    let mut i: usize = 0;
    while i < items.len()
        invariant
            i <= items@.len(),
            string_lines(v@) == items@.take(i as int).map_values(|item: TodoStatus| todo_line(item)),
        decreases items@.len() - i,
    {
        let item = &items[i];
        let mut s = owned("[todo] [");
        s.append(if item.completed { "x" } else { " " });
        s.append("] ");
        s.append(item.text.as_str());
        let ghost before = string_lines(v@);
        v.push(s);
        proof {
            assert(string_lines(v@) =~= before.push(s@));
            assert(items@.take(i + 1).map_values(|item: TodoStatus| todo_line(item))
                =~= items@.take(i as int).map_values(|item: TodoStatus| todo_line(item)).push(
                todo_line(items@[i as int]),
            ));
        }
        i = i + 1;
    }
    assert(items@.take(i as int) =~= items@);
    v
}

/// The lines an event prints in plain mode, and the state it leaves; see
/// `plain_event_lines` and `plain_event_state`.
pub fn render_event_lines(event: &AgentEvent, state: &mut RenderState) -> (r: Vec<String>)
    ensures
        string_lines(r@) == plain_event_lines(*event, old(state).view()),
        final(state).view() == plain_event_state(*event, old(state).view()),
{
    let out: Vec<String> = match event {
        AgentEvent::Message { content } => {
            let mut v: Vec<String> = Vec::new();
            let shown = state.observe_assistant_content(content.as_str());
            push_opt(&mut v, shown);
            v
        },
        AgentEvent::Reasoning { content } => one(concat("[reasoning] ", content.as_str())),
        AgentEvent::CommandStarted { command, .. } => {
            one(concat("[shell] started: ", command.as_str()))
        },
        AgentEvent::CommandUpdated { aggregated_output, .. } => {
            let mut v: Vec<String> = Vec::new();
            let shown = state.observe_command_output(aggregated_output);
            push_opt(&mut v, shown);
            v
        },
        AgentEvent::CommandCompleted { command, exit_code, status, .. } => {
            let mut m = concat("[shell] ", command.as_str());
            m.append(" -> ");
            m.append(command_status_label(*status));
            m.append(exit_code_suffix_string(*exit_code).as_str());
            one(m)
        },
        AgentEvent::CommandFinished { command, exit_code } => {
            let mut m = concat("[shell] ", command.as_str());
            m.append(" exited with ");
            m.append(i32_text(*exit_code).as_str());
            one(m)
        },
        AgentEvent::FileChanged { path, kind } => {
            let mut m = concat("[file] ", file_kind_debug(*kind));
            m.append(": ");
            m.append(path.as_str());
            one(m)
        },
        AgentEvent::PatchCompleted { status } => {
            one(concat("[patch] ", patch_status_debug(*status)))
        },
        AgentEvent::TodoUpdated { id, items } => {
            let mut m = concat("[todo] ", usize_text(items.len()).as_str());
            m.append(" item(s)");
            m.append(opt_suffix_string(" id=", id).as_str());
            let mut v = one(m);
            let rest = todo_lines(items);
            let ghost head = string_lines(v@);
            let mut j: usize = 0;
            while j < rest.len()
                invariant
                    j <= rest@.len(),
                    string_lines(v@) == head + string_lines(rest@.take(j as int)),
                decreases rest@.len() - j,
            {
                let ghost before = string_lines(v@);
                v.push(rest[j].clone());
                proof {
                    assert(string_lines(v@) =~= before.push(rest@[j as int]@));
                    assert(string_lines(rest@.take(j + 1)) =~= string_lines(rest@.take(j as int)).push(
                        rest@[j as int]@,
                    ));
                }
                j = j + 1;
            }
            assert(rest@.take(j as int) =~= rest@);
            v
        },
        AgentEvent::ToolCallStarted { name, .. } => one(concat("[tool] started: ", name.as_str())),
        AgentEvent::ToolCallCompleted { name, output, status, .. } => {
            let mut m = concat("[tool] ", name.as_str());
            m.append(" -> ");
            m.append(command_status_label(*status));
            let mut v = one(m);
            if !is_blank_str(output.as_str()) {
                let ghost before = string_lines(v@);
                v.push(output.clone());
                assert(string_lines(v@) =~= before.push(output@));
            }
            v
        },
        AgentEvent::McpToolStarted { server, tool, .. } => {
            let mut m = concat("[mcp] ", server.as_str());
            m.append("/");
            m.append(tool.as_str());
            m.append(" started");
            one(m)
        },
        AgentEvent::McpToolCompleted { server, tool, status, .. } => {
            let mut m = concat("[mcp] ", server.as_str());
            m.append("/");
            m.append(tool.as_str());
            m.append(" -> ");
            m.append(mcp_status_debug(*status));
            one(m)
        },
        AgentEvent::McpSession { server, status, message } => {
            let mut m = concat("[mcp-session] ", server.as_str());
            m.append(": ");
            m.append(status.as_str());
            m.append(opt_suffix_string(" - ", message).as_str());
            one(m)
        },
        AgentEvent::ApprovalRequested { tool_name, reason, .. } => {
            let mut m = concat("[approval] requested for ", tool_name.as_str());
            m.append(": ");
            m.append(reason.as_str());
            one(m)
        },
        AgentEvent::ApprovalCompleted { approved, reason, .. } => {
            let mut m = concat("[approval] ", approval_word(*approved));
            m.append(opt_suffix_string(" - ", reason).as_str());
            one(m)
        },
        AgentEvent::EscalationRequested {
            tool_name,
            reason,
            required_sandbox,
            required_network,
            ..
        } => {
            let mut m = concat("[escalation] ", tool_name.as_str());
            m.append(": ");
            m.append(reason.as_str());
            m.append(opt_suffix_string(" sandbox=", required_sandbox).as_str());
            m.append(opt_suffix_string(" network=", required_network).as_str());
            one(m)
        },
        AgentEvent::EscalationCompleted { approved, reason, .. } => {
            let mut m = concat("[escalation] ", approval_word(*approved));
            m.append(opt_suffix_string(" - ", reason).as_str());
            one(m)
        },
        AgentEvent::ChildAgentEvent { agent_id, child_session_id, status, message, .. } => {
            let mut m = concat("[child:", agent_id.as_str());
            m.append("] ");
            m.append(status.as_str());
            m.append(" session=");
            m.append(child_session_id.as_str());
            m.append(opt_suffix_string(" - ", message).as_str());
            one(m)
        },
        AgentEvent::ChildScopedStream { agent_id, event, seq, message, .. } => {
            let mut m = concat("  [child:", agent_id.as_str());
            m.append(" #");
            m.append(usize_text(*seq).as_str());
            m.append("] ");
            m.append(event.as_str());
            m.append(opt_suffix_string(" - ", message).as_str());
            one(m)
        },
        AgentEvent::ContextStatus {
            active_context_tokens,
            token_limit_reached,
            compacted,
            dropped_messages,
        } => {
            let mut m = concat("[context] tokens=", i64_to_decimal(*active_context_tokens).as_str());
            m.append(" limit_reached=");
            m.append(bool_str(*token_limit_reached));
            m.append(" compacted=");
            m.append(bool_str(*compacted));
            m.append(" dropped=");
            m.append(usize_text(*dropped_messages).as_str());
            one(m)
        },
        AgentEvent::StorageState {
            session_id,
            rollout_items,
            rollout_truncated,
            child_session_ids,
            ..
        } => {
            let mut m = concat("[session] ", opt_or_string(session_id, "unknown").as_str());
            m.append(" rollout_items=");
            m.append(usize_text(*rollout_items).as_str());
            m.append(" truncated=");
            m.append(bool_str(*rollout_truncated));
            m.append(" children=");
            m.append(usize_text(child_session_ids.len()).as_str());
            one(m)
        },
        AgentEvent::Warning { message } => one(concat("[warning] ", message.as_str())),
        AgentEvent::Error { message } => one(concat("[error] ", message.as_str())),
        AgentEvent::ProviderError { provider, classification, status, message } => {
            let mut m = concat("[provider:", provider.as_str());
            m.append("] ");
            m.append(classification.as_str());
            m.append(http_status_suffix_string(*status).as_str());
            m.append(" - ");
            m.append(message.as_str());
            one(m)
        },
        AgentEvent::Cancelled { reason } => {
            one(concat("[cancelled] ", opt_or_string(reason, "current turn cancelled").as_str()))
        },
        AgentEvent::Completed { status, usage } => {
            let mut v: Vec<String> = Vec::new();
            if *status != AgentRunStatus::Completed {
                v.push(concat("[turn] ", run_status_debug(*status)));
            }
            match usage {
                Some(u) => {
                    v.push(concat("[usage] ", usage_string(*u).as_str()));
                },
                None => {},
            }
            v
        },
        AgentEvent::SandboxAttempt { platform, status, backend, command, cwd, message, .. } => {
            let mut m = concat("[policy-guard] platform=", platform.as_str());
            m.append(" status=");
            m.append(status.as_str());
            m.append(" backend=");
            m.append(backend.as_str());
            m.append(" cwd=");
            m.append(cwd.as_str());
            m.append(" command=");
            m.append(opt_or_string(command, "none").as_str());
            m.append(" message=");
            m.append(opt_or_string(message, "none").as_str());
            m.append(" (advisory only, no OS isolation)");
            one(m)
        },
        _ => Vec::new(),
    };
    proof {
        assert(string_lines(out@) =~= plain_event_lines(*event, old(state).view()));
    }
    out
}

/// The lines of a run of events from state `st`, and the state they leave.
pub open spec fn plain_run(events: Seq<AgentEvent>, st: RenderStateView) -> (
    Seq<Seq<char>>,
    RenderStateView,
)
    decreases events.len(),
{
    if events.len() == 0 {
        (Seq::empty(), st)
    } else {
        let prev = plain_run(events.drop_last(), st);
        (
            prev.0 + plain_event_lines(events.last(), prev.1),
            plain_event_state(events.last(), prev.1),
        )
    }
}

/// The state a run starts from: nothing seen, not marked offline.
pub open spec fn fresh_state() -> RenderStateView {
    RenderStateView {
        saw_assistant: false,
        last_assistant: None,
        last_output: None,
        offline: false,
    }
}

/// The lines a whole run prints: each event's in turn, then the final response
/// when no assistant text was printed.
pub open spec fn result_text(result: AgentRunResult) -> Seq<Seq<char>> {
    let run = plain_run(result.events@, fresh_state());
    if !run.1.saw_assistant && result.final_response is Some {
        run.0.push(assistant_text(run.1.offline, result.final_response->0@))
    } else {
        run.0
    }
}

/// The lines a whole run prints; see `result_text`.
pub fn render_result_lines(result: &AgentRunResult) -> (r: Vec<String>)
    ensures
        string_lines(r@) == result_text(*result),
{
    let mut state = RenderState::with_offline_label(false);
    let mut out: Vec<String> = Vec::new();
    let mut i: usize = 0;
    assert(result.events@.take(0) =~= Seq::<AgentEvent>::empty());
    while i < result.events.len()
        invariant
            i <= result.events@.len(),
            (string_lines(out@), state.view()) == plain_run(
                result.events@.take(i as int),
                fresh_state(),
            ),
        decreases result.events@.len() - i,
    {
        proof {
            assert(result.events@.take(i + 1).drop_last() =~= result.events@.take(i as int));
            assert(result.events@.take(i + 1).last() == result.events@[i as int]);
        }
        let lines = render_event_lines(&result.events[i], &mut state);
        let ghost head = string_lines(out@);
        let mut j: usize = 0;
        while j < lines.len()
            invariant
                j <= lines@.len(),
                string_lines(out@) == head + string_lines(lines@.take(j as int)),
            decreases lines@.len() - j,
        {
            let ghost before = string_lines(out@);
            out.push(lines[j].clone());
            proof {
                assert(string_lines(out@) =~= before.push(lines@[j as int]@));
                assert(string_lines(lines@.take(j + 1)) =~= string_lines(lines@.take(j as int)).push(
                    lines@[j as int]@,
                ));
            }
            j = j + 1;
        }
        assert(lines@.take(j as int) =~= lines@);
        i = i + 1;
    }
    assert(result.events@.take(i as int) =~= result.events@);
    if !state.saw_assistant_message() {
        match &result.final_response {
            Some(final_response) => {
                let ghost before = string_lines(out@);
                let shown = state.render_assistant_content(final_response.as_str());
                out.push(shown);
                assert(string_lines(out@) =~= before.push(shown@));
            },
            None => {},
        }
    }
    out
}

} // verus!
