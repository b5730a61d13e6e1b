//! The state of the full-screen terminal UI: its header and the compact event
//! lines it shows, the most recent ones kept.
use vstd::prelude::*;
use crate::agent::AgentEvent;
use crate::cli::format::{
    approval_text, approval_word, command_status_label, command_status_text, exit_code_suffix,
    exit_code_suffix_string, file_kind_debug, http_status_suffix, http_status_suffix_string, file_kind_name, i32_text, mcp_status_debug,
    mcp_status_name, opt_or, opt_or_string, opt_suffix, opt_suffix_string, patch_status_debug,
    patch_status_name, run_status_text, status_label, usage_string, usage_text, usize_text,
};
use crate::cli::render::InteractiveBanner;
use crate::persona::settings::{bool_str, bool_text};
use crate::text::{
    decimal, i64_to_decimal, is_blank, is_blank_str, owned, signed_decimal, str_eq, trim, trimmed,
};

verus! {

/// How many event lines the UI keeps.
pub const MAX_EVENT_LINES: usize = 500;

#[derive(Clone, Debug, PartialEq, Eq)]
pub struct TuiEventLine {
    pub label: String,
    pub message: String,
}

#[derive(Clone, Debug, PartialEq, Eq)]
pub struct TuiApp {
    pub version: String,
    pub cwd: String,
    pub backend: String,
    pub provider_mode: String,
    pub provider_source: String,
    pub provider: String,
    pub model: String,
    pub input: String,
    pub events: Vec<TuiEventLine>,
    pub scroll: u16,
}

/// A line by value: its label and message.
pub type LineView = (Seq<char>, Seq<char>);

pub open spec fn line_views(lines: Seq<TuiEventLine>) -> Seq<LineView> {
    lines.map_values(|l: TuiEventLine| (l.label@, l.message@))
}

/// The last `n` items of `s`, or all of them when there are fewer.
pub open spec fn keep_last<A>(s: Seq<A>, n: nat) -> Seq<A> {
    if s.len() > n {
        s.skip(s.len() - n)
    } else {
        s
    }
}

/// One more line, the oldest dropped past the limit.
pub open spec fn capped_push(s: Seq<LineView>, line: LineView) -> Seq<LineView> {
    keep_last(s.push(line), MAX_EVENT_LINES as nat)
}

/// The lines added one after the other.
pub open spec fn push_lines(s: Seq<LineView>, lines: Seq<LineView>) -> Seq<LineView>
    decreases lines.len(),
{
    if lines.len() == 0 {
        s
    } else {
        capped_push(push_lines(s, lines.drop_last()), lines.last())
    }
}

/// Keeping the last `n` items before adding one, then the last `n` again, is
/// keeping the last `n` of everything.
proof fn lemma_keep_last_push<A>(s: Seq<A>, item: A, n: nat)
    requires
        n > 0,
    ensures
        keep_last(keep_last(s, n).push(item), n) == keep_last(s.push(item), n),
{
    if s.len() > n {
        let k = keep_last(s, n);
        assert(k.len() == n);
        assert(k.push(item).skip(1) =~= s.push(item).skip(s.push(item).len() - n));
    }
}

/// The event log holds at most `MAX_EVENT_LINES` lines, and after any run of
/// lines it holds exactly the newest of all the lines it was ever given.
pub proof fn law_event_log_keeps_newest_lines(start: Seq<LineView>, lines: Seq<LineView>)
    requires
        start.len() <= MAX_EVENT_LINES,
    ensures
        push_lines(start, lines) == keep_last(start + lines, MAX_EVENT_LINES as nat),
        push_lines(start, lines).len() <= MAX_EVENT_LINES,
    decreases lines.len(),
{
    if lines.len() == 0 {
        assert(start + lines =~= start);
    } else {
        law_event_log_keeps_newest_lines(start, lines.drop_last());
        lemma_keep_last_push(start + lines.drop_last(), lines.last(), MAX_EVENT_LINES as nat);
        assert((start + lines.drop_last()).push(lines.last()) =~= start + lines);
    }
}

/// The compact lines an event shows as, in order.
pub open spec fn tui_event_lines(e: AgentEvent) -> Seq<LineView> {
    match e {
        AgentEvent::Message { content } => seq![("assistant"@, content@)],
        AgentEvent::Reasoning { content } => seq![("reasoning"@, content@)],
        AgentEvent::CommandStarted { command, .. } => seq![("shell"@, "started: "@ + command@)],
        AgentEvent::CommandUpdated { aggregated_output, .. } => if !is_blank(aggregated_output@) {
            seq![("stdout"@, trim(aggregated_output@))]
        } else {
            Seq::empty()
        },
        AgentEvent::CommandCompleted { command, exit_code, status, .. } => seq![
            ("shell"@, command@ + " -> "@ + command_status_text(status) + exit_code_suffix(
                exit_code,
            )),
        ],
        AgentEvent::CommandFinished { command, exit_code } => seq![
            ("shell"@, command@ + " exited with "@ + signed_decimal(exit_code as int)),
        ],
        AgentEvent::ToolCallStarted { name, .. } => seq![("tool"@, "started: "@ + name@)],
        AgentEvent::ToolCallCompleted { name, output, status, .. } => {
            let head = seq![("tool"@, name@ + " -> "@ + command_status_text(status))];
            if !is_blank(output@) {
                head.push(("tool-output"@, trim(output@)))
            } else {
                head
            }
        },
        AgentEvent::McpToolStarted { server, tool, .. } => seq![
            ("mcp"@, server@ + "/"@ + tool@ + " started"@),
        ],
        AgentEvent::McpToolCompleted { server, tool, status, .. } => seq![
            ("mcp"@, server@ + "/"@ + tool@ + " -> "@ + mcp_status_name(status)),
        ],
        AgentEvent::McpSession { server, status, message } => seq![
            ("mcp-session"@, server@ + ": "@ + status@ + opt_suffix(" - "@, message)),
        ],
        AgentEvent::Warning { message } => seq![("warning"@, message@)],
        AgentEvent::Error { message } => seq![("error"@, message@)],
        AgentEvent::ProviderError { provider, classification, status, message } => seq![
            ("provider"@, provider@ + " "@ + classification@ + http_status_suffix(status) + " - "@ + message@),
        ],
        AgentEvent::Cancelled { reason } => seq![
            ("cancelled"@, opt_or(reason, "current turn cancelled"@)),
        ],
        AgentEvent::Completed { status, usage } => {
            let head = seq![("turn"@, run_status_text(status))];
            match usage {
                Some(u) => head.push(("usage"@, usage_text(u))),
                None => head,
            }
        },
        AgentEvent::FileChanged { path, kind } => seq![
            ("file"@, file_kind_name(kind) + ": "@ + path@),
        ],
        AgentEvent::PatchCompleted { status } => seq![("patch"@, patch_status_name(status))],
        AgentEvent::TodoUpdated { id, items } => seq![
            ("todo"@, decimal(items@.len()) + " item(s)"@ + opt_suffix(" id="@, id)),
        ],
        AgentEvent::ApprovalRequested { tool_name, reason, .. } => seq![
            ("approval"@, tool_name@ + ": "@ + reason@),
        ],
        AgentEvent::ApprovalCompleted { approved, reason, .. } => seq![
            ("approval"@, approval_text(approved) + opt_suffix(" - "@, reason)),
        ],
        AgentEvent::EscalationRequested { tool_name, reason, .. } => seq![
            ("escalation"@, tool_name@ + ": "@ + reason@),
        ],
        AgentEvent::EscalationCompleted { approved, reason, .. } => seq![
            ("escalation"@, approval_text(approved) + opt_suffix(" - "@, reason)),
        ],
        AgentEvent::ChildAgentEvent { agent_id, child_session_id, status, message, .. } => seq![
            ("child"@, agent_id@ + " "@ + status@ + " session="@ + child_session_id@ + opt_suffix(
                " - "@,
                message,
            )),
        ],
        AgentEvent::ChildScopedStream { agent_id, event, seq, message, .. } => seq![
            ("child-stream"@, agent_id@ + " #"@ + decimal(seq as nat) + " "@ + event@
                + opt_suffix(" - "@, message)),
        ],
        AgentEvent::SandboxAttempt { platform, status, backend, command, .. } => seq![
            ("policy"@, "platform="@ + platform@ + " status="@ + status@ + " backend="@ + backend@
                + " command="@ + opt_or(command, "none"@)),
        ],
        AgentEvent::ContextStatus {
            active_context_tokens,
            token_limit_reached,
            compacted,
            dropped_messages,
        } => seq![
            ("context"@, "tokens="@ + signed_decimal(active_context_tokens as int)
                + " limit_reached="@ + bool_text(token_limit_reached) + " compacted="@ + bool_text(
                compacted,
            ) + " dropped="@ + decimal(dropped_messages as nat)),
        ],
        AgentEvent::StorageState {
            session_id,
            rollout_items,
            rollout_truncated,
            child_session_ids,
            ..
        } => seq![
            ("session"@, opt_or(session_id, "unknown"@) + " rollout_items="@ + decimal(
                rollout_items as nat,
            ) + " truncated="@ + bool_text(rollout_truncated) + " children="@ + decimal(
                child_session_ids@.len(),
            )),
        ],
        _ => Seq::empty(),
    }
}

/// The header fields of two states agree.
pub open spec fn same_header(a: TuiApp, b: TuiApp) -> bool {
    &&& a.version == b.version
    &&& a.cwd == b.cwd
    &&& a.backend == b.backend
    &&& a.provider_mode == b.provider_mode
    &&& a.provider_source == b.provider_source
    &&& a.provider == b.provider
    &&& a.model == b.model
    &&& a.input == b.input
    &&& a.scroll == b.scroll
}

fn line(label: &str, message: String) -> (r: TuiEventLine)
    ensures
        r.label@ == label@,
        r.message == message,
{
    TuiEventLine { label: owned(label), message }
}

fn single(l: TuiEventLine) -> (r: Vec<TuiEventLine>)
    ensures
        r@ == seq![l],
{
    let mut v: Vec<TuiEventLine> = Vec::new();
    v.push(l);
    v
}

/// The compact lines an event shows as; see `tui_event_lines`.
pub fn tui_event_lines_of(e: &AgentEvent) -> (r: Vec<TuiEventLine>)
    ensures
        line_views(r@) == tui_event_lines(*e),
{
    let out: Vec<TuiEventLine> = match e {
        AgentEvent::Message { content } => single(line("assistant", content.clone())),
        AgentEvent::Reasoning { content } => single(line("reasoning", content.clone())),
        AgentEvent::CommandStarted { command, .. } => {
            single(line("shell", crate::text::concat("started: ", command.as_str())))
        },
        AgentEvent::CommandUpdated { aggregated_output, .. } => {
            if !is_blank_str(aggregated_output.as_str()) {
                single(line("stdout", trimmed(aggregated_output.as_str())))
            } else {
                Vec::new()
            }
        },
        AgentEvent::CommandCompleted { command, exit_code, status, .. } => {
            let mut m = command.clone();
            m.append(" -> ");
            m.append(command_status_label(*status));
            m.append(exit_code_suffix_string(*exit_code).as_str());
            single(line("shell", m))
        },
        AgentEvent::CommandFinished { command, exit_code } => {
            let mut m = command.clone();
            m.append(" exited with ");
            m.append(i32_text(*exit_code).as_str());
            single(line("shell", m))
        },
        AgentEvent::ToolCallStarted { name, .. } => {
            single(line("tool", crate::text::concat("started: ", name.as_str())))
        },
        AgentEvent::ToolCallCompleted { name, output, status, .. } => {
            let mut m = name.clone();
            m.append(" -> ");
            m.append(command_status_label(*status));
            let mut v = single(line("tool", m));
            if !is_blank_str(output.as_str()) {
                v.push(line("tool-output", trimmed(output.as_str())));
            }
            v
        },
        AgentEvent::McpToolStarted { server, tool, .. } => {
            let mut m = server.clone();
            m.append("/");
            m.append(tool.as_str());
            m.append(" started");
            single(line("mcp", m))
        },
        AgentEvent::McpToolCompleted { server, tool, status, .. } => {
            let mut m = server.clone();
            m.append("/");
            m.append(tool.as_str());
            m.append(" -> ");
            m.append(mcp_status_debug(*status));
            single(line("mcp", m))
        },
        AgentEvent::McpSession { server, status, message } => {
            let mut m = server.clone();
            m.append(": ");
            m.append(status.as_str());
            m.append(opt_suffix_string(" - ", message).as_str());
            single(line("mcp-session", m))
        },
        AgentEvent::Warning { message } => single(line("warning", message.clone())),
        AgentEvent::Error { message } => single(line("error", message.clone())),
        AgentEvent::ProviderError { provider, classification, status, message } => {
            let mut m = provider.clone();
            m.append(" ");
            m.append(classification.as_str());
            m.append(http_status_suffix_string(*status).as_str());
            m.append(" - ");
            m.append(message.as_str());
            single(line("provider", m))
        },
        AgentEvent::Cancelled { reason } => {
            single(line("cancelled", opt_or_string(reason, "current turn cancelled")))
        },
        AgentEvent::Completed { status, usage } => {
            let mut v = single(line("turn", owned(status_label(*status))));
            match usage {
                Some(u) => {
                    v.push(line("usage", usage_string(*u)));
                },
                None => {},
            }
            v
        },
        AgentEvent::FileChanged { path, kind } => {
            let mut m = owned(file_kind_debug(*kind));
            m.append(": ");
            m.append(path.as_str());
            single(line("file", m))
        },
        AgentEvent::PatchCompleted { status } => {
            single(line("patch", owned(patch_status_debug(*status))))
        },
        AgentEvent::TodoUpdated { id, items } => {
            let mut m = usize_text(items.len());
            m.append(" item(s)");
            m.append(opt_suffix_string(" id=", id).as_str());
            single(line("todo", m))
        },
        AgentEvent::ApprovalRequested { tool_name, reason, .. } => {
            let mut m = tool_name.clone();
            m.append(": ");
            m.append(reason.as_str());
            single(line("approval", m))
        },
        AgentEvent::ApprovalCompleted { approved, reason, .. } => {
            let mut m = owned(approval_word(*approved));
            m.append(opt_suffix_string(" - ", reason).as_str());
            single(line("approval", m))
        },
        AgentEvent::EscalationRequested { tool_name, reason, .. } => {
            let mut m = tool_name.clone();
            m.append(": ");
            m.append(reason.as_str());
            single(line("escalation", m))
        },
        AgentEvent::EscalationCompleted { approved, reason, .. } => {
            let mut m = owned(approval_word(*approved));
            m.append(opt_suffix_string(" - ", reason).as_str());
            single(line("escalation", m))
        },
        AgentEvent::ChildAgentEvent { agent_id, child_session_id, status, message, .. } => {
            let mut m = agent_id.clone();
            m.append(" ");
            m.append(status.as_str());
            m.append(" session=");
            m.append(child_session_id.as_str());
            m.append(opt_suffix_string(" - ", message).as_str());
            single(line("child", m))
        },
        AgentEvent::ChildScopedStream { agent_id, event, seq, message, .. } => {
            let mut m = agent_id.clone();
            m.append(" #");
            m.append(usize_text(*seq).as_str());
            m.append(" ");
            m.append(event.as_str());
            m.append(opt_suffix_string(" - ", message).as_str());
            single(line("child-stream", m))
        },
        AgentEvent::SandboxAttempt { platform, status, backend, command, .. } => {
            let mut m = owned("platform=");
            m.append(platform.as_str());
            m.append(" status=");
            m.append(status.as_str());
            m.append(" backend=");
            m.append(backend.as_str());
            m.append(" command=");
            m.append(opt_or_string(command, "none").as_str());
            single(line("policy", m))
        },
        AgentEvent::ContextStatus {
            active_context_tokens,
            token_limit_reached,
            compacted,
            dropped_messages,
        } => {
            let mut m = owned("tokens=");
            m.append(i64_to_decimal(*active_context_tokens).as_str());
            m.append(" limit_reached=");
            m.append(bool_str(*token_limit_reached));
            m.append(" compacted=");
            m.append(bool_str(*compacted));
            m.append(" dropped=");
            m.append(usize_text(*dropped_messages).as_str());
            single(line("context", m))
        },
        AgentEvent::StorageState {
            session_id,
            rollout_items,
            rollout_truncated,
            child_session_ids,
            ..
        } => {
            let mut m = opt_or_string(session_id, "unknown");
            m.append(" rollout_items=");
            m.append(usize_text(*rollout_items).as_str());
            m.append(" truncated=");
            m.append(bool_str(*rollout_truncated));
            m.append(" children=");
            m.append(usize_text(child_session_ids.len()).as_str());
            single(line("session", m))
        },
        _ => Vec::new(),
    };
    proof {
        assert(line_views(out@) =~= tui_event_lines(*e));
    }
    out
}

impl TuiApp {
    /// A fresh UI for a session: its settings from the banner, no lines yet.
    pub fn from_banner(banner: &InteractiveBanner) -> (r: TuiApp)
        ensures
            r.version@ == "v1.7.0"@,
            r.cwd == banner.cwd,
            r.backend == banner.backend,
            r.provider_mode@ == (if banner.provider_live {
                "live"@
            } else {
                "offline"@
            }),
            r.provider_source == banner.provider_source,
            r.provider == banner.provider,
            r.model == banner.model,
            r.input@ == "yunxi> "@,
            r.events@.len() == 0,
            r.scroll == 0,
    {
        TuiApp {
            version: owned("v1.7.0"),
            cwd: banner.cwd.clone(),
            backend: banner.backend.clone(),
            provider_mode: if banner.provider_live {
                owned("live")
            } else {
                owned("offline")
            },
            provider_source: banner.provider_source.clone(),
            provider: banner.provider.clone(),
            model: banner.model.clone(),
            input: owned("yunxi> "),
            events: Vec::new(),
            scroll: 0,
        }
    }

    /// Adds a line; past the limit the oldest lines are dropped.
    pub fn push_line(&mut self, label: String, message: String)
        ensures
            same_header(*final(self), *old(self)),
            line_views(final(self).events@) == capped_push(
                line_views(old(self).events@),
                (label@, message@),
            ),
    {
        let ghost lv = (label@, message@);
        self.events.push(TuiEventLine { label, message });
        let ghost full = line_views(self.events@);
        proof {
            assert(full =~= line_views(old(self).events@).push(lv));
        }
        let ghost mut dropped: int = 0;
        while self.events.len() > MAX_EVENT_LINES
            invariant
                0 <= dropped <= full.len(),
                line_views(self.events@) == full.skip(dropped),
                dropped > 0 ==> full.len() - dropped >= MAX_EVENT_LINES,
                same_header(*self, *old(self)),
            decreases self.events@.len(),
        {
            let ghost before = self.events@;
            self.events.remove(0);
            proof {
                assert(line_views(self.events@) =~= line_views(before).skip(1));
                assert(full.skip(dropped).skip(1) =~= full.skip(dropped + 1));
                dropped = dropped + 1;
            }
        }
        proof {
            if full.len() > MAX_EVENT_LINES {
                assert(dropped == full.len() - MAX_EVENT_LINES);
            } else {
                assert(full.skip(0) =~= full);
            }
        }
    }

    pub fn push_warning(&mut self, message: &str)
        ensures
            same_header(*final(self), *old(self)),
            line_views(final(self).events@) == capped_push(
                line_views(old(self).events@),
                ("warning"@, message@),
            ),
    {
        self.push_line(owned("warning"), owned(message));
    }

    pub fn push_error(&mut self, message: &str)
        ensures
            same_header(*final(self), *old(self)),
            line_views(final(self).events@) == capped_push(
                line_views(old(self).events@),
                ("error"@, message@),
            ),
    {
        self.push_line(owned("error"), owned(message));
    }

    /// Adds the lines an event shows as; see `tui_event_lines`.
    pub fn push_event(&mut self, event: &AgentEvent)
        ensures
            same_header(*final(self), *old(self)),
            line_views(final(self).events@) == push_lines(
                line_views(old(self).events@),
                tui_event_lines(*event),
            ),
    {
        let lines = tui_event_lines_of(event);
        let ghost views = line_views(lines@);
        let ghost start = line_views(self.events@);
        let mut i: usize = 0;
        assert(views.take(0) =~= Seq::<LineView>::empty());
        while i < lines.len()
            invariant
                i <= lines@.len(),
                views == line_views(lines@),
                views == tui_event_lines(*event),
                start == line_views(old(self).events@),
                same_header(*self, *old(self)),
                line_views(self.events@) == push_lines(start, views.take(i as int)),
            decreases lines@.len() - i,
        {
            proof {
                assert(views.take(i + 1).drop_last() =~= views.take(i as int));
                assert(views.take(i + 1).last() == views[i as int]);
            }
            let l = &lines[i];
            self.push_line(l.label.clone(), l.message.clone());
            i = i + 1;
        }
        proof {
            assert(views.take(i as int) =~= views);
        }
    }

    /// The title line: version, directory, provider, mode and model.
    pub fn header(&self) -> (r: String)
        ensures
            r@ == "YunXi Agent "@ + self.version@ + " | "@ + self.cwd@ + " | provider="@
                + self.provider@ + " mode="@ + self.provider_mode@ + " model="@ + self.model@,
    {
        let mut s = owned("YunXi Agent ");
        s.append(self.version.as_str());
        s.append(" | ");
        s.append(self.cwd.as_str());
        s.append(" | provider=");
        s.append(self.provider.as_str());
        s.append(" mode=");
        s.append(self.provider_mode.as_str());
        s.append(" model=");
        s.append(self.model.as_str());
        s
    }

    /// The second title line: backend and where the provider choice came from.
    pub fn subheader(&self) -> (r: String)
        ensures
            r@ == "backend="@ + self.backend@ + " source="@ + self.provider_source@,
    {
        let mut s = owned("backend=");
        s.append(self.backend.as_str());
        s.append(" source=");
        s.append(self.provider_source.as_str());
        s
    }
}

/// The colour a log line's label is drawn in.
#[derive(Clone, Copy, Debug, PartialEq, Eq, Structural)]
pub enum LabelColor {
    Green,
    Blue,
    Yellow,
    Red,
    Magenta,
    White,
}

/// Assistant text is green, reasoning blue, warnings yellow, errors,
/// provider failures and cancellations red, shell, tool and MCP lines
/// magenta, anything else white.
pub open spec fn label_color_of(label: Seq<char>) -> LabelColor {
    if label == "assistant"@ {
        LabelColor::Green
    } else if label == "reasoning"@ {
        LabelColor::Blue
    } else if label == "warning"@ {
        LabelColor::Yellow
    } else if label == "error"@ || label == "provider"@ || label == "cancelled"@ {
        LabelColor::Red
    } else if label == "shell"@ || label == "tool"@ || label == "mcp"@ {
        LabelColor::Magenta
    } else {
        LabelColor::White
    }
}

pub fn label_color(label: &str) -> (r: LabelColor)
    ensures
        r == label_color_of(label@),
{
    if str_eq(label, "assistant") {
        LabelColor::Green
    } else if str_eq(label, "reasoning") {
        LabelColor::Blue
    } else if str_eq(label, "warning") {
        LabelColor::Yellow
    } else if str_eq(label, "error") || str_eq(label, "provider") || str_eq(label, "cancelled") {
        LabelColor::Red
    } else if str_eq(label, "shell") || str_eq(label, "tool") || str_eq(label, "mcp") {
        LabelColor::Magenta
    } else {
        LabelColor::White
    }
}

} // verus!
