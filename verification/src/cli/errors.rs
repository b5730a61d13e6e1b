//! The command line's exit codes and error classification, its hints on
//! argument errors, and the small decisions of its commands: which backends
//! it accepts, whether runtime fixtures are on, how prompts are previewed and
//! resumed, the labels of memory fields, the tool calls of dynamic tools, and
//! the opening events of a protocol stream.
use vstd::prelude::*;
use crate::agent::{AgentError, BackendKind};
use crate::json::{as_text, get, json_get, json_parse, text_of, JsonValue};
use crate::persona::memory::{MemoryKind, MemorySensitivity, MemoryStatus};
use crate::protocol::{RuntimeEvent, ThreadId, ToolCall, TurnId};
use crate::text::{
    ascii_lower, ascii_lower_chars, bound_chars, bounded_text, contains_any,
    contains_any_chars, is_blank_str, owned, seq_contains, str_eq, str_views, trim, trim_str,
};

verus! {

// ---------------------------------------------------------------------------
// Exit codes
// ---------------------------------------------------------------------------

#[derive(Clone, Copy, Debug, PartialEq, Eq, Structural)]
pub enum CliExitCode {
    Success,
    InvalidInput,
    ProviderError,
    ToolError,
    Cancelled,
    InternalError,
}

impl CliExitCode {
    /// The process exit status: 0, 2, 10, 20, 130 and 70.
    pub fn code(self) -> (r: i32)
        ensures
            r == match self {
                CliExitCode::Success => 0i32,
                CliExitCode::InvalidInput => 2,
                CliExitCode::ProviderError => 10,
                CliExitCode::ToolError => 20,
                CliExitCode::Cancelled => 130,
                CliExitCode::InternalError => 70,
            },
    {
        match self {
            CliExitCode::Success => 0,
            CliExitCode::InvalidInput => 2,
            CliExitCode::ProviderError => 10,
            CliExitCode::ToolError => 20,
            CliExitCode::Cancelled => 130,
            CliExitCode::InternalError => 70,
        }
    }
}

/// Words that mark an error as bad input.
pub open spec fn invalid_input_markers() -> Seq<Seq<char>> {
    seq![
        "a prompt is required"@,
        "session not found"@,
        "invalid"@,
        "cannot be used with"@,
        "required"@,
        "unrecognized"@,
        "usage:"@,
        "only supported"@,
    ]
}

pub open spec fn cancel_markers() -> Seq<Seq<char>> {
    seq!["cancelled"@, "canceled"@]
}

pub open spec fn provider_markers() -> Seq<Seq<char>> {
    seq!["provider"@, "api key"@]
}

pub open spec fn tool_markers() -> Seq<Seq<char>> {
    seq!["tool"@, "patch"@, "shell"@, "sandbox"@]
}

/// The exit code of a failed command. An agent error in the error's chain
/// decides by its kind (an execution error that mentions cancellation is a
/// cancellation); otherwise the lowercased text of the whole chain decides by
/// the words it holds, in the order bad input, cancellation, provider, tool.
pub open spec fn exit_code_for(agent_error: Option<AgentError>, message: Seq<char>) -> CliExitCode {
    match agent_error {
        Some(AgentError::Provider { .. }) => CliExitCode::ProviderError,
        Some(AgentError::EmptyPrompt) => CliExitCode::InvalidInput,
        Some(AgentError::MissingWorkingDirectory { .. }) => CliExitCode::InvalidInput,
        Some(AgentError::Execution { message: m }) => if seq_contains(ascii_lower(m@), "cancelled"@) {
            CliExitCode::Cancelled
        } else {
            CliExitCode::InternalError
        },
        None => {
            let lower = ascii_lower(message);
            if contains_any(lower, invalid_input_markers()) {
                CliExitCode::InvalidInput
            } else if contains_any(lower, cancel_markers()) {
                CliExitCode::Cancelled
            } else if contains_any(lower, provider_markers()) {
                CliExitCode::ProviderError
            } else if contains_any(lower, tool_markers()) {
                CliExitCode::ToolError
            } else {
                CliExitCode::InternalError
            }
        },
    }
}

/// Classifies a failed command; `agent_error` is the first agent error in
/// the error's chain and `message` the text of the whole chain.
pub fn classify_cli_error(agent_error: Option<&AgentError>, message: &str) -> (r: CliExitCode)
    ensures
        r == exit_code_for(
            match agent_error {
                Some(e) => Some(*e),
                None => None,
            },
            message@,
        ),
{
    match agent_error {
        Some(AgentError::Provider { .. }) => CliExitCode::ProviderError,
        Some(AgentError::EmptyPrompt) => CliExitCode::InvalidInput,
        Some(AgentError::MissingWorkingDirectory { .. }) => CliExitCode::InvalidInput,
        Some(AgentError::Execution { message: m }) => {
            let lower = ascii_lower_chars(m.as_str());
            let needle = ['c', 'a', 'n', 'c', 'e', 'l', 'l', 'e', 'd'];
            proof {
                reveal_strlit("cancelled");
                assert(needle@ =~= "cancelled"@);
            }
            if crate::text::contains_chars(lower.as_slice(), &needle) {
                CliExitCode::Cancelled
            } else {
                CliExitCode::InternalError
            }
        },
        None => {
            let lower = ascii_lower_chars(message);
            let invalid = [
                "a prompt is required",
                "session not found",
                "invalid",
                "cannot be used with",
                "required",
                "unrecognized",
                "usage:",
                "only supported",
            ];
            let cancel = ["cancelled", "canceled"];
            let provider = ["provider", "api key"];
            let tool = ["tool", "patch", "shell", "sandbox"];
            proof {
                assert(str_views(invalid@) =~= invalid_input_markers());
                assert(str_views(cancel@) =~= cancel_markers());
                assert(str_views(provider@) =~= provider_markers());
                assert(str_views(tool@) =~= tool_markers());
            }
            if contains_any_chars(lower.as_slice(), &invalid) {
                CliExitCode::InvalidInput
            } else if contains_any_chars(lower.as_slice(), &cancel) {
                CliExitCode::Cancelled
            } else if contains_any_chars(lower.as_slice(), &provider) {
                CliExitCode::ProviderError
            } else if contains_any_chars(lower.as_slice(), &tool) {
                CliExitCode::ToolError
            } else {
                CliExitCode::InternalError
            }
        },
    }
}

// ---------------------------------------------------------------------------
// Argument errors
// ---------------------------------------------------------------------------

pub open spec fn sessions_markers() -> Seq<Seq<char>> {
    seq!["yunxi sessions"@, "yunxi.exe sessions"@, "yunxi-agent-cli.exe sessions"@, "sessions [OPTIONS]"@]
}

pub open spec fn parity_markers() -> Seq<Seq<char>> {
    seq!["yunxi parity"@, "yunxi.exe parity"@, "yunxi-agent-cli.exe parity"@, "parity [OPTIONS]"@]
}

pub open spec fn sessions_hint() -> Seq<char> {
    "\nIf you meant to ask about `sessions` as a prompt, run `yunxi -- sessions` or `yunxi run sessions`."@
}

pub open spec fn parity_hint() -> Seq<char> {
    "\nIf you meant to ask about `parity` as a prompt, run `yunxi -- parity` or `yunxi run parity`."@
}

/// An argument error's text, with a hint to pass `sessions` or `parity` as a
/// prompt when the error is about those subcommands.
pub open spec fn friendly_message(message: Seq<char>) -> Seq<char> {
    message + (if contains_any(message, sessions_markers()) {
        sessions_hint()
    } else {
        Seq::empty()
    }) + (if contains_any(message, parity_markers()) {
        parity_hint()
    } else {
        Seq::empty()
    })
}

/// `message` is the argument parser's error text.
pub fn friendly_clap_error(message: &str) -> (r: String)
    ensures
        r@ == friendly_message(message@),
{
    let chars = crate::text::chars_of(message);
    let sessions = ["yunxi sessions", "yunxi.exe sessions", "yunxi-agent-cli.exe sessions", "sessions [OPTIONS]"];
    let parity = ["yunxi parity", "yunxi.exe parity", "yunxi-agent-cli.exe parity", "parity [OPTIONS]"];
    proof {
        assert(str_views(sessions@) =~= sessions_markers());
        assert(str_views(parity@) =~= parity_markers());
    }
    let mut out = owned(message);
    let ghost s1: Seq<char> = Seq::empty();
    if contains_any_chars(chars.as_slice(), &sessions) {
        out.append(
            "\nIf you meant to ask about `sessions` as a prompt, run `yunxi -- sessions` or `yunxi run sessions`.",
        );
    }
    if contains_any_chars(chars.as_slice(), &parity) {
        out.append(
            "\nIf you meant to ask about `parity` as a prompt, run `yunxi -- parity` or `yunxi run parity`.",
        );
    }
    proof {
        assert(out@ =~= friendly_message(message@));
    }
    out
}

pub open spec fn detached_codex_message() -> Seq<char> {
    "codex compatibility backend is detached from the default CLI; use the yunxi-agent-codex compatibility crate explicitly"@
}

/// The codex backend is refused by the default command line.
pub fn reject_detached_codex_backend(backend: BackendKind) -> (r: Result<(), String>)
    ensures
        backend == BackendKind::Codex <==> r is Err,
        r is Err ==> r->Err_0@ == detached_codex_message(),
{
    if backend == BackendKind::Codex {
        return Err(
            owned(
                "codex compatibility backend is detached from the default CLI; use the yunxi-agent-codex compatibility crate explicitly",
            ),
        );
    }
    Ok(())
}

/// Values of `YUNXI_RUNTIME_FIXTURES` that turn fixtures on, once trimmed and
/// lowercased.
pub open spec fn fixture_switch_on(value: Seq<char>) -> bool {
    let v = ascii_lower(trim(value));
    v == "1"@ || v == "true"@ || v == "yes"@ || v == "on"@ || v == "explicit"@
}

/// Whether runtime fixtures are on; `value` is the variable's value, if set.
pub fn runtime_fixtures_enabled(value: Option<&str>) -> (r: bool)
    ensures
        r == match value {
            Some(v) => fixture_switch_on(v@),
            None => false,
        },
{
    match value {
        Some(v) => {
            let lower = crate::text::to_ascii_lowercase(trim_str(v));
            let l = lower.as_str();
            str_eq(l, "1") || str_eq(l, "true") || str_eq(l, "yes") || str_eq(l, "on") || str_eq(
                l,
                "explicit",
            )
        },
        None => false,
    }
}

// ---------------------------------------------------------------------------
// Prompts and labels
// ---------------------------------------------------------------------------

/// A prompt shortened to at most 80 characters, a cut marked by `...`.
pub fn preview(prompt: &str) -> (r: String)
    ensures
        r@ == bounded_text(prompt@, 80),
{
    bound_chars(prompt, 80)
}

pub open spec fn default_resume_prompt() -> Seq<char> {
    "Continue from the previous session."@
}

/// The prompt that resumes a session: the given one trimmed, or a request to
/// continue when it is blank.
pub fn build_resume_prompt(prompt: &str) -> (r: String)
    ensures
        r@ == if trim(prompt@).len() == 0 {
            default_resume_prompt()
        } else {
            trim(prompt@)
        },
{
    if is_blank_str(prompt) {
        owned("Continue from the previous session.")
    } else {
        owned(trim_str(prompt))
    }
}

pub open spec fn memory_kind_name(kind: MemoryKind) -> Seq<char> {
    match kind {
        MemoryKind::Preference => "preference"@,
        MemoryKind::PersonalFact => "personal_fact"@,
        MemoryKind::RelationshipNote => "relationship_note"@,
        MemoryKind::EmotionalState => "emotional_state"@,
        MemoryKind::Goal => "goal"@,
        MemoryKind::ProjectContext => "project_context"@,
        MemoryKind::Correction => "correction"@,
        MemoryKind::Event => "event"@,
        MemoryKind::ToolTraceSummary => "tool_trace_summary"@,
    }
}

pub fn memory_kind_label(kind: MemoryKind) -> (r: &'static str)
    ensures
        r@ == memory_kind_name(kind),
{
    match kind {
        MemoryKind::Preference => "preference",
        MemoryKind::PersonalFact => "personal_fact",
        MemoryKind::RelationshipNote => "relationship_note",
        MemoryKind::EmotionalState => "emotional_state",
        MemoryKind::Goal => "goal",
        MemoryKind::ProjectContext => "project_context",
        MemoryKind::Correction => "correction",
        MemoryKind::Event => "event",
        MemoryKind::ToolTraceSummary => "tool_trace_summary",
    }
}

pub fn memory_sensitivity_label(sensitivity: MemorySensitivity) -> (r: &'static str)
    ensures
        r@ == match sensitivity {
            MemorySensitivity::Low => "low"@,
            MemorySensitivity::Medium => "medium"@,
            MemorySensitivity::High => "high"@,
        },
{
    match sensitivity {
        MemorySensitivity::Low => "low",
        MemorySensitivity::Medium => "medium",
        MemorySensitivity::High => "high",
    }
}

pub fn memory_status_label(status: MemoryStatus) -> (r: &'static str)
    ensures
        r@ == match status {
            MemoryStatus::Active => "active"@,
            MemoryStatus::Pending => "pending"@,
            MemoryStatus::Rejected => "rejected"@,
            MemoryStatus::Archived => "archived"@,
        },
{
    match status {
        MemoryStatus::Active => "active",
        MemoryStatus::Pending => "pending",
        MemoryStatus::Rejected => "rejected",
        MemoryStatus::Archived => "archived",
    }
}

// ---------------------------------------------------------------------------
// Dynamic tool calls
// ---------------------------------------------------------------------------

/// The text of member `key` of the arguments, when they parse as JSON and
/// the member is a string.
pub open spec fn argument_text(arguments_json: Option<String>, key: Seq<char>) -> Option<Seq<char>> {
    match arguments_json {
        Some(j) => match json_parse(j@) {
            Ok(v) => as_text(json_get(v, key)),
            Err(_) => None,
        },
        None => None,
    }
}

pub open spec fn text_or(o: Option<Seq<char>>, default: Seq<char>) -> Seq<char> {
    match o {
        Some(t) => t,
        None => default,
    }
}

/// The tool call of a dynamic tool named `name`: a skill (named by the
/// `name` argument, else `skill`), a multi-agent action (the `action`
/// argument, else `unknown`), a tool search, a request for user input or an
/// image view (their argument, else empty); any other name is a multi-agent
/// action of that name. Skill and multi-agent calls keep the arguments.
pub open spec fn dynamic_call_matches(
    r: ToolCall,
    id: Option<String>,
    name: Seq<char>,
    arguments_json: Option<String>,
) -> bool {
    if name == "skill"@ {
        r matches ToolCall::Skill { id: i, name: n, arguments_json: a } && i == id && n@ == text_or(
            argument_text(arguments_json, "name"@),
            "skill"@,
        ) && a == arguments_json
    } else if name == "multi_agent"@ {
        r matches ToolCall::MultiAgent { id: i, action: n, arguments_json: a } && i == id && n@
            == text_or(argument_text(arguments_json, "action"@), "unknown"@) && a == arguments_json
    } else if name == "tool_search"@ {
        r matches ToolCall::ToolSearch { id: i, query: q } && i == id && q@ == text_or(
            argument_text(arguments_json, "query"@),
            Seq::empty(),
        )
    } else if name == "request_user_input"@ {
        r matches ToolCall::RequestUserInput { id: i, prompt: p } && i == id && p@ == text_or(
            argument_text(arguments_json, "prompt"@),
            Seq::empty(),
        )
    } else if name == "view_image"@ {
        r matches ToolCall::ViewImage { id: i, path: p } && i == id && p@ == text_or(
            argument_text(arguments_json, "path"@),
            Seq::empty(),
        )
    } else {
        r matches ToolCall::MultiAgent { id: i, action: n, arguments_json: a } && i == id && n@
            == name && a == arguments_json
    }
}

fn argument_of(parsed: &Option<JsonValue>, arguments_json: &Option<String>, key: &str) -> (r: Option<String>)
    requires
        match *arguments_json {
            Some(j) => match json_parse(j@) {
                Ok(v) => *parsed == Some(v),
                Err(_) => parsed is None,
            },
            None => parsed is None,
        },
    ensures
        match r {
            Some(t) => argument_text(*arguments_json, key@) == Some(t@),
            None => argument_text(*arguments_json, key@) is None,
        },
{
    match parsed {
        Some(v) => match text_of(get(v, key)) {
            Some(t) => Some(owned(t)),
            None => None,
        },
        None => None,
    }
}

fn text_or_default(o: Option<String>, default: &str) -> (r: String)
    ensures
        r@ == match o {
            Some(t) => t@,
            None => default@,
        },
{
    match o {
        Some(t) => t,
        None => owned(default),
    }
}

/// The protocol tool call for a dynamic tool; see `dynamic_call_matches`.
pub fn dynamic_tool_call(id: Option<String>, name: &str, arguments_json: Option<String>) -> (r: ToolCall)
    ensures
        dynamic_call_matches(r, id, name@, arguments_json),
{
    let parsed: Option<JsonValue> = match &arguments_json {
        Some(j) => match crate::json::parse_json_text(j.as_str()) {
            Ok(v) => Some(v),
            Err(_) => None,
        },
        None => None,
    };
    proof {
        reveal_strlit("");
    }
    let ghost a = arguments_json;
    let ghost i = id;
    if str_eq(name, "skill") {
        let n = argument_of(&parsed, &arguments_json, "name");
        let r = ToolCall::Skill { id, name: text_or_default(n, "skill"), arguments_json };
        assert(dynamic_call_matches(r, i, name@, a));
        r
    } else if str_eq(name, "multi_agent") {
        let n = argument_of(&parsed, &arguments_json, "action");
        let r = ToolCall::MultiAgent { id, action: text_or_default(n, "unknown"), arguments_json };
        assert(dynamic_call_matches(r, i, name@, a));
        r
    } else if str_eq(name, "tool_search") {
        let q = argument_of(&parsed, &arguments_json, "query");
        let t = text_or_default(q, "");
        assert(t@ == text_or(argument_text(a, "query"@), Seq::empty()));
        let r = ToolCall::ToolSearch { id, query: t };
        assert(dynamic_call_matches(r, i, name@, a));
        r
    } else if str_eq(name, "request_user_input") {
        let p = argument_of(&parsed, &arguments_json, "prompt");
        let t = text_or_default(p, "");
        assert(t@ == text_or(argument_text(a, "prompt"@), Seq::empty()));
        let r = ToolCall::RequestUserInput { id, prompt: t };
        assert(dynamic_call_matches(r, i, name@, a));
        r
    } else if str_eq(name, "view_image") {
        let p = argument_of(&parsed, &arguments_json, "path");
        let t = text_or_default(p, "");
        assert(t@ == text_or(argument_text(a, "path"@), Seq::empty()));
        let r = ToolCall::ViewImage { id, path: t };
        assert(dynamic_call_matches(r, i, name@, a));
        r
    } else {
        let r = ToolCall::MultiAgent { id, action: owned(name), arguments_json };
        assert(dynamic_call_matches(r, i, name@, a));
        r
    }
}

// ---------------------------------------------------------------------------
// Protocol stream openings
// ---------------------------------------------------------------------------

/// Opens the protocol stream once: the thread start unless already emitted,
/// then the turn start unless already emitted; both are then marked emitted.
pub fn ensure_protocol_turn_started(
    output: &mut Vec<RuntimeEvent>,
    thread_id: &ThreadId,
    turn_id: &TurnId,
    emitted_thread: &mut bool,
    emitted_turn: &mut bool,
)
    ensures
        *final(emitted_thread),
        *final(emitted_turn),
        final(output)@ == old(output)@ + (if *old(emitted_thread) {
            Seq::empty()
        } else {
            seq![RuntimeEvent::ThreadStarted { thread_id: *thread_id }]
        }) + (if *old(emitted_turn) {
            Seq::empty()
        } else {
            seq![RuntimeEvent::TurnStarted { thread_id: *thread_id, turn_id: *turn_id }]
        }),
{
    let ghost start = output@;
    if !*emitted_thread {
        output.push(RuntimeEvent::ThreadStarted { thread_id: ThreadId(thread_id.0.clone()) });
        *emitted_thread = true;
    }
    let ghost mid = output@;
    if !*emitted_turn {
        output.push(
            RuntimeEvent::TurnStarted {
                thread_id: ThreadId(thread_id.0.clone()),
                turn_id: TurnId(turn_id.0.clone()),
            },
        );
        *emitted_turn = true;
    }
    proof {
        assert(output@ =~= start + (if *old(emitted_thread) {
            Seq::empty()
        } else {
            seq![RuntimeEvent::ThreadStarted { thread_id: *thread_id }]
        }) + (if *old(emitted_turn) {
            Seq::empty()
        } else {
            seq![RuntimeEvent::TurnStarted { thread_id: *thread_id, turn_id: *turn_id }]
        }));
    }
}

} // verus!
