//! One turn of the YunXi runtime: the messages a provider first sees, and the
//! loop that asks the provider, routes and runs the tools it calls, and
//! records every step as an agent event. The provider, the tool router and the
//! tool runtime are supplied by the caller; so are the turn's thread id, the
//! workspace instructions and any history restored from a parent session.
use vstd::prelude::*;
use crate::agent::{
    AgentConfig, AgentError, AgentEvent, AgentInput, AgentRunResult, AgentRunStatus, TokenUsage,
};
use crate::provider::{
    AgentProvider, ProviderMessage, ProviderRequest, ProviderResponse, ProviderRole, ProviderToolCall,
};
use crate::runtime::AgentTurn;
use crate::text::{concat, decimal, is_blank, opt_string_copy, owned, trim, trim_str, u64_to_decimal};
use crate::tools::{
    completed_event_matches, file_change_events, file_change_kind_for, map_tool_call, provider_call_id,
    rendered_response, request_kind, ToolRequestKind,
    render_tool_response, started_event_matches, tool_completed_event, tool_started_event,
    tool_warning_event, warning_matches, ToolRequest, ToolResponse,
};

verus! {

/// History restored from a parent session for the next prompt: its messages,
/// and whether it was compacted to fit the context window.
#[derive(Clone, Debug, PartialEq, Eq)]
pub struct RestoredHistory {
    pub messages: Vec<ProviderMessage>,
    pub compacted: bool,
}

pub open spec fn message_views(m: Seq<ProviderMessage>) -> Seq<(ProviderRole, Seq<char>)> {
    m.map_values(|x: ProviderMessage| (x.role, x.content@))
}

/// The messages a turn starts with: the workspace instructions as a system
/// message when there are any, the restored history, then the prompt as the
/// user's.
pub open spec fn initial_messages(
    instructions: Seq<char>,
    restored: Option<RestoredHistory>,
    prompt: Seq<char>,
) -> Seq<(ProviderRole, Seq<char>)> {
    (if instructions.len() > 0 {
        seq![(ProviderRole::System, instructions)]
    } else {
        Seq::empty()
    }) + (match restored {
        Some(h) => message_views(h.messages@),
        None => Seq::empty(),
    }) + seq![(ProviderRole::User, prompt)]
}

fn copy_message(m: &ProviderMessage) -> (r: ProviderMessage)
    ensures
        r == *m,
{
    ProviderMessage { role: m.role, content: m.content.clone() }
}

fn copy_messages(v: &Vec<ProviderMessage>) -> (r: Vec<ProviderMessage>)
    ensures
        r@ == v@,
{
    let mut out: Vec<ProviderMessage> = Vec::new();
    let mut i: usize = 0;
    while i < v.len()
        invariant
            i <= v@.len(),
            out@ == v@.take(i as int),
        decreases v@.len() - i,
    {
        out.push(copy_message(&v[i]));
        proof {
            assert(out@ =~= v@.take(i + 1));
        }
        i = i + 1;
    }
    proof {
        assert(v@.take(i as int) =~= v@);
    }
    out
}

fn copy_tool_call(c: &ProviderToolCall) -> (r: ProviderToolCall)
    ensures
        r == *c,
{
    match c {
        ProviderToolCall::Shell { id, command } => ProviderToolCall::Shell {
            id: opt_string_copy(id),
            command: command.clone(),
        },
        ProviderToolCall::Patch { id, patch } => ProviderToolCall::Patch {
            id: opt_string_copy(id),
            patch: patch.clone(),
        },
        ProviderToolCall::Mcp { id, server, tool, arguments_json } => ProviderToolCall::Mcp {
            id: opt_string_copy(id),
            server: server.clone(),
            tool: tool.clone(),
            arguments_json: opt_string_copy(arguments_json),
        },
        ProviderToolCall::Skill { id, name, arguments_json } => ProviderToolCall::Skill {
            id: opt_string_copy(id),
            name: name.clone(),
            arguments_json: opt_string_copy(arguments_json),
        },
        ProviderToolCall::MultiAgent { id, action, arguments_json } => ProviderToolCall::MultiAgent {
            id: opt_string_copy(id),
            action: action.clone(),
            arguments_json: opt_string_copy(arguments_json),
        },
        ProviderToolCall::ToolSearch { id, query } => ProviderToolCall::ToolSearch {
            id: opt_string_copy(id),
            query: query.clone(),
        },
        ProviderToolCall::RequestUserInput { id, prompt } => ProviderToolCall::RequestUserInput {
            id: opt_string_copy(id),
            prompt: prompt.clone(),
        },
        ProviderToolCall::ViewImage { id, path } => ProviderToolCall::ViewImage {
            id: opt_string_copy(id),
            path: path.clone(),
        },
    }
}

fn copy_tool_request(q: &ToolRequest) -> (r: ToolRequest)
    ensures
        r == *q,
{
    let kind = match &q.kind {
        ToolRequestKind::Shell { command } => ToolRequestKind::Shell { command: command.clone() },
        ToolRequestKind::Patch { patch } => ToolRequestKind::Patch { patch: patch.clone() },
        ToolRequestKind::Mcp { server, tool, arguments_json } => ToolRequestKind::Mcp {
            server: server.clone(),
            tool: tool.clone(),
            arguments_json: opt_string_copy(arguments_json),
        },
        ToolRequestKind::Skill { name, arguments_json } => ToolRequestKind::Skill {
            name: name.clone(),
            arguments_json: opt_string_copy(arguments_json),
        },
        ToolRequestKind::MultiAgent { action, arguments_json } => ToolRequestKind::MultiAgent {
            action: action.clone(),
            arguments_json: opt_string_copy(arguments_json),
        },
        ToolRequestKind::ToolSearch { query } => ToolRequestKind::ToolSearch { query: query.clone() },
        ToolRequestKind::RequestUserInput { prompt } => ToolRequestKind::RequestUserInput {
            prompt: prompt.clone(),
        },
        ToolRequestKind::ViewImage { path } => ToolRequestKind::ViewImage { path: path.clone() },
    };
    ToolRequest { id: opt_string_copy(&q.id), cwd: q.cwd.clone(), kind }
}

/// The messages a turn starts with; see `initial_messages`.
pub fn build_initial_messages(instructions: &str, restored: &Option<RestoredHistory>, prompt: &str) -> (r:
    Vec<ProviderMessage>)
    ensures
        message_views(r@) == initial_messages(instructions@, *restored, prompt@),
{
    let mut messages: Vec<ProviderMessage> = Vec::new();
    if instructions.unicode_len() > 0 {
        messages.push(ProviderMessage::system(instructions));
    }
    let ghost head = message_views(messages@);
    if let Some(history) = restored {
        let mut i: usize = 0;
        while i < history.messages.len()
            invariant
                i <= history.messages@.len(),
                message_views(messages@) == head + message_views(history.messages@.take(i as int)),
            decreases history.messages@.len() - i,
        {
            let ghost before = message_views(messages@);
            messages.push(copy_message(&history.messages[i]));
            proof {
                assert(message_views(messages@) =~= before.push(
                    (history.messages@[i as int].role, history.messages@[i as int].content@),
                ));
                assert(message_views(history.messages@.take(i + 1)) =~= message_views(
                    history.messages@.take(i as int),
                ).push((history.messages@[i as int].role, history.messages@[i as int].content@)));
            }
            i = i + 1;
        }
        proof {
            assert(history.messages@.take(i as int) =~= history.messages@);
        }
    }
    let ghost mid = message_views(messages@);
    messages.push(ProviderMessage::user(prompt));
    proof {
        assert(message_views(messages@) =~= mid.push((ProviderRole::User, prompt@)));
        assert(message_views(messages@) =~= initial_messages(instructions@, *restored, prompt@));
    }
    messages
}

/// How a restored history is reported.
pub open spec fn restored_note(h: RestoredHistory) -> Seq<char> {
    "Restored "@ + decimal(h.messages@.len()) + " history message(s); compacted="@ + (if h.compacted {
        "true"@
    } else {
        "false"@
    })
}

fn restored_reasoning(h: &RestoredHistory) -> (r: AgentEvent)
    ensures
        r matches AgentEvent::Reasoning { content } && content@ == restored_note(*h),
{
    let mut content = owned("Restored ");
    content.append(u64_to_decimal(h.messages.len() as u64).as_str());
    content.append(" history message(s); compacted=");
    content.append(if h.compacted { "true" } else { "false" });
    AgentEvent::Reasoning { content }
}

// ---------------------------------------------------------------------------
// Tools
// ---------------------------------------------------------------------------

/// A routed tool request and the router's account of its choice.
#[derive(Clone, Debug, PartialEq, Eq)]
pub struct ToolDispatch {
    pub trace: String,
    pub request: ToolRequest,
}

/// Chooses how a tool request runs.
pub trait ToolRouting {
    /// `r` is what this router may make of `request`.
    closed spec fn routes(&self, request: ToolRequest, r: Result<ToolDispatch, AgentError>) -> bool {
        true
    }

    fn route(&self, request: ToolRequest) -> (r: Result<ToolDispatch, AgentError>)
        ensures
            self.routes(request, r),
    ;
}

/// Runs tool requests.
pub trait ToolRuntime {
    /// `r` is what this runtime may answer to `request`.
    closed spec fn runs(&self, request: ToolRequest, r: Result<ToolResponse, AgentError>) -> bool {
        true
    }

    fn execute(&self, request: ToolRequest) -> (r: Result<ToolResponse, AgentError>)
        ensures
            self.runs(request, r),
    ;
}

/// The events of a routed request before it runs: the router's trace as
/// reasoning, then the request's start.
pub open spec fn dispatch_events_match(e: Seq<AgentEvent>, dispatch: ToolDispatch) -> bool {
    &&& e.len() == 2
    &&& e[0] matches AgentEvent::Reasoning { content } && content@ == dispatch.trace@
    &&& started_event_matches(e[1], dispatch.request)
}

pub fn dispatch_events(dispatch: &ToolDispatch) -> (r: Vec<AgentEvent>)
    ensures
        dispatch_events_match(r@, *dispatch),
{
    let mut out: Vec<AgentEvent> = Vec::new();
    out.push(AgentEvent::Reasoning { content: dispatch.trace.clone() });
    out.push(tool_started_event(&dispatch.request));
    out
}

/// The events of a response: its completion, a warning when it failed or was
/// declined with something to say, then one event per changed file.
pub open spec fn outcome_events_match(e: Seq<AgentEvent>, request: ToolRequest, response: ToolResponse) -> bool {
    let w: int = if warning_matches(None, response) {
        0
    } else {
        1
    };
    let files = response.changed_files@;
    &&& e.len() == 1 + w + files.len()
    &&& completed_event_matches(e[0], request, response)
    &&& w == 1 ==> warning_matches(Some(e[1]), response)
    &&& forall|i: int|
        0 <= i < files.len() ==> #[trigger] e[1 + w + i] == (AgentEvent::FileChanged {
            path: files[i].path,
            kind: file_change_kind_for(files[i].kind),
        })
}

pub fn tool_outcome_events(request: &ToolRequest, response: &ToolResponse) -> (r: Vec<AgentEvent>)
    ensures
        outcome_events_match(r@, *request, *response),
{
    let mut out: Vec<AgentEvent> = Vec::new();
    out.push(tool_completed_event(request, response));
    let warning = tool_warning_event(response);
    match warning {
        Some(w) => {
            out.push(w);
        },
        None => {},
    }
    let ghost head = out@;
    let mut files = file_change_events(response);
    out.append(&mut files);
    proof {
        assert(out@.len() == head.len() + response.changed_files@.len());
        assert forall|i: int| 0 <= i < response.changed_files@.len() implies #[trigger] out@[head.len()
            + i] == (AgentEvent::FileChanged {
            path: response.changed_files@[i].path,
            kind: file_change_kind_for(response.changed_files@[i].kind),
        }) by {}
    }
    out
}

// ---------------------------------------------------------------------------
// The turn
// ---------------------------------------------------------------------------

/// What follows one provider answer.
#[derive(Debug, PartialEq, Eq)]
pub enum TurnStep {
    /// No tool calls and a message: the turn ends with this response.
    Finish { response: String },
    /// No tool calls and no message: the turn ends without a response.
    NoResponse,
    /// Tool calls: the assistant's message, if any, joins the conversation and
    /// each call is routed and run in order.
    RunTools { assistant: Option<ProviderMessage>, calls: Vec<ProviderToolCall> },
}

pub open spec fn turn_step_spec(response: ProviderResponse) -> TurnStep {
    if response.tool_calls@.len() == 0 {
        match response.message {
            Some(m) => TurnStep::Finish { response: m.content },
            None => TurnStep::NoResponse,
        }
    } else {
        TurnStep::RunTools { assistant: response.message, calls: response.tool_calls }
    }
}

/// What the turn does with a provider answer; see `turn_step_spec`.
pub fn turn_step(response: ProviderResponse) -> (r: TurnStep)
    ensures
        r == turn_step_spec(response),
{
    if response.tool_calls.len() == 0 {
        match response.message {
            Some(m) => TurnStep::Finish { response: m.content },
            None => TurnStep::NoResponse,
        }
    } else {
        TurnStep::RunTools { assistant: response.message, calls: response.tool_calls }
    }
}

/// `text` is the response some provider answer finishes a turn with.
pub open spec fn finishes_with(response: ProviderResponse, text: String) -> bool {
    turn_step_spec(response) == (TurnStep::Finish { response: text })
}

/// The error of a turn that ends without a final response.
pub open spec fn turn_limit_message(max_turns: usize) -> Seq<char> {
    "runtime did not produce a final response within "@ + decimal(max_turns as nat) + " turns"@
}

/// The events a completed turn opens with: the thread and turn starts, the
/// trimmed prompt, and a note on any restored history.
pub open spec fn turn_opening(e: Seq<AgentEvent>, thread_id: Seq<char>, prompt: Seq<char>, restored: Option<RestoredHistory>) -> bool {
    &&& e.len() >= 3
    &&& e[0] matches AgentEvent::ThreadStarted { thread_id: t } && t@ == thread_id
    &&& e[1] == AgentEvent::TurnStarted
    &&& e[2] matches AgentEvent::Started { prompt: p } && p@ == prompt
    &&& match restored {
        Some(h) => e.len() >= 4 && (e[3] matches AgentEvent::Reasoning { content } && content@
            == restored_note(h)),
        None => true,
    }
}

/// A completed turn: it opens as `turn_opening` says, its final response is
/// the last event's message before the completion, and it completes.
pub open spec fn turn_completed(r: AgentRunResult, thread_id: Seq<char>, prompt: Seq<char>, restored: Option<RestoredHistory>) -> bool {
    let e = r.events@;
    &&& r.status == AgentRunStatus::Completed
    &&& r.final_response is Some
    &&& turn_opening(e, thread_id, prompt, restored)
    &&& e.len() >= 5
    &&& e[e.len() - 2] matches AgentEvent::Message { content } && content@ == r.final_response->0@
    &&& e[e.len() - 1] matches AgentEvent::Completed { status, .. } && status == AgentRunStatus::Completed
}

/// One tool-calling round of a turn: the provider's answer, and for each of
/// its tool calls the router's dispatch and the tool runtime's response.
pub type TurnRound = (ProviderResponse, Seq<(ToolDispatch, ToolResponse)>);

/// The request a tool call becomes (see `map_tool_call`).
pub open spec fn mapped_request(config: AgentConfig, call: ProviderToolCall) -> ToolRequest {
    ToolRequest { id: provider_call_id(call), cwd: config.cwd, kind: request_kind(call) }
}

/// The assistant message an answer adds to the conversation, if it has one.
pub open spec fn assistant_messages(answer: ProviderResponse) -> Seq<(ProviderRole, Seq<char>)> {
    match answer.message {
        Some(m) => seq![(m.role, m.content@)],
        None => Seq::empty(),
    }
}

/// The tool messages of a round: each response, rendered, in call order.
pub open spec fn tool_messages(exchanges: Seq<(ToolDispatch, ToolResponse)>) -> Seq<(ProviderRole, Seq<char>)> {
    exchanges.map_values(|e: (ToolDispatch, ToolResponse)| (ProviderRole::Tool, rendered_response(e.1)))
}

/// The conversation after `rounds`: the opening messages, then each round's
/// assistant message and tool results.
pub open spec fn conversation(start: Seq<(ProviderRole, Seq<char>)>, rounds: Seq<TurnRound>) -> Seq<
    (ProviderRole, Seq<char>),
>
    decreases rounds.len(),
{
    if rounds.len() == 0 {
        start
    } else {
        conversation(start, rounds.drop_last()) + assistant_messages(rounds.last().0) + tool_messages(
            rounds.last().1,
        )
    }
}

/// A request of the turn: the turn's configuration, the trimmed prompt, and
/// the conversation so far.
pub open spec fn turn_request(
    request: ProviderRequest,
    config: AgentConfig,
    prompt: Seq<char>,
    messages: Seq<(ProviderRole, Seq<char>)>,
) -> bool {
    request.config == config && request.input.prompt@ == prompt && message_views(request.messages@)
        == messages
}

/// A round that the provider, the router and the tool runtime gave: the
/// provider answered the request of the conversation so far with tool calls,
/// each call's request was routed, and each dispatched request was run.
pub open spec fn round_valid<P: AgentProvider, R: ToolRouting, T: ToolRuntime>(
    provider: P,
    router: R,
    tools: T,
    config: AgentConfig,
    prompt: Seq<char>,
    before: Seq<(ProviderRole, Seq<char>)>,
    round: TurnRound,
) -> bool {
    &&& exists|request: ProviderRequest|
        turn_request(request, config, prompt, before) && #[trigger] provider.answers(
            request,
            Ok::<ProviderResponse, AgentError>(round.0),
        )
    &&& round.0.tool_calls@.len() > 0
    &&& round.1.len() == round.0.tool_calls@.len()
    &&& forall|i: int|
        0 <= i < round.1.len() ==> router.routes(
            mapped_request(config, round.0.tool_calls@[i]),
            Ok::<ToolDispatch, AgentError>(#[trigger] round.1[i].0),
        ) && tools.runs(round.1[i].0.request, Ok::<ToolResponse, AgentError>(round.1[i].1))
}

/// Every round in turn was given by the provider, router and runtime, each
/// on the conversation the rounds before it left.
pub open spec fn rounds_valid<P: AgentProvider, R: ToolRouting, T: ToolRuntime>(
    provider: P,
    router: R,
    tools: T,
    config: AgentConfig,
    prompt: Seq<char>,
    start: Seq<(ProviderRole, Seq<char>)>,
    rounds: Seq<TurnRound>,
) -> bool {
    forall|j: int|
        0 <= j < rounds.len() ==> #[trigger] round_valid(
            provider,
            router,
            tools,
            config,
            prompt,
            conversation(start, rounds.take(j)),
            rounds[j],
        )
}

/// Why a turn may end with the turn-limit error: every one of its
/// `max_turns` rounds called tools, or the provider answered the request of
/// the conversation so far with neither a message nor tool calls.
pub open spec fn turn_ran_out<P: AgentProvider, R: ToolRouting, T: ToolRuntime>(
    provider: P,
    router: R,
    tools: T,
    max_turns: usize,
    turn: AgentTurn,
    instructions: Seq<char>,
    restored: Option<RestoredHistory>,
) -> bool {
    let prompt = trim(turn.input.prompt@);
    let start = initial_messages(instructions, restored, prompt);
    exists|rounds: Seq<TurnRound>|
        #[trigger] rounds_valid(provider, router, tools, turn.config, prompt, start, rounds) && (
        rounds.len() == max_turns || (rounds.len() < max_turns && exists|
            request: ProviderRequest,
            answer: ProviderResponse,
        |
            #[trigger] provider.answers(request, Ok::<ProviderResponse, AgentError>(answer))
                && turn_request(request, turn.config, prompt, conversation(start, rounds))
                && turn_step_spec(answer) == TurnStep::NoResponse))
}

/// What a turn can end in:
/// - a blank prompt is refused;
/// - with no turns allowed, a prompt gets the turn-limit error before the
///   provider is asked;
/// - any other error is the turn-limit error, when the turn ran out as
///   `turn_ran_out` says, or an error that the provider, the router or the
///   tool runtime gave;
/// - a completed turn has the shape `turn_completed` gives, and its final
///   response is the message of an answer the provider gave without tool
///   calls, to the request of the conversation that the rounds before it
///   built: each round an answer with tool calls to the conversation so far,
///   every call routed and its dispatched request run, the answer's message
///   and the rendered tool results added in order.
pub open spec fn turn_outcome<P: AgentProvider, R: ToolRouting, T: ToolRuntime>(
    provider: P,
    router: R,
    tools: T,
    r: Result<AgentRunResult, AgentError>,
    max_turns: usize,
    turn: AgentTurn,
    thread_id: Seq<char>,
    instructions: Seq<char>,
    restored: Option<RestoredHistory>,
) -> bool {
    &&& is_blank(turn.input.prompt@) ==> r == Err::<AgentRunResult, AgentError>(AgentError::EmptyPrompt)
    &&& !is_blank(turn.input.prompt@) && max_turns == 0 ==> (r matches Err(AgentError::Execution { message })
        && message@ == turn_limit_message(max_turns))
    &&& (!is_blank(turn.input.prompt@) && r is Err) ==> {
        ||| (r->Err_0 matches AgentError::Execution { message } && message@ == turn_limit_message(max_turns)
            && turn_ran_out(provider, router, tools, max_turns, turn, instructions, restored))
        ||| exists|request: ProviderRequest|
            #[trigger] provider.answers(request, Err::<ProviderResponse, AgentError>(r->Err_0))
        ||| exists|request: ToolRequest|
            #[trigger] router.routes(request, Err::<ToolDispatch, AgentError>(r->Err_0))
        ||| exists|request: ToolRequest|
            #[trigger] tools.runs(request, Err::<ToolResponse, AgentError>(r->Err_0))
    }
    &&& r is Ok ==> turn_completed(r->Ok_0, thread_id, trim(turn.input.prompt@), restored)
    &&& r is Ok ==> exists|rounds: Seq<TurnRound>, request: ProviderRequest, answer: ProviderResponse|
        #![trigger provider.answers(request, Ok::<ProviderResponse, AgentError>(answer)), conversation(initial_messages(instructions, restored, trim(turn.input.prompt@)), rounds)]
        {
            &&& provider.answers(request, Ok::<ProviderResponse, AgentError>(answer))
            &&& rounds.len() < max_turns
            &&& rounds_valid(
                provider,
                router,
                tools,
                turn.config,
                trim(turn.input.prompt@),
                initial_messages(instructions, restored, trim(turn.input.prompt@)),
                rounds,
            )
            &&& turn_request(
                request,
                turn.config,
                trim(turn.input.prompt@),
                conversation(initial_messages(instructions, restored, trim(turn.input.prompt@)), rounds),
            )
            &&& finishes_with(answer, r->Ok_0.final_response->0)
        }
}

/// Runs one turn: a blank prompt is refused; otherwise the provider is asked
/// up to `max_turns` times with the messages so far, and `turn_step` says what
/// follows each answer. An answer without tool calls ends the turn with its
/// message as the final response (without a message, with no response); each tool call
/// is mapped to a request, routed and run, its events recorded and its
/// rendered response added as a tool message. An error of the provider, the
/// router or the runtime ends the turn with that error; running out of turns
/// without a final response is an error too.
pub fn run_turn<P: AgentProvider, R: ToolRouting, T: ToolRuntime>(
    provider: &P,
    router: &R,
    tools: &T,
    max_turns: usize,
    turn: &AgentTurn,
    thread_id: &str,
    instructions: &str,
    restored: Option<RestoredHistory>,
) -> (r: Result<AgentRunResult, AgentError>)
    ensures
        turn_outcome(*provider, *router, *tools, r, max_turns, *turn, thread_id@, instructions@, restored),
{
    let prompt = trim_str(turn.input.prompt.as_str());
    if prompt.unicode_len() == 0 {
        return Err(AgentError::EmptyPrompt);
    }
    let mut events: Vec<AgentEvent> = Vec::new();
    events.push(AgentEvent::ThreadStarted { thread_id: owned(thread_id) });
    events.push(AgentEvent::TurnStarted);
    events.push(AgentEvent::Started { prompt: owned(prompt) });
    let mut messages = build_initial_messages(instructions, &restored, prompt);
    let ghost start = initial_messages(instructions@, restored, prompt@);
    if let Some(history) = &restored {
        events.push(restored_reasoning(history));
    }
    let ghost opening = events@;
    assert(turn_opening(opening, thread_id@, prompt@, restored));
    let mut final_response: Option<String> = None;
    let ghost mut finisher: Option<ProviderResponse> = None;
    let ghost mut asked: ProviderRequest = arbitrary();
    let ghost mut rounds: Seq<TurnRound> = Seq::empty();
    let ghost mut no_response = false;
    let mut usage: Option<TokenUsage> = None;
    let mut k: usize = 0;
    while k < max_turns
        invariant_except_break
            final_response is None,
            !no_response,
        invariant
            k <= max_turns,
            prompt@ == trim(turn.input.prompt@),
            prompt@.len() > 0,
            start == initial_messages(instructions@, restored, prompt@),
            events@.len() >= opening.len(),
            events@.take(opening.len() as int) == opening,
            max_turns == 0 ==> final_response is None,
            final_response is None && !no_response ==> rounds.len() == k,
            no_response ==> {
                &&& final_response is None
                &&& finisher is Some
                &&& turn_step_spec(finisher->0) == TurnStep::NoResponse
                &&& provider.answers(asked, Ok::<ProviderResponse, AgentError>(finisher->0))
                &&& turn_request(asked, turn.config, prompt@, conversation(start, rounds))
                &&& rounds.len() < max_turns
            },
            rounds_valid(*provider, *router, *tools, turn.config, prompt@, start, rounds),
            message_views(messages@) == conversation(start, rounds),
            final_response is Some ==> {
                &&& finisher is Some
                &&& finishes_with(finisher->0, final_response->0)
                &&& provider.answers(asked, Ok::<ProviderResponse, AgentError>(finisher->0))
                &&& turn_request(asked, turn.config, prompt@, conversation(start, rounds))
                &&& rounds.len() < max_turns
            },
        ensures
            final_response is Some || no_response || (k >= max_turns && rounds.len() == k),
        decreases max_turns - k,
    {
        events.push(AgentEvent::Reasoning { content: owned("Provider turn started") });
        let request = ProviderRequest::with_messages(
            turn.config.copy(),
            AgentInput::text(prompt),
            copy_messages(&messages),
        );
        assert(turn_request(request, turn.config, prompt@, conversation(start, rounds)));
        let response = match provider.complete(&request) {
            Ok(response) => response,
            Err(e) => {
                return Err(e);
            },
        };
        usage = response.usage;
        events.push(AgentEvent::Reasoning { content: owned("Provider turn completed") });
        let ghost answer = response;
        let calls = match turn_step(response) {
            TurnStep::Finish { response: text } => {
                final_response = Some(text);
                proof {
                    finisher = Some(answer);
                    asked = request;
                    assert(events@.take(opening.len() as int) =~= opening);
                }
                break;
            },
            TurnStep::NoResponse => {
                proof {
                    no_response = true;
                    finisher = Some(answer);
                    asked = request;
                    assert(events@.take(opening.len() as int) =~= opening);
                }
                break;
            },
            TurnStep::RunTools { assistant, calls } => {
                if let Some(m) = assistant {
                    messages.push(m);
                }
                calls
            },
        };
        assert(message_views(messages@) =~= conversation(start, rounds) + assistant_messages(answer));
        let ghost mut exchanges: Seq<(ToolDispatch, ToolResponse)> = Seq::empty();
        let mut i: usize = 0;
        proof {
            assert(events@.take(opening.len() as int) =~= opening);
            assert(tool_messages(exchanges) =~= Seq::<(ProviderRole, Seq<char>)>::empty());
        }
        while i < calls.len()
            invariant
                final_response is None,
                k < max_turns,
                rounds.len() == k,
                i <= calls@.len(),
                calls@ == answer.tool_calls@,
                calls@.len() > 0,
                prompt@ == trim(turn.input.prompt@),
                prompt@.len() > 0,
                events@.len() >= opening.len(),
                events@.take(opening.len() as int) == opening,
                exchanges.len() == i,
                message_views(messages@) == conversation(start, rounds) + assistant_messages(answer)
                    + tool_messages(exchanges),
                forall|j: int|
                    0 <= j < i ==> router.routes(
                        mapped_request(turn.config, answer.tool_calls@[j]),
                        Ok::<ToolDispatch, AgentError>(#[trigger] exchanges[j].0),
                    ) && tools.runs(exchanges[j].0.request, Ok::<ToolResponse, AgentError>(exchanges[j].1)),
            decreases calls@.len() - i,
        {
            let tool_request = map_tool_call(&turn.config, copy_tool_call(&calls[i]));
            let dispatch = match router.route(tool_request) {
                Ok(d) => d,
                Err(e) => {
                    return Err(e);
                },
            };
            let mut started = dispatch_events(&dispatch);
            events.append(&mut started);
            let tool_response = match tools.execute(copy_tool_request(&dispatch.request)) {
                Ok(t) => t,
                Err(e) => {
                    return Err(e);
                },
            };
            let mut outcome = tool_outcome_events(&dispatch.request, &tool_response);
            events.append(&mut outcome);
            let ghost before_push = messages@;
            messages.push(ProviderMessage::tool(render_tool_response(&tool_response).as_str()));
            proof {
                let old_ex = exchanges;
                exchanges = exchanges.push((dispatch, tool_response));
                assert(tool_messages(exchanges) =~= tool_messages(old_ex).push(
                    (ProviderRole::Tool, rendered_response(tool_response)),
                ));
                assert(message_views(messages@) =~= message_views(before_push).push(
                    (ProviderRole::Tool, rendered_response(tool_response)),
                ));
                assert(events@.take(opening.len() as int) =~= opening);
            }
            i = i + 1;
        }
        proof {
            let old_rounds = rounds;
            let round = (answer, exchanges);
            assert(round_valid(*provider, *router, *tools, turn.config, prompt@, conversation(start, old_rounds), round));
            rounds = rounds.push(round);
            assert(rounds.drop_last() =~= old_rounds);
            assert(rounds.take(old_rounds.len() as int) =~= old_rounds);
            assert forall|j: int| 0 <= j < rounds.len() implies #[trigger] round_valid(
                *provider,
                *router,
                *tools,
                turn.config,
                prompt@,
                conversation(start, rounds.take(j)),
                rounds[j],
            ) by {
                if j < old_rounds.len() {
                    assert(rounds.take(j) =~= old_rounds.take(j));
                    assert(rounds[j] == old_rounds[j]);
                }
            }
        }
        k = k + 1;
    }
    assert(final_response is None && !no_response ==> rounds.len() == max_turns);
    let final_text = match final_response {
        Some(f) => f,
        None => {
            let mut message = owned("runtime did not produce a final response within ");
            message.append(u64_to_decimal(max_turns as u64).as_str());
            message.append(" turns");
            assert(message@ =~= turn_limit_message(max_turns));
            proof {
                if no_response {
                    assert(provider.answers(asked, Ok::<ProviderResponse, AgentError>(finisher->0)));
                    assert(turn_request(asked, turn.config, prompt@, conversation(start, rounds)));
                } else {
                    assert(rounds.len() == max_turns);
                }
                assert(rounds_valid(*provider, *router, *tools, turn.config, prompt@, start, rounds));
                assert(turn_ran_out(*provider, *router, *tools, max_turns, *turn, instructions@, restored));
            }
            return Err(AgentError::Execution { message });
        },
    };
    events.push(AgentEvent::Message { content: final_text.clone() });
    events.push(AgentEvent::Completed { status: AgentRunStatus::Completed, usage });
    proof {
        assert(events@.take(opening.len() as int) =~= opening);
        assert(events@[0] == opening[0]);
        assert(events@[1] == opening[1]);
        assert(events@[2] == opening[2]);
        if restored is Some {
            assert(events@[3] == opening[3]);
        }
    }
    Ok(AgentRunResult {
        status: AgentRunStatus::Completed,
        final_response: Some(final_text),
        events,
    })
}

/// The YunXi runtime over a provider, a tool router and a tool runtime, with
/// a bound on provider turns.
pub struct YunXiRuntimeBackend<P, R, T> {
    provider: P,
    router: R,
    tools: T,
    max_turns: usize,
}

impl<P: AgentProvider, R: ToolRouting, T: ToolRuntime> YunXiRuntimeBackend<P, R, T> {
    pub closed spec fn spec_max_turns(&self) -> usize {
        self.max_turns
    }

    pub closed spec fn spec_provider(&self) -> P {
        self.provider
    }

    pub closed spec fn spec_router(&self) -> R {
        self.router
    }

    pub closed spec fn spec_tools(&self) -> T {
        self.tools
    }

    /// A runtime over these parts, allowing the default number of turns.
    pub fn with_parts(provider: P, router: R, tools: T) -> (r: YunXiRuntimeBackend<P, R, T>)
        ensures
            r.spec_max_turns() == crate::runtime::DEFAULT_MAX_TURNS,
            r.spec_provider() == provider,
            r.spec_router() == router,
            r.spec_tools() == tools,
    {
        YunXiRuntimeBackend { provider, router, tools, max_turns: crate::runtime::DEFAULT_MAX_TURNS }
    }

    /// The runtime allowing `max_turns` provider turns, at least one.
    pub fn with_max_turns(self, max_turns: usize) -> (r: YunXiRuntimeBackend<P, R, T>)
        ensures
            r.spec_max_turns() == if max_turns < 1 {
                1
            } else {
                max_turns
            },
            r.spec_provider() == self.spec_provider(),
            r.spec_router() == self.spec_router(),
            r.spec_tools() == self.spec_tools(),
    {
        YunXiRuntimeBackend { max_turns: if max_turns < 1 { 1 } else { max_turns }, ..self }
    }

    /// Runs one turn with this runtime's provider, router, tools and turn
    /// bound; see `run_turn`.
    pub fn run_turn(
        &self,
        turn: &AgentTurn,
        thread_id: &str,
        instructions: &str,
        restored: Option<RestoredHistory>,
    ) -> (r: Result<AgentRunResult, AgentError>)
        ensures
            turn_outcome(
                self.spec_provider(),
                self.spec_router(),
                self.spec_tools(),
                r,
                self.spec_max_turns(),
                *turn,
                thread_id@,
                instructions@,
                restored,
            ),
    {
        run_turn(&self.provider, &self.router, &self.tools, self.max_turns, turn, thread_id, instructions, restored)
    }
}

} // verus!
