//! The runtime layer: turns and their context, event sinks, and the mapping of
//! streamed protocol events onto agent events.
use vstd::prelude::*;
use crate::agent::{
    AgentConfig, AgentError, AgentEvent, AgentInput, AgentRunResult, AgentRunStatus,
    CommandStatus,
};
use crate::protocol::{
    ContentItem, ResponseItem, ResponseItemDelta, ResponseStatus, StreamEvent, ToolCall,
    ToolCallStatus,
};
use crate::text::{chars_of, concat, opt_string_copy, owned, push_char};

verus! {

/// How many provider turns a runtime context allows by default.
pub const DEFAULT_MAX_TURNS: usize = 8;

/// One turn: the configuration and the user's input.
#[derive(Clone, Debug, PartialEq, Eq)]
pub struct AgentTurn {
    pub config: AgentConfig,
    pub input: AgentInput,
}

impl AgentTurn {
    pub fn new(config: AgentConfig, input: AgentInput) -> (r: AgentTurn)
        ensures
            r == (AgentTurn { config, input }),
    {
        AgentTurn { config, input }
    }
}

/// The configuration a runtime works under and how many turns it allows.
#[derive(Clone, Debug, PartialEq, Eq)]
pub struct RuntimeContext {
    pub config: AgentConfig,
    pub max_turns: usize,
}

impl RuntimeContext {
    pub fn new(config: AgentConfig) -> (r: RuntimeContext)
        ensures
            r.config == config,
            r.max_turns == DEFAULT_MAX_TURNS,
    {
        RuntimeContext { config, max_turns: DEFAULT_MAX_TURNS }
    }
}

/// A backend that runs one turn.
pub trait RuntimeBackend {
    fn run_turn(&self, turn: AgentTurn) -> Result<AgentRunResult, AgentError>;
}

/// Where a runtime sends its events.
pub trait RuntimeEventSink {
    fn emit(&mut self, event: AgentEvent) -> Result<(), AgentError>;

    fn events(&self) -> Result<Vec<AgentEvent>, AgentError>;
}

/// A sink that keeps every event in order.
#[derive(Clone, Debug)]
pub struct VecEventSink {
    events: Vec<AgentEvent>,
}

impl VecEventSink {
    /// The events emitted so far, oldest first.
    pub closed spec fn emitted(&self) -> Seq<AgentEvent> {
        self.events@
    }

    pub fn new() -> (r: VecEventSink)
        ensures
            r.emitted() == Seq::<AgentEvent>::empty(),
    {
        VecEventSink { events: Vec::new() }
    }
}

impl Default for VecEventSink {
    fn default() -> (r: Self)
        ensures
            r.emitted() == Seq::<AgentEvent>::empty(),
    {
        VecEventSink::new()
    }
}

impl RuntimeEventSink for VecEventSink {
    fn emit(&mut self, event: AgentEvent) -> (r: Result<(), AgentError>)
        ensures
            r is Ok,
            final(self).emitted() == old(self).emitted().push(event),
    {
        self.events.push(event);
        Ok(())
    }

    fn events(&self) -> (r: Result<Vec<AgentEvent>, AgentError>)
        ensures
            r is Ok,
            r->Ok_0@.len() == self.emitted().len(),
            forall|i: int|
                0 <= i < self.emitted().len() ==> cloned::<AgentEvent>(
                    self.emitted()[i],
                    #[trigger] r->Ok_0@[i],
                ),
    {
        Ok(self.events.clone())
    }
}

// ---------------------------------------------------------------------------
// Stream events to agent events
// ---------------------------------------------------------------------------

/// A lower-case hexadecimal digit.
pub open spec fn hex_digit(n: int) -> char {
    if n < 10 {
        (48 + n) as char
    } else {
        (87 + n) as char
    }
}

/// How JSON writes one character inside a string: quote and backslash
/// escaped by a backslash, backspace, tab, line feed, form feed and carriage
/// return by their letter, the other characters below U+0020 as `\u00XX`
/// (lower-case hex), and every other character as itself.
pub open spec fn json_escape(c: char) -> Seq<char> {
    let u = c as u32;
    if c == '"' {
        seq!['\\', '"']
    } else if c == '\\' {
        seq!['\\', '\\']
    } else if u == 8 {
        seq!['\\', 'b']
    } else if u == 9 {
        seq!['\\', 't']
    } else if u == 10 {
        seq!['\\', 'n']
    } else if u == 12 {
        seq!['\\', 'f']
    } else if u == 13 {
        seq!['\\', 'r']
    } else if u < 32 {
        seq!['\\', 'u', '0', '0', hex_digit(u as int / 16), hex_digit(u as int % 16)]
    } else {
        seq![c]
    }
}

/// The characters of `value`, each written as `json_escape` says.
pub open spec fn json_escaped(value: Seq<char>) -> Seq<char>
    decreases value.len(),
{
    if value.len() == 0 {
        Seq::empty()
    } else {
        json_escaped(value.drop_last()) + json_escape(value.last())
    }
}

/// The JSON string literal that encodes `value`, as `serde_json` writes it:
/// the escaped characters between double quotes. Kept opaque: the events
/// that quote text speak of the literal as a whole.
#[verifier::opaque]
pub open spec fn json_string_literal(value: Seq<char>) -> Seq<char> {
    seq!['"'] + json_escaped(value) + seq!['"']
}

fn hex_char(n: u32) -> (r: char)
    requires
        n < 16,
    ensures
        r == hex_digit(n as int),
{
    if n < 10 {
        ((48 + n) as u8) as char
    } else {
        ((87 + n) as u8) as char
    }
}

fn push_escaped(out: &mut String, c: char)
    ensures
        final(out)@ == old(out)@ + json_escape(c),
{
    let u = c as u32;
    if c == '"' {
        push_char(out, '\\');
        push_char(out, '"');
    } else if c == '\\' {
        push_char(out, '\\');
        push_char(out, '\\');
    } else if u == 8 {
        push_char(out, '\\');
        push_char(out, 'b');
    } else if u == 9 {
        push_char(out, '\\');
        push_char(out, 't');
    } else if u == 10 {
        push_char(out, '\\');
        push_char(out, 'n');
    } else if u == 12 {
        push_char(out, '\\');
        push_char(out, 'f');
    } else if u == 13 {
        push_char(out, '\\');
        push_char(out, 'r');
    } else if u < 32 {
        push_char(out, '\\');
        push_char(out, 'u');
        push_char(out, '0');
        push_char(out, '0');
        push_char(out, hex_char(u / 16));
        push_char(out, hex_char(u % 16));
    } else {
        push_char(out, c);
    }
    proof {
        assert(final(out)@ =~= old(out)@ + json_escape(c));
    }
}

/// The JSON string literal that encodes `value`; see `json_string_literal`.
pub fn json_string(value: &str) -> (r: String)
    ensures
        r@ == json_string_literal(value@),
{
    let chars = chars_of(value);
    let mut out = String::new();
    push_char(&mut out, '"');
    let mut i: usize = 0;
    while i < chars.len()
        invariant
            chars@ == value@,
            i <= chars@.len(),
            out@ == seq!['"'] + json_escaped(value@.take(i as int)),
        decreases chars@.len() - i,
    {
        proof {
            assert(value@.take(i + 1).drop_last() =~= value@.take(i as int));
            assert(value@.take(i + 1).last() == value@[i as int]);
        }
        push_escaped(&mut out, chars[i]);
        i = i + 1;
    }
    assert(value@.take(i as int) =~= value@);
    push_char(&mut out, '"');
    proof {
        reveal(json_string_literal);
    }
    out
}

/// The one-field JSON object `{"key":encoded}`, `encoded` being a JSON value.
pub fn json_object_with(key: &str, encoded: &str) -> (r: String)
    ensures
        r@ == "{\""@ + key@ + "\":"@ + encoded@ + "}"@,
{
    let open = concat("{\"", key);
    let head = concat(open.as_str(), "\":");
    concat(head.as_str(), concat(encoded, "}").as_str())
}

/// The first text of a message's content items.
pub open spec fn content_text(items: Seq<ContentItem>) -> Option<String>
    decreases items.len(),
{
    if items.len() == 0 {
        None
    } else {
        match items[0] {
            ContentItem::InputText { text } => Some(text),
            ContentItem::OutputText { text } => Some(text),
            _ => content_text(items.skip(1)),
        }
    }
}

/// The name by which a tool-call status is reported.
pub open spec fn tool_status_name(status: ToolCallStatus) -> Seq<char> {
    match status {
        ToolCallStatus::InProgress => "InProgress"@,
        ToolCallStatus::Completed => "Completed"@,
        ToolCallStatus::Failed => "Failed"@,
        ToolCallStatus::Cancelled => "Cancelled"@,
    }
}

pub open spec fn command_status_of(status: ToolCallStatus) -> CommandStatus {
    match status {
        ToolCallStatus::Completed => CommandStatus::Completed,
        ToolCallStatus::InProgress => CommandStatus::InProgress,
        ToolCallStatus::Failed => CommandStatus::Failed,
        ToolCallStatus::Cancelled => CommandStatus::Failed,
    }
}

pub open spec fn run_status_of(status: ResponseStatus) -> AgentRunStatus {
    match status {
        ResponseStatus::Completed => AgentRunStatus::Completed,
        _ => AgentRunStatus::Failed,
    }
}

/// `e` is a `ToolCallStarted` event with this id, name and arguments.
pub open spec fn tool_started_is(
    e: AgentEvent,
    id: Option<String>,
    name: Seq<char>,
    arguments: Option<Seq<char>>,
) -> bool {
    &&& e matches AgentEvent::ToolCallStarted { id: i, name: n, arguments_json: a }
    &&& i == id
    &&& n@ == name
    &&& match (a, arguments) {
        (Some(x), Some(y)) => x@ == y,
        (None, None) => true,
        _ => false,
    }
}

/// The event that announces a tool call.
pub open spec fn tool_call_event_matches(e: AgentEvent, call: ToolCall) -> bool {
    match call {
        ToolCall::Shell { id, command } => e == (AgentEvent::CommandStarted { id, command }),
        ToolCall::Patch { id, patch } => tool_started_is(e, id, "patch"@, Some(patch@)),
        ToolCall::Mcp { id, server, tool, .. } => e == (AgentEvent::McpToolStarted {
            id,
            server,
            tool,
        }),
        ToolCall::Skill { id, name, arguments_json } => e == (AgentEvent::ToolCallStarted {
            id,
            name,
            arguments_json,
        }),
        ToolCall::MultiAgent { id, action, arguments_json } => tool_started_is(
            e,
            id,
            "multi_agent:"@ + action@,
            match arguments_json {
                Some(a) => Some(a@),
                None => None,
            },
        ),
        ToolCall::ToolSearch { id, query } => tool_started_is(
            e,
            id,
            "tool_search"@,
            Some("{\""@ + "query"@ + "\":"@ + json_string_literal(query@) + "}"@),
        ),
        ToolCall::RequestUserInput { id, prompt } => tool_started_is(
            e,
            id,
            "request_user_input"@,
            Some("{\""@ + "prompt"@ + "\":"@ + json_string_literal(prompt@) + "}"@),
        ),
        ToolCall::ViewImage { id, path } => tool_started_is(
            e,
            id,
            "view_image"@,
            Some("{\""@ + "path"@ + "\":"@ + json_string_literal(path@) + "}"@),
        ),
    }
}

/// How many agent events a response item gives.
pub open spec fn item_event_count(item: ResponseItem) -> nat {
    match item {
        ResponseItem::Message { .. } => 1,
        ResponseItem::AgentMessage { content } => if content_text(content@) is Some {
            1
        } else {
            0
        },
        ResponseItem::Reasoning { .. } => 1,
        ResponseItem::ReasoningItem { summary_text } => if summary_text@.len() > 0 {
            1
        } else {
            0
        },
        ResponseItem::ToolCall { .. } => 1,
        ResponseItem::FunctionCall { .. } => 1,
        ResponseItem::McpToolCall { .. } => 1,
        ResponseItem::Compaction { .. } => 1,
        _ => 0,
    }
}

/// The agent events of a response item: messages and reasoning pass their
/// text on, tool calls are announced, anything else is dropped.
pub open spec fn item_events_match(out: Seq<AgentEvent>, item: ResponseItem) -> bool {
    &&& out.len() == item_event_count(item)
    &&& match item {
        ResponseItem::Message { content, .. } => out[0] == (AgentEvent::Message { content }),
        ResponseItem::AgentMessage { content } => match content_text(content@) {
            Some(t) => out[0] == (AgentEvent::Message { content: t }),
            None => true,
        },
        ResponseItem::Reasoning { content } => out[0] == (AgentEvent::Reasoning { content }),
        ResponseItem::ReasoningItem { summary_text } => summary_text@.len() > 0 ==> out[0] == (
        AgentEvent::Reasoning { content: summary_text@[0] }),
        ResponseItem::ToolCall { call } => tool_call_event_matches(out[0], call),
        ResponseItem::FunctionCall { call_id, name, arguments, .. } => out[0] == (
        AgentEvent::ToolCallStarted {
            id: Some(call_id),
            name,
            arguments_json: Some(arguments),
        }),
        ResponseItem::McpToolCall { call_id, server, tool, .. } => out[0] == (
        AgentEvent::McpToolStarted { id: Some(call_id), server, tool }),
        ResponseItem::Compaction { summary } => out[0] == (AgentEvent::Reasoning {
            content: summary,
        }),
        _ => true,
    }
}

/// How many agent events a delta gives.
pub open spec fn delta_event_count(delta: ResponseItemDelta) -> nat {
    match delta {
        ResponseItemDelta::ToolCallName { .. } => 0,
        ResponseItemDelta::ToolOutput { .. } => 0,
        _ => 1,
    }
}

/// The agent events of a delta: text and reasoning chunks pass on, argument
/// chunks update the command, a status completes the tool call; a name chunk
/// and a tool-output chunk give none.
pub open spec fn delta_events_match(out: Seq<AgentEvent>, delta: ResponseItemDelta) -> bool {
    &&& out.len() == delta_event_count(delta)
    &&& match delta {
        ResponseItemDelta::MessageContent { delta, .. } => out[0] == (AgentEvent::Message {
            content: delta,
        }),
        ResponseItemDelta::ReasoningContent { delta, .. } => out[0] == (AgentEvent::Reasoning {
            content: delta,
        }),
        ResponseItemDelta::ToolCallArguments { call_id, delta } => {
            &&& out[0] matches AgentEvent::CommandUpdated { id, command, aggregated_output }
            &&& id == call_id
            &&& command@ == "tool_arguments"@
            &&& aggregated_output == delta
        },
        ResponseItemDelta::ToolCallStatus { call_id, status } => {
            &&& out[0] matches AgentEvent::ToolCallCompleted { id, name, output, status: s }
            &&& id == call_id
            &&& name@ == "tool"@
            &&& output@ == "tool status: "@ + tool_status_name(status)
            &&& s == command_status_of(status)
        },
        ResponseItemDelta::ToolCallName { .. } => true,
        ResponseItemDelta::ToolOutput { .. } => true,
    }
}

/// How many agent events a stream event gives.
pub open spec fn stream_event_count(event: StreamEvent) -> nat {
    match event {
        StreamEvent::ResponseStarted { .. } => 2,
        StreamEvent::ItemStarted { item, .. } => item_event_count(item),
        StreamEvent::ItemCompleted { item, .. } => item_event_count(item),
        StreamEvent::ItemDelta { delta, .. } => delta_event_count(delta),
        StreamEvent::ResponseCompleted { .. } => 1,
        StreamEvent::ResponseFailed { .. } => 1,
    }
}

/// The agent events of one stream event.
pub open spec fn stream_event_events_match(out: Seq<AgentEvent>, event: StreamEvent) -> bool {
    match event {
        StreamEvent::ResponseStarted { thread_id, .. } => {
            &&& out.len() == 2
            &&& out[0] == (AgentEvent::ThreadStarted { thread_id: thread_id.0 })
            &&& out[1] == AgentEvent::TurnStarted
        },
        StreamEvent::ItemStarted { item, .. } => item_events_match(out, item),
        StreamEvent::ItemCompleted { item, .. } => item_events_match(out, item),
        StreamEvent::ItemDelta { delta, .. } => delta_events_match(out, delta),
        StreamEvent::ResponseCompleted { status, .. } => {
            &&& out.len() == 1
            &&& out[0] == (AgentEvent::Completed { status: run_status_of(status), usage: None })
        },
        StreamEvent::ResponseFailed { message, .. } => {
            &&& out.len() == 1
            &&& out[0] == (AgentEvent::Error { message })
        },
    }
}

/// Where the agent events of the `i`-th stream event start.
pub open spec fn event_offset(events: Seq<StreamEvent>, i: int) -> nat
    decreases i,
{
    if i <= 0 {
        0
    } else {
        event_offset(events, i - 1) + stream_event_count(events[i - 1])
    }
}

/// Each stream event, in order, gives its agent events.
pub open spec fn agent_events_match(out: Seq<AgentEvent>, events: Seq<StreamEvent>) -> bool {
    &&& out.len() == event_offset(events, events.len() as int)
    &&& forall|j: int|
        0 <= j < events.len() ==> stream_event_events_match(
            out.subrange(event_offset(events, j) as int, event_offset(events, j + 1) as int),
            #[trigger] events[j],
        )
}

proof fn lemma_offset_monotone(events: Seq<StreamEvent>, a: int, b: int)
    requires
        a <= b,
    ensures
        event_offset(events, a) <= event_offset(events, b),
    decreases b - a,
{
    if a < b {
        lemma_offset_monotone(events, a, b - 1);
    }
}

/// Appending the agent events of the next stream event keeps the earlier
/// ones where they were.
#[verifier::spinoff_prover]
#[verifier::rlimit(100)]
proof fn lemma_extend_events(
    events: Seq<StreamEvent>,
    before: Seq<AgentEvent>,
    after: Seq<AgentEvent>,
    i: int,
)
    requires
        0 <= i < events.len(),
        before.len() == event_offset(events, i),
        after.len() == before.len() + stream_event_count(events[i]),
        after.subrange(0, before.len() as int) == before,
        stream_event_events_match(after.skip(before.len() as int), events[i]),
        forall|j: int|
            0 <= j < i ==> stream_event_events_match(
                before.subrange(event_offset(events, j) as int, event_offset(events, j + 1) as int),
                #[trigger] events[j],
            ),
    ensures
        after.len() == event_offset(events, i + 1),
        forall|j: int|
            0 <= j < i + 1 ==> stream_event_events_match(
                after.subrange(event_offset(events, j) as int, event_offset(events, j + 1) as int),
                #[trigger] events[j],
            ),
{
    assert(after.skip(before.len() as int) =~= after.subrange(
        event_offset(events, i) as int,
        event_offset(events, i + 1) as int,
    ));
    assert forall|j: int| 0 <= j < i + 1 implies stream_event_events_match(
        after.subrange(event_offset(events, j) as int, event_offset(events, j + 1) as int),
        #[trigger] events[j],
    ) by {
        if j < i {
            lemma_offset_monotone(events, j + 1, i);
            lemma_offset_monotone(events, j, j + 1);
            assert(after.subrange(event_offset(events, j) as int, event_offset(events, j + 1) as int)
                =~= before.subrange(
                event_offset(events, j) as int,
                event_offset(events, j + 1) as int,
            ));
        }
    }
}

/// The first text among message content items.
fn first_content_text(items: &Vec<ContentItem>) -> (r: Option<String>)
    ensures
        r == content_text(items@),
{
    let mut i: usize = 0;
    assert(items@.skip(0) =~= items@);
    while i < items.len()
        invariant
            i <= items@.len(),
            content_text(items@) == content_text(items@.skip(i as int)),
        decreases items@.len() - i,
    {
        proof {
            assert(items@.skip(i as int).skip(1) =~= items@.skip(i + 1));
            assert(items@.skip(i as int)[0] == items@[i as int]);
        }
        match &items[i] {
            ContentItem::InputText { text } => {
                return Some(text.clone());
            },
            ContentItem::OutputText { text } => {
                return Some(text.clone());
            },
            _ => {},
        }
        i = i + 1;
    }
    None
}

/// The event that announces `call`.
fn tool_call_started_event(call: &ToolCall) -> (r: AgentEvent)
    ensures
        tool_call_event_matches(r, *call),
{
    match call {
        ToolCall::Shell { id, command } => AgentEvent::CommandStarted {
            id: opt_string_copy(id),
            command: command.clone(),
        },
        ToolCall::Patch { id, patch } => AgentEvent::ToolCallStarted {
            id: opt_string_copy(id),
            name: owned("patch"),
            arguments_json: Some(patch.clone()),
        },
        ToolCall::Mcp { id, server, tool, .. } => AgentEvent::McpToolStarted {
            id: opt_string_copy(id),
            server: server.clone(),
            tool: tool.clone(),
        },
        ToolCall::Skill { id, name, arguments_json } => AgentEvent::ToolCallStarted {
            id: opt_string_copy(id),
            name: name.clone(),
            arguments_json: opt_string_copy(arguments_json),
        },
        ToolCall::MultiAgent { id, action, arguments_json } => AgentEvent::ToolCallStarted {
            id: opt_string_copy(id),
            name: concat("multi_agent:", action.as_str()),
            arguments_json: opt_string_copy(arguments_json),
        },
        ToolCall::ToolSearch { id, query } => {
            let encoded = json_string(query.as_str());
            AgentEvent::ToolCallStarted {
                id: opt_string_copy(id),
                name: owned("tool_search"),
                arguments_json: Some(json_object_with("query", encoded.as_str())),
            }
        },
        ToolCall::RequestUserInput { id, prompt } => {
            let encoded = json_string(prompt.as_str());
            AgentEvent::ToolCallStarted {
                id: opt_string_copy(id),
                name: owned("request_user_input"),
                arguments_json: Some(json_object_with("prompt", encoded.as_str())),
            }
        },
        ToolCall::ViewImage { id, path } => {
            let encoded = json_string(path.as_str());
            AgentEvent::ToolCallStarted {
                id: opt_string_copy(id),
                name: owned("view_image"),
                arguments_json: Some(json_object_with("path", encoded.as_str())),
            }
        },
    }
}

/// Appends the agent events of a response item.
fn push_response_item_agent_event(item: &ResponseItem, output: &mut Vec<AgentEvent>)
    ensures
        final(output)@.len() == old(output)@.len() + item_event_count(*item),
        final(output)@.subrange(0, old(output)@.len() as int) == old(output)@,
        item_events_match(final(output)@.skip(old(output)@.len() as int), *item),
{
    let ghost start = output@.len();
    match item {
        ResponseItem::Message { content, .. } => {
            output.push(AgentEvent::Message { content: content.clone() });
        },
        ResponseItem::AgentMessage { content } => {
            match first_content_text(content) {
                Some(text) => {
                    output.push(AgentEvent::Message { content: text });
                },
                None => {},
            }
        },
        ResponseItem::Reasoning { content } => {
            output.push(AgentEvent::Reasoning { content: content.clone() });
        },
        ResponseItem::ReasoningItem { summary_text } => {
            if summary_text.len() > 0 {
                output.push(AgentEvent::Reasoning { content: summary_text[0].clone() });
            }
        },
        ResponseItem::ToolCall { call } => {
            output.push(tool_call_started_event(call));
        },
        ResponseItem::FunctionCall { call_id, name, arguments, .. } => {
            output.push(
                AgentEvent::ToolCallStarted {
                    id: Some(call_id.clone()),
                    name: name.clone(),
                    arguments_json: Some(arguments.clone()),
                },
            );
        },
        ResponseItem::McpToolCall { call_id, server, tool, .. } => {
            output.push(
                AgentEvent::McpToolStarted {
                    id: Some(call_id.clone()),
                    server: server.clone(),
                    tool: tool.clone(),
                },
            );
        },
        ResponseItem::Compaction { summary } => {
            output.push(AgentEvent::Reasoning { content: summary.clone() });
        },
        _ => {},
    }
    assert(output@.subrange(0, start as int) =~= old(output)@);
}

/// The name by which a tool-call status is reported.
fn tool_status_text(status: ToolCallStatus) -> (r: &'static str)
    ensures
        r@ == tool_status_name(status),
{
    match status {
        ToolCallStatus::InProgress => "InProgress",
        ToolCallStatus::Completed => "Completed",
        ToolCallStatus::Failed => "Failed",
        ToolCallStatus::Cancelled => "Cancelled",
    }
}

/// Appends the agent events of a delta.
fn push_delta_agent_event(delta: &ResponseItemDelta, output: &mut Vec<AgentEvent>)
    ensures
        final(output)@.len() == old(output)@.len() + delta_event_count(*delta),
        final(output)@.subrange(0, old(output)@.len() as int) == old(output)@,
        delta_events_match(final(output)@.skip(old(output)@.len() as int), *delta),
{
    let ghost start = output@.len();
    match delta {
        ResponseItemDelta::MessageContent { delta, .. } => {
            output.push(AgentEvent::Message { content: delta.clone() });
        },
        ResponseItemDelta::ReasoningContent { delta, .. } => {
            output.push(AgentEvent::Reasoning { content: delta.clone() });
        },
        ResponseItemDelta::ToolCallArguments { call_id, delta } => {
            output.push(
                AgentEvent::CommandUpdated {
                    id: opt_string_copy(call_id),
                    command: owned("tool_arguments"),
                    aggregated_output: delta.clone(),
                },
            );
        },
        ResponseItemDelta::ToolCallStatus { call_id, status } => {
            let command_status = match status {
                ToolCallStatus::Completed => CommandStatus::Completed,
                ToolCallStatus::InProgress => CommandStatus::InProgress,
                ToolCallStatus::Failed => CommandStatus::Failed,
                ToolCallStatus::Cancelled => CommandStatus::Failed,
            };
            output.push(
                AgentEvent::ToolCallCompleted {
                    id: opt_string_copy(call_id),
                    name: owned("tool"),
                    output: concat("tool status: ", tool_status_text(*status)),
                    status: command_status,
                },
            );
        },
        ResponseItemDelta::ToolCallName { .. } => {},
        ResponseItemDelta::ToolOutput { .. } => {},
    }
    assert(output@.subrange(0, start as int) =~= old(output)@);
}

/// Appends the agent events of one stream event.
fn push_stream_event(event: &StreamEvent, output: &mut Vec<AgentEvent>)
    ensures
        final(output)@.len() == old(output)@.len() + stream_event_count(*event),
        final(output)@.subrange(0, old(output)@.len() as int) == old(output)@,
        stream_event_events_match(final(output)@.skip(old(output)@.len() as int), *event),
{
    let ghost start = output@.len();
    match event {
        StreamEvent::ResponseStarted { thread_id, .. } => {
            output.push(AgentEvent::ThreadStarted { thread_id: thread_id.0.clone() });
            output.push(AgentEvent::TurnStarted);
        },
        StreamEvent::ItemStarted { item, .. } => {
            push_response_item_agent_event(item, output);
        },
        StreamEvent::ItemCompleted { item, .. } => {
            push_response_item_agent_event(item, output);
        },
        StreamEvent::ItemDelta { delta, .. } => {
            push_delta_agent_event(delta, output);
        },
        StreamEvent::ResponseCompleted { status, .. } => {
            let run_status = match status {
                ResponseStatus::Completed => AgentRunStatus::Completed,
                _ => AgentRunStatus::Failed,
            };
            output.push(AgentEvent::Completed { status: run_status, usage: None });
        },
        StreamEvent::ResponseFailed { message, .. } => {
            output.push(AgentEvent::Error { message: message.clone() });
        },
    }
    assert(output@.subrange(0, start as int) =~= old(output)@);
}

/// The agent events that a stream of protocol events stands for, in order.
pub fn protocol_stream_events_to_agent_events(events: &[StreamEvent]) -> (r: Vec<AgentEvent>)
    ensures
        agent_events_match(r@, events@),
{
    let mut output: Vec<AgentEvent> = Vec::new();
    let mut i: usize = 0;
    while i < events.len()
        invariant
            i <= events@.len(),
            output@.len() == event_offset(events@, i as int),
            forall|j: int|
                0 <= j < i ==> stream_event_events_match(
                    output@.subrange(
                        event_offset(events@, j) as int,
                        event_offset(events@, j + 1) as int,
                    ),
                    #[trigger] events@[j],
                ),
        decreases events@.len() - i,
    {
        let ghost before = output@;
        push_stream_event(&events[i], &mut output);
        proof {
            lemma_extend_events(events@, before, output@, i as int);
        }
        i = i + 1;
    }
    output
}

} // verus!
