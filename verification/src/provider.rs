//! The provider boundary: requests, responses and messages, the tool calls a
//! model can ask for, server-sent-event decoding, response streams, provider
//! configuration, status classification and retries, and the offline static
//! provider.
use vstd::prelude::*;
use crate::agent::{AgentConfig, AgentError, AgentInput, TokenUsage};
use crate::protocol::{
    ProtocolRole, ResponseItem, ResponseStatus, StreamEvent, ThreadId, ToolCall, TurnId,
};
use crate::text::{
    chars_of, concat3, contains, line_split, opt_string_copy, opt_view, owned, seq_contains, seq_starts_with, string_from_chars, trim,
    trim_bounds, trim_str,
};
use vstd::std_specs::convert::FromSpecImpl;

verus! {

#[derive(Clone, Copy, Debug, PartialEq, Eq, Structural)]
pub enum ProviderRole {
    System,
    User,
    Assistant,
    Tool,
}

#[derive(Clone, Debug, PartialEq, Eq)]
pub struct ProviderMessage {
    pub role: ProviderRole,
    pub content: String,
}

impl ProviderMessage {
    pub fn system(content: &str) -> (r: ProviderMessage)
        ensures
            r.role == ProviderRole::System && r.content@ == content@,
    {
        ProviderMessage { role: ProviderRole::System, content: owned(content) }
    }

    pub fn user(content: &str) -> (r: ProviderMessage)
        ensures
            r.role == ProviderRole::User && r.content@ == content@,
    {
        ProviderMessage { role: ProviderRole::User, content: owned(content) }
    }

    pub fn assistant(content: &str) -> (r: ProviderMessage)
        ensures
            r.role == ProviderRole::Assistant && r.content@ == content@,
    {
        ProviderMessage { role: ProviderRole::Assistant, content: owned(content) }
    }

    pub fn tool(content: &str) -> (r: ProviderMessage)
        ensures
            r.role == ProviderRole::Tool && r.content@ == content@,
    {
        ProviderMessage { role: ProviderRole::Tool, content: owned(content) }
    }
}

/// A tool call as a provider reports it.
#[derive(Clone, Debug, PartialEq, Eq)]
pub enum ProviderToolCall {
    Shell { id: Option<String>, command: String },
    Patch { id: Option<String>, patch: String },
    Mcp { id: Option<String>, server: String, tool: String, arguments_json: Option<String> },
    Skill { id: Option<String>, name: String, arguments_json: Option<String> },
    MultiAgent { id: Option<String>, action: String, arguments_json: Option<String> },
    ToolSearch { id: Option<String>, query: String },
    RequestUserInput { id: Option<String>, prompt: String },
    ViewImage { id: Option<String>, path: String },
}

/// The protocol tool call with the same kind and fields.
pub open spec fn protocol_tool_call(value: ProviderToolCall) -> ToolCall {
    match value {
        ProviderToolCall::Shell { id, command } => ToolCall::Shell { id, command },
        ProviderToolCall::Patch { id, patch } => ToolCall::Patch { id, patch },
        ProviderToolCall::Mcp { id, server, tool, arguments_json } => ToolCall::Mcp {
            id,
            server,
            tool,
            arguments_json,
        },
        ProviderToolCall::Skill { id, name, arguments_json } => ToolCall::Skill {
            id,
            name,
            arguments_json,
        },
        ProviderToolCall::MultiAgent { id, action, arguments_json } => ToolCall::MultiAgent {
            id,
            action,
            arguments_json,
        },
        ProviderToolCall::ToolSearch { id, query } => ToolCall::ToolSearch { id, query },
        ProviderToolCall::RequestUserInput { id, prompt } => ToolCall::RequestUserInput {
            id,
            prompt,
        },
        ProviderToolCall::ViewImage { id, path } => ToolCall::ViewImage { id, path },
    }
}

impl From<ProviderToolCall> for ToolCall {
    fn from(value: ProviderToolCall) -> (r: ToolCall) {
        match value {
            ProviderToolCall::Shell { id, command } => ToolCall::Shell { id, command },
            ProviderToolCall::Patch { id, patch } => ToolCall::Patch { id, patch },
            ProviderToolCall::Mcp { id, server, tool, arguments_json } => ToolCall::Mcp {
                id,
                server,
                tool,
                arguments_json,
            },
            ProviderToolCall::Skill { id, name, arguments_json } => ToolCall::Skill {
                id,
                name,
                arguments_json,
            },
            ProviderToolCall::MultiAgent { id, action, arguments_json } => ToolCall::MultiAgent {
                id,
                action,
                arguments_json,
            },
            ProviderToolCall::ToolSearch { id, query } => ToolCall::ToolSearch { id, query },
            ProviderToolCall::RequestUserInput { id, prompt } => ToolCall::RequestUserInput {
                id,
                prompt,
            },
            ProviderToolCall::ViewImage { id, path } => ToolCall::ViewImage { id, path },
        }
    }
}

impl ProviderToolCall {
    /// The protocol tool call with the same kind and fields, leaving `self` in place.
    pub fn to_protocol(&self) -> (r: ToolCall)
        ensures
            r == protocol_tool_call(*self),
    {
        match self {
            ProviderToolCall::Shell { id, command } => ToolCall::Shell {
                id: opt_string_copy(id),
                command: command.clone(),
            },
            ProviderToolCall::Patch { id, patch } => ToolCall::Patch {
                id: opt_string_copy(id),
                patch: patch.clone(),
            },
            ProviderToolCall::Mcp { id, server, tool, arguments_json } => ToolCall::Mcp {
                id: opt_string_copy(id),
                server: server.clone(),
                tool: tool.clone(),
                arguments_json: opt_string_copy(arguments_json),
            },
            ProviderToolCall::Skill { id, name, arguments_json } => ToolCall::Skill {
                id: opt_string_copy(id),
                name: name.clone(),
                arguments_json: opt_string_copy(arguments_json),
            },
            ProviderToolCall::MultiAgent { id, action, arguments_json } => ToolCall::MultiAgent {
                id: opt_string_copy(id),
                action: action.clone(),
                arguments_json: opt_string_copy(arguments_json),
            },
            ProviderToolCall::ToolSearch { id, query } => ToolCall::ToolSearch {
                id: opt_string_copy(id),
                query: query.clone(),
            },
            ProviderToolCall::RequestUserInput { id, prompt } => ToolCall::RequestUserInput {
                id: opt_string_copy(id),
                prompt: prompt.clone(),
            },
            ProviderToolCall::ViewImage { id, path } => ToolCall::ViewImage {
                id: opt_string_copy(id),
                path: path.clone(),
            },
        }
    }
}

impl FromSpecImpl<ProviderToolCall> for ToolCall {
    open spec fn obeys_from_spec() -> bool {
        true
    }

    open spec fn from_spec(v: ProviderToolCall) -> ToolCall {
        protocol_tool_call(v)
    }
}

pub open spec fn protocol_role(value: ProviderRole) -> ProtocolRole {
    match value {
        ProviderRole::System => ProtocolRole::System,
        ProviderRole::User => ProtocolRole::User,
        ProviderRole::Assistant => ProtocolRole::Assistant,
        ProviderRole::Tool => ProtocolRole::Tool,
    }
}

impl From<ProviderRole> for ProtocolRole {
    fn from(value: ProviderRole) -> (r: ProtocolRole) {
        match value {
            ProviderRole::System => ProtocolRole::System,
            ProviderRole::User => ProtocolRole::User,
            ProviderRole::Assistant => ProtocolRole::Assistant,
            ProviderRole::Tool => ProtocolRole::Tool,
        }
    }
}

impl FromSpecImpl<ProviderRole> for ProtocolRole {
    open spec fn obeys_from_spec() -> bool {
        true
    }

    open spec fn from_spec(v: ProviderRole) -> ProtocolRole {
        protocol_role(v)
    }
}

/// One request to a provider.
#[derive(Clone, Debug, PartialEq, Eq)]
pub struct ProviderRequest {
    pub config: AgentConfig,
    pub input: AgentInput,
    pub messages: Vec<ProviderMessage>,
}

impl ProviderRequest {
    /// A request whose only message is the prompt, as the user's.
    pub fn new(config: AgentConfig, input: AgentInput) -> (r: ProviderRequest)
        ensures
            r.config == config,
            r.input == input,
            r.messages@.len() == 1,
            r.messages@[0].role == ProviderRole::User,
            r.messages@[0].content@ == input.prompt@,
    {
        let mut messages: Vec<ProviderMessage> = Vec::new();
        messages.push(ProviderMessage::user(input.prompt.as_str()));
        ProviderRequest { config, input, messages }
    }

    pub fn with_messages(config: AgentConfig, input: AgentInput, messages: Vec<ProviderMessage>) -> (r:
        ProviderRequest)
        ensures
            r == (ProviderRequest { config, input, messages }),
    {
        ProviderRequest { config, input, messages }
    }
}

/// What a provider answered: an optional message, tool calls, and usage.
#[derive(Clone, Debug, PartialEq, Eq)]
pub struct ProviderResponse {
    pub message: Option<ProviderMessage>,
    pub tool_calls: Vec<ProviderToolCall>,
    pub usage: Option<TokenUsage>,
}

impl ProviderResponse {
    pub fn assistant(content: &str) -> (r: ProviderResponse)
        ensures
            r.message is Some,
            r.message->0.role == ProviderRole::Assistant,
            r.message->0.content@ == content@,
            r.tool_calls@.len() == 0,
            r.usage is None,
    {
        ProviderResponse {
            message: Some(ProviderMessage::assistant(content)),
            tool_calls: Vec::new(),
            usage: None,
        }
    }

    pub fn tool_call(tool_call: ProviderToolCall) -> (r: ProviderResponse)
        ensures
            r.message is None,
            r.tool_calls@ == seq![tool_call],
            r.usage is None,
    {
        let mut tool_calls: Vec<ProviderToolCall> = Vec::new();
        tool_calls.push(tool_call);
        ProviderResponse { message: None, tool_calls, usage: None }
    }
}

#[derive(Clone, Debug, PartialEq, Eq)]
pub struct ProviderUsage {
    pub input_tokens: i64,
    pub output_tokens: i64,
}

/// A model provider that completes a request.
pub trait AgentProvider {
    /// `r` is an answer this provider may give to `request`: what each
    /// provider says of its own answers, nothing where it says nothing.
    closed spec fn answers(&self, request: ProviderRequest, r: Result<ProviderResponse, AgentError>) -> bool {
        true
    }

    fn complete(&self, request: &ProviderRequest) -> (r: Result<ProviderResponse, AgentError>)
        ensures
            self.answers(*request, r),
    ;
}

/// The events of a streamed response and, when known, the response itself.
#[derive(Clone, Debug, PartialEq, Eq)]
pub struct ProviderStream {
    pub events: Vec<StreamEvent>,
    pub final_response: Option<ProviderResponse>,
}

/// The events that replay a completed response: start, the message if any,
/// each tool call in order, completion.
pub open spec fn replay_events_match(
    events: Seq<StreamEvent>,
    thread: ThreadId,
    turn: TurnId,
    response: ProviderResponse,
) -> bool {
    let m: int = if response.message is Some {
        1
    } else {
        0
    };
    let n = response.tool_calls@.len();
    &&& events.len() == 2 + m + n
    &&& events[0] == (StreamEvent::ResponseStarted {
        thread_id: thread,
        turn_id: turn,
        metadata: None,
    })
    &&& (response.message is Some ==> events[1] == (StreamEvent::ItemCompleted {
        thread_id: thread,
        turn_id: turn,
        item: ResponseItem::Message {
            role: protocol_role(response.message->0.role),
            content: response.message->0.content,
        },
    }))
    &&& forall|i: int|
        0 <= i < n ==> events[1 + m + i] == (StreamEvent::ItemCompleted {
            thread_id: thread,
            turn_id: turn,
            item: ResponseItem::ToolCall { call: protocol_tool_call(#[trigger] response.tool_calls@[i]) },
        })
    &&& events[events.len() - 1] == (StreamEvent::ResponseCompleted {
        thread_id: thread,
        turn_id: turn,
        status: ResponseStatus::Completed,
    })
}

impl ProviderStream {
    pub fn new(events: Vec<StreamEvent>, final_response: Option<ProviderResponse>) -> (r:
        ProviderStream)
        ensures
            r == (ProviderStream { events, final_response }),
    {
        ProviderStream { events, final_response }
    }

    /// The stream that replays a completed response.
    pub fn from_response(thread_id: ThreadId, turn_id: TurnId, response: ProviderResponse) -> (r:
        ProviderStream)
        ensures
            replay_events_match(r.events@, thread_id, turn_id, response),
            r.final_response == Some(response),
    {
        let mut events: Vec<StreamEvent> = Vec::new();
        events.push(
            StreamEvent::ResponseStarted {
                thread_id: ThreadId(thread_id.0.clone()),
                turn_id: TurnId(turn_id.0.clone()),
                metadata: None,
            },
        );
        match &response.message {
            Some(message) => {
                events.push(
                    StreamEvent::ItemCompleted {
                        thread_id: ThreadId(thread_id.0.clone()),
                        turn_id: TurnId(turn_id.0.clone()),
                        item: ResponseItem::Message {
                            role: ProtocolRole::from(message.role),
                            content: message.content.clone(),
                        },
                    },
                );
            },
            None => {},
        }
        let ghost m: int = if response.message is Some {
            1
        } else {
            0
        };
        let mut i: usize = 0;
        while i < response.tool_calls.len()
            invariant
                i <= response.tool_calls@.len(),
                events@.len() == 1 + m + i,
                m == (if response.message is Some {
                    1int
                } else {
                    0int
                }),
                events@[0] == (StreamEvent::ResponseStarted {
                    thread_id: thread_id,
                    turn_id: turn_id,
                    metadata: None,
                }),
                response.message is Some ==> events@[1] == (StreamEvent::ItemCompleted {
                    thread_id: thread_id,
                    turn_id: turn_id,
                    item: ResponseItem::Message {
                        role: protocol_role(response.message->0.role),
                        content: response.message->0.content,
                    },
                }),
                forall|k: int|
                    0 <= k < i ==> events@[1 + m + k] == (StreamEvent::ItemCompleted {
                        thread_id: thread_id,
                        turn_id: turn_id,
                        item: ResponseItem::ToolCall {
                            call: protocol_tool_call(#[trigger] response.tool_calls@[k]),
                        },
                    }),
            decreases response.tool_calls@.len() - i,
        {
            events.push(
                StreamEvent::ItemCompleted {
                    thread_id: ThreadId(thread_id.0.clone()),
                    turn_id: TurnId(turn_id.0.clone()),
                    item: ResponseItem::ToolCall { call: response.tool_calls[i].to_protocol() },
                },
            );
            i = i + 1;
        }
        events.push(
            StreamEvent::ResponseCompleted { thread_id, turn_id, status: ResponseStatus::Completed },
        );
        ProviderStream { events, final_response: Some(response) }
    }

    pub fn from_events(events: Vec<StreamEvent>) -> (r: ProviderStream)
        ensures
            r == (ProviderStream { events, final_response: None }),
    {
        ProviderStream { events, final_response: None }
    }
}

// ---------------------------------------------------------------------------
// Server-sent events
// ---------------------------------------------------------------------------

/// A decoded server-sent-event line.
#[derive(Clone, Debug, PartialEq, Eq)]
pub enum ProviderStreamChunk {
    Data { value: String },
    Done,
    Comment { value: String },
}

/// A chunk by value: 0 for data, 1 for the end marker, 2 for a comment, with its text.
pub type ChunkView = (u8, Seq<char>);

pub open spec fn chunk_view(c: ProviderStreamChunk) -> ChunkView {
    match c {
        ProviderStreamChunk::Data { value } => (0u8, value@),
        ProviderStreamChunk::Done => (1u8, Seq::empty()),
        ProviderStreamChunk::Comment { value } => (2u8, value@),
    }
}

/// One event-stream line: blank lines carry nothing, `:` starts a comment,
/// `data:` carries a payload (`[DONE]` ends the stream), other fields are ignored.
pub open spec fn decode_sse(line: Seq<char>) -> Option<ChunkView> {
    let l = trim(line);
    if l.len() == 0 {
        None
    } else if l[0] == ':' {
        Some((2u8, trim(l.skip(1))))
    } else if seq_starts_with(l, "data:"@) {
        let data = trim(l.skip(5));
        if data == "[DONE]"@ {
            Some((1u8, Seq::empty()))
        } else {
            Some((0u8, data))
        }
    } else {
        None
    }
}

/// The chunks that a run of complete lines decodes to, in order.
pub open spec fn decode_lines(lines: Seq<Seq<char>>) -> Seq<ChunkView>
    decreases lines.len(),
{
    if lines.len() == 0 {
        Seq::empty()
    } else {
        let prev = decode_lines(lines.drop_last());
        match decode_sse(lines.last()) {
            Some(c) => prev.push(c),
            None => prev,
        }
    }
}

pub open spec fn chunk_views(v: Seq<ProviderStreamChunk>) -> Seq<ChunkView> {
    v.map_values(|c: ProviderStreamChunk| chunk_view(c))
}

/// Decodes a byte stream of server-sent events that may arrive split anywhere.
#[derive(Clone, Debug, PartialEq, Eq)]
pub struct ProviderSseDecoder {
    buffer: String,
}

fn decode_sse_line(line: &[char]) -> (r: Option<ProviderStreamChunk>)
    ensures
        match r {
            Some(c) => decode_sse(line@) == Some(chunk_view(c)),
            None => decode_sse(line@) is None,
        },
{
    let (a, b) = trim_bounds(line);
    let l = crate::persona::settings::slice_range(line, a, b);
    if l.len() == 0 {
        return None;
    }
    if l[0] == ':' {
        let rest = crate::persona::settings::slice_range(l.as_slice(), 1, l.len());
        let (ra, rb) = trim_bounds(rest.as_slice());
        let value = crate::persona::settings::slice_range(rest.as_slice(), ra, rb);
        assert(l@.skip(1) =~= rest@);
        return Some(ProviderStreamChunk::Comment { value: string_from_chars(value.as_slice()) });
    }
    let prefix = chars_of("data:");
    proof {
        reveal_strlit("data:");
    }
    if l.len() < 5 || !crate::text::matches_at(l.as_slice(), prefix.as_slice(), 0) {
        return None;
    }
    let rest = crate::persona::settings::slice_range(l.as_slice(), 5, l.len());
    let (ra, rb) = trim_bounds(rest.as_slice());
    let data = crate::persona::settings::slice_range(rest.as_slice(), ra, rb);
    assert(l@.skip(5) =~= rest@);
    let done = chars_of("[DONE]");
    if crate::text::slice_eq(data.as_slice(), done.as_slice()) {
        Some(ProviderStreamChunk::Done)
    } else {
        Some(ProviderStreamChunk::Data { value: string_from_chars(data.as_slice()) })
    }
}

impl ProviderSseDecoder {
    /// The text received but not yet ended by a line feed.
    pub closed spec fn pending(&self) -> Seq<char> {
        self.buffer@
    }

    /// A decoder holds no complete line between calls.
    pub open spec fn wf(&self) -> bool {
        !self.pending().contains('\n')
    }

    pub fn new() -> (r: ProviderSseDecoder)
        ensures
            r.pending() == Seq::<char>::empty(),
            r.wf(),
    {
        ProviderSseDecoder { buffer: String::new() }
    }

    /// Appends `chunk` and decodes every line it completes; the unfinished rest
    /// stays pending.
    pub fn push_chunk(&mut self, chunk: &str) -> (r: Result<Vec<ProviderStreamChunk>, AgentError>)
        requires
            old(self).wf(),
            old(self).pending().len() + chunk@.len() <= usize::MAX,
        ensures
            final(self).wf(),
            r is Ok,
            chunk_views(r->Ok_0@) == decode_lines(line_split(old(self).pending() + chunk@).0),
            final(self).pending() == line_split(old(self).pending() + chunk@).1,
    {
        let ghost all = self.buffer@ + chunk@;
        let held = chars_of(self.buffer.as_str());
        let incoming = chars_of(chunk);
        let mut decoded: Vec<ProviderStreamChunk> = Vec::new();
        let mut lines_seen: Ghost<Seq<Seq<char>>> = Ghost(Seq::empty());
        let mut line: Vec<char> = Vec::new();
        let total = held.len() + incoming.len();
        let mut i: usize = 0;
        proof {
            assert(all.take(0) =~= Seq::<char>::empty());
        }
        while i < total
            invariant
                total == all.len(),
                held@ == self.buffer@,
                incoming@ == chunk@,
                all == held@ + incoming@,
                i <= total,
                line_split(all.take(i as int)) == (lines_seen@, line@),
                chunk_views(decoded@) == decode_lines(lines_seen@),
                !line@.contains('\n'),
            decreases total - i,
        {
            let c = if i < held.len() {
                held[i]
            } else {
                incoming[i - held.len()]
            };
            assert(c == all[i as int]);
            proof {
                assert(all.take(i + 1).drop_last() =~= all.take(i as int));
            }
            if c == '\n' {
                let ghost old_lines = lines_seen@;
                let ghost old_decoded = decoded@;
                match decode_sse_line(line.as_slice()) {
                    Some(ch) => {
                        decoded.push(ch);
                    },
                    None => {},
                }
                proof {
                    lines_seen@ = old_lines.push(line@);
                    assert(lines_seen@.drop_last() =~= old_lines);
                    assert(chunk_views(decoded@) =~= decode_lines(lines_seen@));
                }
                line = Vec::new();
            } else {
                line.push(c);
                proof {
                    assert(!line@.contains('\n')) by {
                        assert forall|k: int| 0 <= k < line@.len() implies line@[k] != '\n' by {
                            if k < line@.len() - 1 {
                                assert(line@[k] == line@.drop_last()[k]);
                            }
                        }
                    }
                }
            }
            i = i + 1;
        }
        assert(all.take(total as int) =~= all);
        self.buffer = string_from_chars(line.as_slice());
        Ok(decoded)
    }

    /// Decodes whatever is still pending as a last line, and empties the decoder.
    pub fn finish(&mut self) -> (r: Result<Vec<ProviderStreamChunk>, AgentError>)
        ensures
            r is Ok,
            final(self).pending() == Seq::<char>::empty(),
            old(self).pending().len() == 0 ==> r->Ok_0@.len() == 0,
            old(self).pending().len() > 0 ==> chunk_views(r->Ok_0@) == match decode_sse(
                old(self).pending(),
            ) {
                Some(c) => seq![c],
                None => Seq::empty(),
            },
    {
        let mut out: Vec<ProviderStreamChunk> = Vec::new();
        let held = chars_of(self.buffer.as_str());
        self.buffer = String::new();
        if held.len() == 0 {
            return Ok(out);
        }
        match decode_sse_line(held.as_slice()) {
            Some(c) => {
                out.push(c);
            },
            None => {},
        }
        assert(chunk_views(out@) =~= match decode_sse(held@) {
            Some(c) => seq![c],
            None => Seq::<ChunkView>::empty(),
        });
        Ok(out)
    }
}

/// The unfinished rest of a split never holds a line feed.
proof fn lemma_line_split_rest(s: Seq<char>)
    ensures
        !line_split(s).1.contains('\n'),
    decreases s.len(),
{
    if s.len() > 0 {
        lemma_line_split_rest(s.drop_last());
        let prev = line_split(s.drop_last());
        if s.last() != '\n' {
            assert forall|k: int| 0 <= k < prev.1.push(s.last()).len() implies prev.1.push(
                s.last(),
            )[k] != '\n' by {
                if k < prev.1.len() {
                    assert(prev.1.push(s.last())[k] == prev.1[k]);
                }
            }
        }
    }
}

/// Text with no line feed is all unfinished rest.
proof fn lemma_line_split_no_feed(s: Seq<char>)
    requires
        !s.contains('\n'),
    ensures
        line_split(s) == (Seq::<Seq<char>>::empty(), s),
    decreases s.len(),
{
    if s.len() > 0 {
        assert(!s.drop_last().contains('\n')) by {
            if s.drop_last().contains('\n') {
                let k = choose|k: int| 0 <= k < s.drop_last().len() && s.drop_last()[k] == '\n';
                assert(s[k] == '\n');
            }
        }
        lemma_line_split_no_feed(s.drop_last());
        assert(s.last() != '\n') by {
            assert(s[s.len() - 1] == s.last());
        }
        assert(s.drop_last().push(s.last()) =~= s);
    }
}

/// Splitting `x + y` is splitting `x`, then splitting its rest followed by `y`.
proof fn lemma_line_split_append(x: Seq<char>, y: Seq<char>)
    ensures
        line_split(x + y).0 == line_split(x).0 + line_split(line_split(x).1 + y).0,
        line_split(x + y).1 == line_split(line_split(x).1 + y).1,
    decreases y.len(),
{
    let r = line_split(x).1;
    if y.len() == 0 {
        assert(x + y =~= x);
        assert(r + y =~= r);
        lemma_line_split_rest(x);
        lemma_line_split_no_feed(r);
        assert(line_split(x).0 + Seq::<Seq<char>>::empty() =~= line_split(x).0);
    } else {
        let yp = y.drop_last();
        lemma_line_split_append(x, yp);
        assert((x + y).drop_last() =~= x + yp);
        assert((r + y).drop_last() =~= r + yp);
        assert((x + y).last() == y.last());
        assert((r + y).last() == y.last());
        let inner = line_split(r + yp);
        if y.last() == '\n' {
            assert(line_split(x).0 + inner.0.push(inner.1) =~= (line_split(x).0 + inner.0).push(
                inner.1,
            ));
        }
    }
}

/// Decoding a run of lines in two parts gives the chunks of each part in order.
proof fn lemma_decode_lines_append(a: Seq<Seq<char>>, b: Seq<Seq<char>>)
    ensures
        decode_lines(a + b) == decode_lines(a) + decode_lines(b),
    decreases b.len(),
{
    if b.len() == 0 {
        assert(a + b =~= a);
        assert(decode_lines(a) + Seq::<ChunkView>::empty() =~= decode_lines(a));
    } else {
        lemma_decode_lines_append(a, b.drop_last());
        assert((a + b).drop_last() =~= a + b.drop_last());
        assert((a + b).last() == b.last());
        match decode_sse(b.last()) {
            Some(c) => {
                assert(decode_lines(a) + decode_lines(b.drop_last()).push(c) =~= (decode_lines(a)
                    + decode_lines(b.drop_last())).push(c));
            },
            None => {},
        }
    }
}

/// Where a stream is split does not change what it decodes to: a decoder
/// holding `pending` that is fed `a` and then `b` yields, in order, the chunks
/// that feeding `a + b` at once yields, and keeps the same text pending.
pub proof fn law_sse_decoding_ignores_chunk_boundaries(pending: Seq<char>, a: Seq<char>, b: Seq<char>)
    ensures
        decode_lines(line_split(pending + a).0) + decode_lines(
            line_split(line_split(pending + a).1 + b).0,
        ) == decode_lines(line_split(pending + a + b).0),
        line_split(line_split(pending + a).1 + b).1 == line_split(pending + a + b).1,
{
    lemma_line_split_append(pending + a, b);
    lemma_decode_lines_append(
        line_split(pending + a).0,
        line_split(line_split(pending + a).1 + b).0,
    );
}

/// The pieces of a stream joined in order.
pub open spec fn joined(pieces: Seq<Seq<char>>) -> Seq<char>
    decreases pieces.len(),
{
    if pieces.len() == 0 {
        Seq::empty()
    } else {
        joined(pieces.drop_last()) + pieces.last()
    }
}

/// What a fresh decoder yields when fed `pieces` one after another (see
/// `push_chunk`): every chunk in order, and the text left pending.
pub open spec fn fed_pieces(pieces: Seq<Seq<char>>) -> (Seq<ChunkView>, Seq<char>)
    decreases pieces.len(),
{
    if pieces.len() == 0 {
        (Seq::empty(), Seq::empty())
    } else {
        let before = fed_pieces(pieces.drop_last());
        let split = line_split(before.1 + pieces.last());
        (before.0 + decode_lines(split.0), split.1)
    }
}

/// However a stream is cut into pieces, a fresh decoder fed the pieces one by
/// one yields the same chunks, in the same order, and keeps the same text
/// pending (so `finish` gives the same last chunk) as one fed the whole stream
/// at once.
pub proof fn law_sse_decoding_ignores_any_split(pieces: Seq<Seq<char>>)
    ensures
        fed_pieces(pieces) == (decode_lines(line_split(joined(pieces)).0), line_split(joined(pieces)).1),
    decreases pieces.len(),
{
    if pieces.len() > 0 {
        let prefix = pieces.drop_last();
        law_sse_decoding_ignores_any_split(prefix);
        let j = joined(prefix);
        law_sse_decoding_ignores_chunk_boundaries(Seq::empty(), j, pieces.last());
        assert(Seq::<char>::empty() + j =~= j);
        assert(Seq::<char>::empty() + j + pieces.last() =~= joined(pieces));
    } else {
        assert(decode_lines(Seq::<Seq<char>>::empty()) =~= Seq::<ChunkView>::empty());
    }
}

impl Default for ProviderSseDecoder {
    fn default() -> (r: Self)
        ensures
            r.pending() == Seq::<char>::empty(),
    {
        ProviderSseDecoder { buffer: String::new() }
    }
}

// ---------------------------------------------------------------------------
// Transport, status classification, retries
// ---------------------------------------------------------------------------

/// One HTTP request to a provider; the body is JSON text.
#[derive(Clone, Debug, PartialEq, Eq)]
pub struct ProviderTransportRequest {
    pub method: String,
    pub url: String,
    pub headers: Vec<(String, String)>,
    pub body: String,
    pub stream: bool,
    pub timeout_millis: Option<u64>,
}

#[derive(Clone, Debug, PartialEq, Eq)]
pub struct ProviderTransportResponse {
    pub status: u16,
    pub body: String,
}

impl ProviderTransportResponse {
    /// A response equal to this one.
    pub(crate) fn copy(&self) -> (r: ProviderTransportResponse)
        ensures
            r == *self,
    {
        ProviderTransportResponse { status: self.status, body: self.body.clone() }
    }

    pub fn is_success(&self) -> (r: bool)
        ensures
            r == (200 <= self.status && self.status < 300),
    {
        200 <= self.status && self.status < 300
    }
}

#[derive(Clone, Copy, Debug, PartialEq, Eq, Structural)]
pub enum ProviderErrorKind {
    Auth,
    RateLimit,
    Server,
    Network,
    Timeout,
    InvalidResponse,
    UnsupportedModel,
    Unknown,
}

/// The failure class of an HTTP status.
pub open spec fn status_kind(status: u16) -> ProviderErrorKind {
    if status == 401 || status == 403 {
        ProviderErrorKind::Auth
    } else if status == 404 {
        ProviderErrorKind::UnsupportedModel
    } else if status == 408 {
        ProviderErrorKind::Timeout
    } else if status == 429 {
        ProviderErrorKind::RateLimit
    } else if 500 <= status && status <= 599 {
        ProviderErrorKind::Server
    } else if 400 <= status && status <= 499 {
        ProviderErrorKind::InvalidResponse
    } else {
        ProviderErrorKind::Unknown
    }
}

pub fn classify_provider_status(status: u16) -> (r: ProviderErrorKind)
    ensures
        r == status_kind(status),
{
    if status == 401 || status == 403 {
        ProviderErrorKind::Auth
    } else if status == 404 {
        ProviderErrorKind::UnsupportedModel
    } else if status == 408 {
        ProviderErrorKind::Timeout
    } else if status == 429 {
        ProviderErrorKind::RateLimit
    } else if 500 <= status && status <= 599 {
        ProviderErrorKind::Server
    } else if 400 <= status && status <= 499 {
        ProviderErrorKind::InvalidResponse
    } else {
        ProviderErrorKind::Unknown
    }
}

/// Sends provider requests.
pub trait ProviderTransport {
    /// `r` is an answer this transport may give to `request`: what each
    /// transport says of its own answers, nothing where it says nothing.
    closed spec fn sends(
        &self,
        request: ProviderTransportRequest,
        r: Result<ProviderTransportResponse, AgentError>,
    ) -> bool {
        true
    }

    fn send(&self, request: &ProviderTransportRequest) -> (r: Result<
        ProviderTransportResponse,
        AgentError,
    >)
        ensures
            self.sends(*request, r),
    ;
}

/// A transport that answers every request with the same response.
#[derive(Clone, Debug, PartialEq, Eq)]
pub struct FixtureTransport {
    response: ProviderTransportResponse,
}

impl FixtureTransport {
    pub closed spec fn spec_response(&self) -> ProviderTransportResponse {
        self.response
    }

    pub fn new(status: u16, body: &str) -> (r: FixtureTransport)
        ensures
            r.spec_response().status == status,
            r.spec_response().body@ == body@,
    {
        FixtureTransport { response: ProviderTransportResponse { status, body: owned(body) } }
    }
}

impl ProviderTransport for FixtureTransport {
    open spec fn sends(
        &self,
        request: ProviderTransportRequest,
        r: Result<ProviderTransportResponse, AgentError>,
    ) -> bool {
        r == Ok::<ProviderTransportResponse, AgentError>(self.spec_response())
    }

    fn send(&self, request: &ProviderTransportRequest) -> (r: Result<
        ProviderTransportResponse,
        AgentError,
    >)
        ensures
            r == Ok::<ProviderTransportResponse, AgentError>(self.spec_response()),
    {
        Ok(self.response.copy())
    }
}

/// Which statuses are retried, and how many attempts a request gets in all.
#[derive(Clone, Debug, PartialEq, Eq)]
pub struct ProviderRetryPolicy {
    pub max_attempts: usize,
    pub retry_statuses: Vec<u16>,
}

/// The statuses retried by default: request timeout, conflict, rate limiting,
/// and every server failure (500 to 599), in that order.
pub open spec fn default_retry_statuses() -> Seq<u16> {
    seq![408u16, 409, 429] + Seq::new(100, |i: int| (500 + i) as u16)
}

/// A status that the default policy retries.
pub open spec fn retryable_by_default(status: u16) -> bool {
    status == 408 || status == 409 || status == 429 || (500 <= status && status <= 599)
}

/// Another attempt is due when attempts remain and the status is retryable.
pub open spec fn retry_due(policy: ProviderRetryPolicy, status: u16, attempt: int) -> bool {
    attempt + 1 < policy.max_attempts && policy.retry_statuses@.contains(status)
}

impl ProviderRetryPolicy {
    /// A policy of at least one attempt, retrying timeouts, conflicts, rate
    /// limits and every server failure (any 5xx status).
    pub fn new(max_attempts: usize) -> (r: ProviderRetryPolicy)
        ensures
            r.max_attempts == if max_attempts < 1 {
                1
            } else {
                max_attempts
            },
            r.retry_statuses@ == default_retry_statuses(),
            forall|status: u16| r.retry_statuses@.contains(status) <==> retryable_by_default(status),
    {
        let mut retry_statuses: Vec<u16> = Vec::new();
        retry_statuses.push(408);
        retry_statuses.push(409);
        retry_statuses.push(429);
        let mut code: u16 = 500;
        while code < 600
            invariant
                500 <= code <= 600,
                retry_statuses@ =~= seq![408u16, 409, 429] + Seq::new((code - 500) as nat, |i: int| (500 + i) as u16),
            decreases 600 - code,
        {
            retry_statuses.push(code);
            code = code + 1;
        }
        assert(retry_statuses@ =~= default_retry_statuses());
        assert forall|status: u16| retry_statuses@.contains(status) <==> retryable_by_default(status) by {
            if 500 <= status && status <= 599 {
                assert(retry_statuses@[3 + (status - 500)] == status);
            }
            if status == 408 {
                assert(retry_statuses@[0] == status);
            }
            if status == 409 {
                assert(retry_statuses@[1] == status);
            }
            if status == 429 {
                assert(retry_statuses@[2] == status);
            }
        }
        ProviderRetryPolicy {
            max_attempts: if max_attempts < 1 { 1 } else { max_attempts },
            retry_statuses,
        }
    }

    pub fn should_retry_status(&self, status: u16, attempt: usize) -> (r: bool)
        ensures
            r == retry_due(*self, status, attempt as int),
    {
        if attempt >= usize::MAX - 1 || attempt + 1 >= self.max_attempts {
            return false;
        }
        let mut i: usize = 0;
        while i < self.retry_statuses.len()
            invariant
                i <= self.retry_statuses@.len(),
                attempt + 1 < self.max_attempts,
                forall|k: int| 0 <= k < i ==> self.retry_statuses@[k] != status,
            decreases self.retry_statuses@.len() - i,
        {
            if self.retry_statuses[i] == status {
                assert(self.retry_statuses@[i as int] == status);
                return true;
            }
            i = i + 1;
        }
        false
    }

    /// Sends `request` through `transport` until a response needs no retry or
    /// the attempts run out; a transport error ends the sequence at once.
    pub fn send_with_retries<T: ProviderTransport>(
        &self,
        transport: &T,
        request: &ProviderTransportRequest,
    ) -> (r: (Result<ProviderTransportResponse, AgentError>, Ghost<int>))
        ensures
            1 <= r.1@,
            r.1@ <= self.max_attempts || (self.max_attempts == 0 && r.1@ == 1),
            r.0 is Ok ==> !retry_due(*self, r.0->Ok_0.status, r.1@ - 1),
            transport.sends(*request, r.0),
    {
        let mut attempt: usize = 0;
        loop
            invariant
                attempt < self.max_attempts || attempt == 0,
            decreases self.max_attempts - attempt,
        {
            let response = transport.send(request);
            match response {
                Ok(resp) => {
                    if !self.should_retry_status(resp.status, attempt) {
                        return (Ok(resp), Ghost(attempt + 1));
                    }
                },
                Err(e) => {
                    return (Err(e), Ghost(attempt + 1));
                },
            }
            attempt = attempt + 1;
        }
    }
}

impl Default for ProviderRetryPolicy {
    fn default() -> (r: Self)
        ensures
            r.max_attempts == 3,
            r.retry_statuses@ == default_retry_statuses(),
            forall|status: u16| r.retry_statuses@.contains(status) <==> retryable_by_default(status),
    {
        ProviderRetryPolicy::new(3)
    }
}

// ---------------------------------------------------------------------------
// Configuration
// ---------------------------------------------------------------------------

#[derive(Clone, Debug, PartialEq, Eq)]
pub struct ProviderCapabilities {
    pub tools: bool,
    pub parallel_tool_calls: bool,
    pub reasoning: bool,
    pub stream_usage: bool,
}

impl ProviderCapabilities {
    pub fn openai_compatible() -> (r: ProviderCapabilities)
        ensures
            r.tools && r.parallel_tool_calls && r.reasoning && r.stream_usage,
    {
        ProviderCapabilities { tools: true, parallel_tool_calls: true, reasoning: true, stream_usage: true }
    }
}

#[derive(Clone, Debug, PartialEq, Eq)]
pub struct ProviderConfig {
    pub name: String,
    pub model: String,
    pub base_url: String,
    pub timeout_millis: Option<u64>,
    pub stream: bool,
    pub capabilities: ProviderCapabilities,
}

impl ProviderConfig {
    /// An OpenAI-compatible provider for `model` at the public endpoint, with a
    /// two-minute timeout, streaming and every capability on.
    pub fn openai_compatible(model: &str) -> (r: ProviderConfig)
        ensures
            r.name@ == "openai-compatible"@,
            r.model@ == model@,
            r.base_url@ == "https://api.openai.com/v1"@,
            r.timeout_millis == Some(120_000u64),
            r.stream,
            r.capabilities.tools && r.capabilities.parallel_tool_calls && r.capabilities.reasoning
                && r.capabilities.stream_usage,
    {
        ProviderConfig {
            name: owned("openai-compatible"),
            model: owned(model),
            base_url: owned("https://api.openai.com/v1"),
            timeout_millis: Some(120_000),
            stream: true,
            capabilities: ProviderCapabilities::openai_compatible(),
        }
    }

    pub fn with_base_url(self, base_url: &str) -> (r: ProviderConfig)
        ensures
            r.base_url@ == base_url@,
            r == (ProviderConfig { base_url: r.base_url, ..self }),
    {
        ProviderConfig { base_url: owned(base_url), ..self }
    }

    pub fn with_timeout_millis(self, timeout_millis: Option<u64>) -> (r: ProviderConfig)
        ensures
            r == (ProviderConfig { timeout_millis, ..self }),
    {
        ProviderConfig { timeout_millis, ..self }
    }

    pub fn with_stream(self, stream: bool) -> (r: ProviderConfig)
        ensures
            r == (ProviderConfig { stream, ..self }),
    {
        ProviderConfig { stream, ..self }
    }

    pub fn with_capabilities(self, capabilities: ProviderCapabilities) -> (r: ProviderConfig)
        ensures
            r == (ProviderConfig { capabilities, ..self }),
    {
        ProviderConfig { capabilities, ..self }
    }
}

/// How a provider request authenticates.
#[derive(Clone, Debug, PartialEq, Eq)]
pub enum ProviderAuth {
    NoAuth,
    ApiKey(String),
    EnvVar(String),
}

/// An OpenAI-compatible provider, optionally answering from a fixture.
#[derive(Clone, Debug, PartialEq, Eq)]
pub struct OpenAiCompatibleProvider {
    config: ProviderConfig,
    auth: ProviderAuth,
    fixture_response: Option<String>,
}

impl OpenAiCompatibleProvider {
    pub closed spec fn spec_config(&self) -> ProviderConfig {
        self.config
    }

    pub closed spec fn spec_auth(&self) -> ProviderAuth {
        self.auth
    }

    pub closed spec fn spec_fixture(&self) -> Option<String> {
        self.fixture_response
    }

    pub fn new(config: ProviderConfig, auth: ProviderAuth) -> (r: OpenAiCompatibleProvider)
        ensures
            r.spec_config() == config,
            r.spec_auth() == auth,
            r.spec_fixture() is None,
    {
        OpenAiCompatibleProvider { config, auth, fixture_response: None }
    }

    pub fn with_fixture_response(self, response: &str) -> (r: OpenAiCompatibleProvider)
        ensures
            r.spec_config() == self.spec_config(),
            r.spec_auth() == self.spec_auth(),
            r.spec_fixture() is Some && r.spec_fixture()->0@ == response@,
    {
        OpenAiCompatibleProvider { fixture_response: Some(owned(response)), ..self }
    }

    pub fn auth(&self) -> (r: &ProviderAuth)
        ensures
            *r == self.spec_auth(),
    {
        &self.auth
    }

    pub(crate) fn config(&self) -> (r: &ProviderConfig)
        ensures
            *r == self.spec_config(),
    {
        &self.config
    }

    pub(crate) fn fixture(&self) -> (r: &Option<String>)
        ensures
            *r == self.spec_fixture(),
    {
        &self.fixture_response
    }
}

/// An OpenAI-compatible provider that sends requests through a transport.
#[derive(Clone, Debug, PartialEq, Eq)]
pub struct OpenAiTransportProvider<T> {
    provider: OpenAiCompatibleProvider,
    transport: T,
    retry_policy: ProviderRetryPolicy,
}

impl<T: ProviderTransport> OpenAiTransportProvider<T> {
    pub closed spec fn spec_retry_policy(&self) -> ProviderRetryPolicy {
        self.retry_policy
    }

    pub closed spec fn spec_provider(&self) -> OpenAiCompatibleProvider {
        self.provider
    }

    pub closed spec fn spec_transport(&self) -> T {
        self.transport
    }

    pub(crate) fn parts(&self) -> (r: (&OpenAiCompatibleProvider, &T, &ProviderRetryPolicy))
        ensures
            *r.0 == self.spec_provider(),
            *r.1 == self.spec_transport(),
            *r.2 == self.spec_retry_policy(),
    {
        (&self.provider, &self.transport, &self.retry_policy)
    }

    /// A transport provider with the default retry policy.
    pub fn new(config: ProviderConfig, auth: ProviderAuth, transport: T) -> (r:
        OpenAiTransportProvider<T>)
        ensures
            r.spec_provider().spec_config() == config,
            r.spec_provider().spec_auth() == auth,
            r.spec_provider().spec_fixture() is None,
            r.spec_transport() == transport,
            r.spec_retry_policy().max_attempts == 3,
            r.spec_retry_policy().retry_statuses@ == default_retry_statuses(),
    {
        OpenAiTransportProvider {
            provider: OpenAiCompatibleProvider::new(config, auth),
            transport,
            retry_policy: ProviderRetryPolicy::default(),
        }
    }

    pub fn with_retry_policy(self, retry_policy: ProviderRetryPolicy) -> (r: OpenAiTransportProvider<T>)
        ensures
            r.spec_retry_policy() == retry_policy,
            r.spec_provider() == self.spec_provider(),
            r.spec_transport() == self.spec_transport(),
    {
        OpenAiTransportProvider { retry_policy, ..self }
    }
}

// ---------------------------------------------------------------------------
// The offline static provider
// ---------------------------------------------------------------------------

/// Answers every prompt by echoing it after a fixed prefix.
#[derive(Clone, Debug, PartialEq, Eq)]
pub struct StaticProvider {
    response_prefix: String,
}

pub open spec fn default_static_prefix() -> Seq<char> {
    "YunXi autonomous runtime accepted prompt"@
}

pub open spec fn child_fixture_marker() -> Seq<char> {
    "stage 4j child runtime fixture"@
}

/// The content of the last tool message, if any.
pub open spec fn last_tool_content(msgs: Seq<ProviderMessage>) -> Option<Seq<char>>
    decreases msgs.len(),
{
    if msgs.len() == 0 {
        None
    } else if msgs.last().role == ProviderRole::Tool {
        Some(msgs.last().content@)
    } else {
        last_tool_content(msgs.drop_last())
    }
}

/// The call by which the child-runtime fixture asks to spawn a child run.
pub open spec fn is_child_spawn_call(c: ProviderToolCall) -> bool {
    &&& c matches ProviderToolCall::MultiAgent { id, action, arguments_json }
    &&& opt_view(id) == Some("stage-4j-child-run"@)
    &&& action@ == "spawn_run"@
    &&& opt_view(arguments_json) == Some(
        "{\"task\":\"stage 4j child runtime fixture child task\"}"@,
    )
}

/// Whether the static provider runs its child-runtime fixture on `request`.
pub open spec fn runs_child_fixture(prefix: Seq<char>, request: ProviderRequest) -> bool {
    prefix == default_static_prefix() && seq_contains(request.input.prompt@, child_fixture_marker())
}

/// The static provider's answer with `prefix` to `request`: `prefix: prompt`
/// (the prompt trimmed) as an assistant message; under the child-runtime
/// fixture, the report of the last tool result once there is one, else one
/// call that spawns a child run.
pub open spec fn static_response(prefix: Seq<char>, request: ProviderRequest, r: ProviderResponse) -> bool {
    &&& !runs_child_fixture(prefix, request) ==> r.message is Some
        && r.message->0.role == ProviderRole::Assistant && r.message->0.content@
        == prefix + ": "@ + trim(request.input.prompt@) && r.tool_calls@.len()
        == 0 && r.usage is None
    &&& runs_child_fixture(prefix, request) && last_tool_content(
        request.messages@,
    ) is Some ==> r.message is Some && r.message->0.role == ProviderRole::Assistant
        && r.message->0.content@
        == "Stage 4J child runtime fixture completed with child result: "@ + trim(
        last_tool_content(request.messages@)->0,
    ) && r.tool_calls@.len() == 0 && r.usage is None
    &&& runs_child_fixture(prefix, request) && last_tool_content(
        request.messages@,
    ) is None ==> r.message is None && r.usage is None && r.tool_calls@.len() == 1
        && is_child_spawn_call(r.tool_calls@[0])
}

impl StaticProvider {
    pub closed spec fn spec_prefix(&self) -> Seq<char> {
        self.response_prefix@
    }

    pub fn new(response_prefix: &str) -> (r: StaticProvider)
        ensures
            r.spec_prefix() == response_prefix@,
    {
        StaticProvider { response_prefix: owned(response_prefix) }
    }

    /// The static answer: `prefix: prompt` (the prompt trimmed). With the
    /// default prefix, a prompt naming the child-runtime fixture first asks to
    /// spawn a child run, and once a tool result is present reports it.
    pub fn complete_static(&self, request: &ProviderRequest) -> (r: ProviderResponse)
        ensures
            static_response(self.spec_prefix(), *request, r),
    {
        if crate::text::str_eq(self.response_prefix.as_str(), "YunXi autonomous runtime accepted prompt")
            && contains(request.input.prompt.as_str(), "stage 4j child runtime fixture") {
            let mut k = request.messages.len();
            proof {
                assert(request.messages@.take(k as int) =~= request.messages@);
            }
            while k > 0
                invariant
                    k <= request.messages@.len(),
                    runs_child_fixture(self.spec_prefix(), *request),
                    last_tool_content(request.messages@) == last_tool_content(
                        request.messages@.take(k as int),
                    ),
                decreases k,
            {
                k = k - 1;
                proof {
                    assert(request.messages@.take(k + 1).drop_last() =~= request.messages@.take(
                        k as int,
                    ));
                }
                if request.messages[k].role == ProviderRole::Tool {
                    let result = trim_str(request.messages[k].content.as_str());
                    let text = crate::text::concat(
                        "Stage 4J child runtime fixture completed with child result: ",
                        result,
                    );
                    return ProviderResponse::assistant(text.as_str());
                }
            }
            return ProviderResponse::tool_call(
                ProviderToolCall::MultiAgent {
                    id: Some(owned("stage-4j-child-run")),
                    action: owned("spawn_run"),
                    arguments_json: Some(owned("{\"task\":\"stage 4j child runtime fixture child task\"}")),
                },
            );
        }
        let text = concat3(
            self.response_prefix.as_str(),
            ": ",
            trim_str(request.input.prompt.as_str()),
        );
        ProviderResponse::assistant(text.as_str())
    }
}

impl Default for StaticProvider {
    fn default() -> (r: Self)
        ensures
            r.spec_prefix() == default_static_prefix(),
    {
        StaticProvider::new("YunXi autonomous runtime accepted prompt")
    }
}

impl AgentProvider for StaticProvider {
    open spec fn answers(&self, request: ProviderRequest, r: Result<ProviderResponse, AgentError>) -> bool {
        r is Ok && static_response(self.spec_prefix(), request, r->Ok_0)
    }

    fn complete(&self, request: &ProviderRequest) -> (r: Result<ProviderResponse, AgentError>)
        ensures
            r is Ok && static_response(self.spec_prefix(), *request, r->Ok_0),
    {
        Ok(self.complete_static(request))
    }
}

/// How an HTTP status is classified, status by status: 404 (and only 404)
/// means the model is unsupported, 401 and 403 mean authentication failed,
/// 408 a timeout, 429 a rate limit, every 5xx a server failure, the other 4xx
/// an invalid response, and anything else an unknown failure.
pub proof fn law_status_classes(status: u16)
    ensures
        (status_kind(status) == ProviderErrorKind::UnsupportedModel) <==> status == 404,
        (status_kind(status) == ProviderErrorKind::Auth) <==> (status == 401 || status == 403),
        (status_kind(status) == ProviderErrorKind::Timeout) <==> status == 408,
        (status_kind(status) == ProviderErrorKind::RateLimit) <==> status == 429,
        (status_kind(status) == ProviderErrorKind::Server) <==> (500 <= status && status <= 599),
        (status_kind(status) == ProviderErrorKind::InvalidResponse) <==> (400 <= status && status
            <= 499 && status != 401 && status != 403 && status != 404 && status != 408 && status
            != 429),
        (status_kind(status) == ProviderErrorKind::Unknown) <==> (status < 400 || status > 599),
        status_kind(status) != ProviderErrorKind::Network,
{
}

} // verus!
