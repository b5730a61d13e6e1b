//! The OpenAI-compatible wire format: how streamed chat-completion and
//! responses-API events become protocol stream events, how partial tool calls
//! are gathered, and how a complete response becomes a provider response.
use vstd::prelude::*;
use crate::json::{
    as_items, as_text, get, get_opt, index, items_of, json_get, json_index, json_text, opt_get,
    opt_ref, text_of, to_json_text, JsonValue,
};
use crate::protocol::{
    event_view, events_view, DeltaView, ProtocolRole, ResponseItem, ResponseItemDelta,
    ResponseItemView, ResponseStatus, StreamEvent, StreamEventView, ThreadId, ToolCallStatus,
    TurnId,
};
use crate::agent::AgentError;
use crate::json::{json_parse, parse_json_text};
use crate::provider::{
    chunk_view, chunk_views, decode_lines, decode_sse, ChunkView, ProviderSseDecoder,
    ProviderStreamChunk,
};
use crate::agent::TokenUsage;
use crate::provider::{
    OpenAiCompatibleProvider, ProviderMessage, ProviderResponse, ProviderRole, ProviderToolCall,
};
use crate::text::{concat, line_split, owned, seq_starts_with, starts_with, str_eq};

verus! {

// ---------------------------------------------------------------------------
// Specifications
// ---------------------------------------------------------------------------

/// The first of two optional texts that is present.
pub open spec fn either_text(a: Option<Seq<char>>, b: Option<Seq<char>>) -> Option<Seq<char>> {
    match a {
        Some(x) => Some(x),
        None => b,
    }
}

/// An optional text, or `default`.
pub open spec fn text_or(a: Option<Seq<char>>, default: Seq<char>) -> Seq<char> {
    match a {
        Some(x) => x,
        None => default,
    }
}

/// The text of member `key`.
pub open spec fn field_text(v: JsonValue, key: Seq<char>) -> Option<Seq<char>> {
    as_text(json_get(v, key))
}

/// The text a message content part contributes: its `text`, else its
/// `content`, else nothing.
pub open spec fn content_piece(part: JsonValue) -> Seq<char> {
    text_or(either_text(field_text(part, "text"@), field_text(part, "content"@)), Seq::empty())
}

/// The text of a message's content parts, joined.
pub open spec fn message_text(parts: Seq<JsonValue>) -> Seq<char>
    decreases parts.len(),
{
    if parts.len() == 0 {
        Seq::empty()
    } else {
        message_text(parts.drop_last()) + content_piece(parts.last())
    }
}

/// The completed item a responses-API output item stands for, if any.
pub open spec fn responses_item(item: JsonValue) -> Option<ResponseItemView> {
    let kind = field_text(item, "type"@);
    if kind == Some("message"@) {
        let content = match as_items(json_get(item, "content"@)) {
            Some(parts) => message_text(parts),
            None => Seq::empty(),
        };
        if content.len() > 0 {
            Some(ResponseItemView::Message { role: ProtocolRole::Assistant, content })
        } else {
            None
        }
    } else if kind == Some("function_call"@) {
        let call_id = text_or(
            either_text(field_text(item, "call_id"@), field_text(item, "id"@)),
            "function-call"@,
        );
        Some(
            ResponseItemView::FunctionCall {
                id: call_id,
                call_id,
                name: text_or(field_text(item, "name"@), "unknown"@),
                arguments: text_or(field_text(item, "arguments"@), "{}"@),
                status: ToolCallStatus::Completed,
            },
        )
    } else if kind == Some("mcp_call"@) || kind == Some("mcp_tool_call"@) {
        let call_id = text_or(
            either_text(field_text(item, "call_id"@), field_text(item, "id"@)),
            "mcp-call"@,
        );
        Some(
            ResponseItemView::McpToolCall {
                id: call_id,
                call_id,
                server: text_or(
                    either_text(field_text(item, "server_label"@), field_text(item, "server"@)),
                    "mcp"@,
                ),
                tool: text_or(
                    either_text(field_text(item, "name"@), field_text(item, "tool"@)),
                    "tool"@,
                ),
                arguments: match json_get(item, "arguments"@) {
                    Some(a) => json_text(a),
                    None => "{}"@,
                },
                status: ToolCallStatus::Completed,
            },
        )
    } else if kind == Some("web_search_call"@) {
        Some(
            ResponseItemView::WebSearchCall {
                id: text_or(field_text(item, "id"@), "web-search"@),
                query: text_or(field_text(item, "query"@), Seq::empty()),
                status: ToolCallStatus::Completed,
            },
        )
    } else {
        None
    }
}

/// The completion event of an item, if there is one.
pub open spec fn completed_item(
    thread: Seq<char>,
    turn: Seq<char>,
    item: Option<ResponseItemView>,
) -> Seq<StreamEventView> {
    match item {
        Some(i) => seq![StreamEventView::ItemCompleted { thread, turn, item: i }],
        None => Seq::empty(),
    }
}

/// A delta event.
pub open spec fn delta_event(thread: Seq<char>, turn: Seq<char>, delta: DeltaView) -> StreamEventView {
    StreamEventView::ItemDelta { thread, turn, delta }
}

/// The events of one responses-API stream event of the given type.
pub open spec fn responses_events(
    thread: Seq<char>,
    turn: Seq<char>,
    event_type: Seq<char>,
    value: JsonValue,
) -> Seq<StreamEventView> {
    let delta = field_text(value, "delta"@);
    if event_type == "response.output_text.delta"@ || event_type == "response.refusal.delta"@ {
        match delta {
            Some(d) => seq![
                delta_event(thread, turn, DeltaView::MessageContent { item_id: None, delta: d }),
            ],
            None => Seq::empty(),
        }
    } else if event_type == "response.reasoning_text.delta"@ || event_type
        == "response.reasoning_summary_text.delta"@ {
        match delta {
            Some(d) => seq![
                delta_event(
                    thread,
                    turn,
                    DeltaView::ReasoningContent {
                        item_id: field_text(value, "item_id"@),
                        delta: d,
                    },
                ),
            ],
            None => Seq::empty(),
        }
    } else if event_type == "response.function_call_arguments.delta"@ {
        match delta {
            Some(d) => seq![
                delta_event(
                    thread,
                    turn,
                    DeltaView::ToolCallArguments { call_id: field_text(value, "call_id"@), delta: d },
                ),
            ],
            None => Seq::empty(),
        }
    } else if event_type == "response.completed"@ {
        seq![
            StreamEventView::ResponseCompleted { thread, turn, status: ResponseStatus::Completed },
        ]
    } else if event_type == "response.failed"@ {
        seq![
            StreamEventView::ResponseFailed {
                thread,
                turn,
                message: text_or(
                    either_text(
                        as_text(
                            opt_get(opt_get(json_get(value, "response"@), "error"@), "message"@),
                        ),
                        as_text(opt_get(json_get(value, "error"@), "message"@)),
                    ),
                    "provider stream failed"@,
                ),
            },
        ]
    } else if event_type == "response.function_call.completed"@ {
        seq![
            delta_event(
                thread,
                turn,
                DeltaView::ToolCallStatus {
                    call_id: field_text(value, "call_id"@),
                    status: ToolCallStatus::Completed,
                },
            ),
        ]
    } else if event_type == "response.output_item.added"@ || event_type
        == "response.output_item.done"@ {
        match json_get(value, "item"@) {
            Some(item) => completed_item(thread, turn, responses_item(item)),
            None => Seq::empty(),
        }
    } else {
        Seq::empty()
    }
}

// ---------------------------------------------------------------------------
// Responses API
// ---------------------------------------------------------------------------

/// The text of member `key`.
fn field_text_of<'a>(v: &'a JsonValue, key: &str) -> (r: Option<&'a str>)
    ensures
        match r {
            Some(s) => field_text(*v, key@) == Some(s@),
            None => field_text(*v, key@) is None,
        },
{
    text_of(get(v, key))
}

/// The first of two member texts that is present, or `default`.
fn field_text_or(v: &JsonValue, first: &str, second: &str, default: &str) -> (r: String)
    ensures
        r@ == text_or(either_text(field_text(*v, first@), field_text(*v, second@)), default@),
{
    match field_text_of(v, first) {
        Some(s) => owned(s),
        None => match field_text_of(v, second) {
            Some(s) => owned(s),
            None => owned(default),
        },
    }
}

/// An optional member text as an owned string.
fn field_string(v: &JsonValue, key: &str) -> (r: Option<String>)
    ensures
        crate::text::opt_view(r) == field_text(*v, key@),
{
    match field_text_of(v, key) {
        Some(s) => Some(owned(s)),
        None => None,
    }
}

/// Appends a delta event.
pub fn push_delta(
    thread_id: &ThreadId,
    turn_id: &TurnId,
    delta: ResponseItemDelta,
    events: &mut Vec<StreamEvent>,
)
    ensures
        events_view(final(events)@) == events_view(old(events)@).push(
            delta_event(thread_id.0@, turn_id.0@, crate::protocol::delta_view(delta)),
        ),
{
    let ghost before = events_view(events@);
    let e = StreamEvent::ItemDelta { thread_id: thread_id.copy(), turn_id: turn_id.copy(), delta };
    events.push(e);
    assert(events_view(events@) =~= before.push(event_view(e)));
}

/// Appends a completion event for an item.
fn push_completed(
    thread_id: &ThreadId,
    turn_id: &TurnId,
    item: ResponseItem,
    events: &mut Vec<StreamEvent>,
)
    ensures
        events_view(final(events)@) == events_view(old(events)@).push(
            StreamEventView::ItemCompleted {
                thread: thread_id.0@,
                turn: turn_id.0@,
                item: crate::protocol::item_view(item),
            },
        ),
{
    let ghost before = events_view(events@);
    let e = StreamEvent::ItemCompleted { thread_id: thread_id.copy(), turn_id: turn_id.copy(), item };
    events.push(e);
    assert(events_view(events@) =~= before.push(event_view(e)));
}

/// The joined text of a message's content parts.
fn message_text_of(parts: &Vec<JsonValue>) -> (r: String)
    ensures
        r@ == message_text(parts@),
{
    let mut out = String::new();
    let mut i: usize = 0;
    assert(parts@.take(0) =~= Seq::<JsonValue>::empty());
    while i < parts.len()
        invariant
            i <= parts@.len(),
            out@ == message_text(parts@.take(i as int)),
        decreases parts@.len() - i,
    {
        proof {
            assert(parts@.take(i + 1).drop_last() =~= parts@.take(i as int));
            assert(parts@.take(i + 1).last() == parts@[i as int]);
        }
        let part = &parts[i];
        match field_text_of(part, "text") {
            Some(t) => {
                out.append(t);
            },
            None => match field_text_of(part, "content") {
                Some(t) => {
                    out.append(t);
                },
                None => {},
            },
        }
        i = i + 1;
    }
    assert(parts@.take(i as int) =~= parts@);
    out
}

/// Appends the completion event a responses-API output item stands for.
pub fn push_responses_api_item(
    thread_id: &ThreadId,
    turn_id: &TurnId,
    item: &JsonValue,
    events: &mut Vec<StreamEvent>,
)
    ensures
        events_view(final(events)@) == events_view(old(events)@) + completed_item(
            thread_id.0@,
            turn_id.0@,
            responses_item(*item),
        ),
{
    let ghost before = events_view(events@);
    let kind = field_text_of(item, "type");
    let is_kind = |k: &str| -> (b: bool)
        ensures
            b == (match kind {
                Some(s) => s@ == k@,
                None => false,
            }),
        {
            match kind {
                Some(s) => str_eq(s, k),
                None => false,
            }
        };
    if is_kind("message") {
        let content = match items_of(get(item, "content")) {
            Some(parts) => message_text_of(parts),
            None => String::new(),
        };
        if content.unicode_len() > 0 {
            push_completed(
                thread_id,
                turn_id,
                ResponseItem::Message { role: ProtocolRole::Assistant, content },
                events,
            );
        }
    } else if is_kind("function_call") {
        let call_id = field_text_or(item, "call_id", "id", "function-call");
        let name = match field_text_of(item, "name") {
            Some(s) => owned(s),
            None => owned("unknown"),
        };
        let arguments = match field_text_of(item, "arguments") {
            Some(s) => owned(s),
            None => owned("{}"),
        };
        push_completed(
            thread_id,
            turn_id,
            ResponseItem::FunctionCall {
                id: call_id.clone(),
                call_id,
                name,
                arguments,
                status: ToolCallStatus::Completed,
            },
            events,
        );
    } else if is_kind("mcp_call") || is_kind("mcp_tool_call") {
        let call_id = field_text_or(item, "call_id", "id", "mcp-call");
        let server = field_text_or(item, "server_label", "server", "mcp");
        let tool = field_text_or(item, "name", "tool", "tool");
        let arguments = match get(item, "arguments") {
            Some(a) => to_json_text(a),
            None => owned("{}"),
        };
        push_completed(
            thread_id,
            turn_id,
            ResponseItem::McpToolCall {
                id: call_id.clone(),
                call_id,
                server,
                tool,
                arguments,
                status: ToolCallStatus::Completed,
            },
            events,
        );
    } else if is_kind("web_search_call") {
        let id = match field_text_of(item, "id") {
            Some(s) => owned(s),
            None => owned("web-search"),
        };
        let query = match field_text_of(item, "query") {
            Some(s) => owned(s),
            None => String::new(),
        };
        push_completed(
            thread_id,
            turn_id,
            ResponseItem::WebSearchCall { id, query, status: ToolCallStatus::Completed },
            events,
        );
    }
    assert(events_view(events@) =~= before + completed_item(
        thread_id.0@,
        turn_id.0@,
        responses_item(*item),
    ));
}

/// Appends the events of a responses-API stream event of type `event_type`;
/// see `responses_events`.
pub fn parse_responses_api_stream_value(
    thread_id: &ThreadId,
    turn_id: &TurnId,
    event_type: &str,
    value: &JsonValue,
    events: &mut Vec<StreamEvent>,
)
    ensures
        events_view(final(events)@) == events_view(old(events)@) + responses_events(
            thread_id.0@,
            turn_id.0@,
            event_type@,
            *value,
        ),
{
    let ghost before = events_view(events@);
    let delta = field_text_of(value, "delta");
    if str_eq(event_type, "response.output_text.delta") || str_eq(
        event_type,
        "response.refusal.delta",
    ) {
        match delta {
            Some(d) => {
                push_delta(
                    thread_id,
                    turn_id,
                    ResponseItemDelta::MessageContent { item_id: None, delta: owned(d) },
                    events,
                );
            },
            None => {},
        }
    } else if str_eq(event_type, "response.reasoning_text.delta") || str_eq(
        event_type,
        "response.reasoning_summary_text.delta",
    ) {
        match delta {
            Some(d) => {
                push_delta(
                    thread_id,
                    turn_id,
                    ResponseItemDelta::ReasoningContent {
                        item_id: field_string(value, "item_id"),
                        delta: owned(d),
                    },
                    events,
                );
            },
            None => {},
        }
    } else if str_eq(event_type, "response.function_call_arguments.delta") {
        match delta {
            Some(d) => {
                push_delta(
                    thread_id,
                    turn_id,
                    ResponseItemDelta::ToolCallArguments {
                        call_id: field_string(value, "call_id"),
                        delta: owned(d),
                    },
                    events,
                );
            },
            None => {},
        }
    } else if str_eq(event_type, "response.completed") {
        let e = StreamEvent::ResponseCompleted {
            thread_id: thread_id.copy(),
            turn_id: turn_id.copy(),
            status: ResponseStatus::Completed,
        };
        events.push(e);
    } else if str_eq(event_type, "response.failed") {
        let nested = text_of(get_opt(get_opt(get(value, "response"), "error"), "message"));
        let message = match nested {
            Some(m) => owned(m),
            None => match text_of(get_opt(get(value, "error"), "message")) {
                Some(m) => owned(m),
                None => owned("provider stream failed"),
            },
        };
        let e = StreamEvent::ResponseFailed {
            thread_id: thread_id.copy(),
            turn_id: turn_id.copy(),
            message,
        };
        events.push(e);
    } else if str_eq(event_type, "response.function_call.completed") {
        push_delta(
            thread_id,
            turn_id,
            ResponseItemDelta::ToolCallStatus {
                call_id: field_string(value, "call_id"),
                status: ToolCallStatus::Completed,
            },
            events,
        );
    } else if str_eq(event_type, "response.output_item.added") || str_eq(
        event_type,
        "response.output_item.done",
    ) {
        match get(value, "item") {
            Some(item) => {
                push_responses_api_item(thread_id, turn_id, item, events);
            },
            None => {},
        }
    }
    assert(events_view(events@) =~= before + responses_events(
        thread_id.0@,
        turn_id.0@,
        event_type@,
        *value,
    ));
}

// ---------------------------------------------------------------------------
// Chat completions: partial tool calls
// ---------------------------------------------------------------------------

/// A tool call gathered from chat-completion deltas.
#[derive(Clone, Debug, PartialEq, Eq)]
pub struct ChatToolCallDelta {
    pub id: Option<String>,
    pub name: Option<String>,
    pub arguments: String,
}

/// A gathered tool call by value.
pub struct AccView {
    pub id: Option<Seq<char>>,
    pub name: Option<Seq<char>>,
    pub arguments: Seq<char>,
}

pub open spec fn acc_view(a: ChatToolCallDelta) -> AccView {
    AccView {
        id: crate::text::opt_view(a.id),
        name: crate::text::opt_view(a.name),
        arguments: a.arguments@,
    }
}

pub open spec fn calls_view(c: Seq<(u64, ChatToolCallDelta)>) -> Seq<(u64, AccView)> {
    c.map_values(|e: (u64, ChatToolCallDelta)| (e.0, acc_view(e.1)))
}

/// Where key `k` is or belongs in calls ordered by key: past every smaller key.
pub open spec fn lower_bound(c: Seq<(u64, AccView)>, k: u64) -> nat
    decreases c.len(),
{
    if c.len() == 0 {
        0
    } else if c[0].0 < k {
        1 + lower_bound(c.skip(1), k)
    } else {
        0
    }
}

/// The call gathered under index `k`.
pub open spec fn acc_at(c: Seq<(u64, AccView)>, k: u64) -> Option<AccView> {
    let p = lower_bound(c, k);
    if p < c.len() && c[p as int].0 == k {
        Some(c[p as int].1)
    } else {
        None
    }
}

/// The calls with index `k` set to `a`, in place or inserted in key order.
pub open spec fn put_acc(c: Seq<(u64, AccView)>, k: u64, a: AccView) -> Seq<(u64, AccView)> {
    let p = lower_bound(c, k);
    if p < c.len() && c[p as int].0 == k {
        c.update(p as int, (k, a))
    } else {
        c.insert(p as int, (k, a))
    }
}

/// Calls ordered by strictly increasing index.
pub open spec fn keys_sorted(c: Seq<(u64, AccView)>) -> bool {
    forall|i: int, j: int| 0 <= i < j < c.len() ==> c[i].0 < c[j].0
}

/// The position `lower_bound` finds: every key before it is smaller than `k`,
/// and the key at it (if any) is not.
proof fn lemma_lower_bound(c: Seq<(u64, AccView)>, k: u64)
    ensures
        lower_bound(c, k) <= c.len(),
        forall|j: int| 0 <= j < lower_bound(c, k) ==> #[trigger] c[j].0 < k,
        lower_bound(c, k) < c.len() ==> c[lower_bound(c, k) as int].0 >= k,
    decreases c.len(),
{
    if c.len() > 0 && c[0].0 < k {
        lemma_lower_bound(c.skip(1), k);
        assert forall|j: int| 0 <= j < lower_bound(c, k) implies #[trigger] c[j].0 < k by {
            if j > 0 {
                assert(c[j] == c.skip(1)[j - 1]);
            }
        }
        if lower_bound(c, k) < c.len() {
            assert(c[lower_bound(c, k) as int] == c.skip(1)[lower_bound(c.skip(1), k) as int]);
        }
    }
}

/// A position with only smaller keys before it and no smaller key at it is
/// the one `lower_bound` finds.
proof fn lemma_lower_bound_at(c: Seq<(u64, AccView)>, k: u64, q: int)
    requires
        0 <= q <= c.len(),
        forall|j: int| 0 <= j < q ==> #[trigger] c[j].0 < k,
        q < c.len() ==> c[q].0 >= k,
    ensures
        lower_bound(c, k) == q,
    decreases c.len(),
{
    if c.len() > 0 && q > 0 {
        assert(c[0].0 < k);
        let t = c.skip(1);
        assert forall|j: int| 0 <= j < q - 1 implies #[trigger] t[j].0 < k by {
            assert(t[j] == c[j + 1]);
        }
        if q - 1 < t.len() {
            assert(t[q - 1] == c[q]);
        }
        lemma_lower_bound_at(t, k, q - 1);
    }
}

/// In calls ordered by index, the call under `k` is the entry with index `k`.
proof fn lemma_acc_at_sorted(c: Seq<(u64, AccView)>, k: u64, i: int)
    requires
        keys_sorted(c),
        0 <= i < c.len(),
        c[i].0 == k,
    ensures
        acc_at(c, k) == Some(c[i].1),
{
    assert forall|j: int| 0 <= j < i implies #[trigger] c[j].0 < k by {}
    lemma_lower_bound_at(c, k, i);
}

/// In calls ordered by index, no call is gathered under an index no entry has.
proof fn lemma_acc_at_absent(c: Seq<(u64, AccView)>, k: u64)
    requires
        keys_sorted(c),
        forall|i: int| 0 <= i < c.len() ==> #[trigger] c[i].0 != k,
    ensures
        acc_at(c, k) is None,
{
    lemma_lower_bound(c, k);
}

/// Gathered tool calls stay ordered by index, as in a map keyed by index:
/// setting a call keeps the order, gathers the new call under its index, and
/// leaves every other index's call as it was. Calls are therefore flushed in
/// order of index.
pub proof fn law_gathered_calls_stay_ordered(c: Seq<(u64, AccView)>, k: u64, a: AccView)
    requires
        keys_sorted(c),
    ensures
        keys_sorted(put_acc(c, k, a)),
        acc_at(put_acc(c, k, a), k) == Some(a),
        forall|other: u64| other != k ==> #[trigger] acc_at(put_acc(c, k, a), other) == acc_at(c, other),
{
    lemma_lower_bound(c, k);
    let p = lower_bound(c, k) as int;
    let r = put_acc(c, k, a);
    if p < c.len() && c[p].0 == k {
        assert(r == c.update(p, (k, a)));
        assert(keys_sorted(r)) by {
            assert forall|i: int, j: int| 0 <= i < j < r.len() implies r[i].0 < r[j].0 by {
                assert(r[i].0 == c[i].0 && r[j].0 == c[j].0);
            }
        }
        lemma_acc_at_sorted(r, k, p);
        assert forall|other: u64| other != k implies #[trigger] acc_at(r, other) == acc_at(c, other) by {
            if exists|i: int| 0 <= i < c.len() && c[i].0 == other {
                let i = choose|i: int| 0 <= i < c.len() && c[i].0 == other;
                lemma_acc_at_sorted(c, other, i);
                assert(i != p);
                assert(r[i] == c[i]);
                lemma_acc_at_sorted(r, other, i);
            } else {
                lemma_acc_at_absent(c, other);
                assert forall|i: int| 0 <= i < r.len() implies #[trigger] r[i].0 != other by {
                    if i != p {
                        assert(r[i] == c[i]);
                    }
                }
                lemma_acc_at_absent(r, other);
            }
        }
    } else {
        assert(r == c.insert(p, (k, a)));
        assert(keys_sorted(r)) by {
            assert forall|i: int, j: int| 0 <= i < j < r.len() implies r[i].0 < r[j].0 by {
                if j < p {
                    assert(r[i] == c[i] && r[j] == c[j]);
                } else if j == p {
                    assert(r[i] == c[i]);
                } else if i > p {
                    assert(r[i] == c[i - 1] && r[j] == c[j - 1]);
                } else if i == p {
                    assert(r[j] == c[j - 1]);
                    assert(c[p].0 >= k);
                    if j - 1 > p {
                        assert(c[p].0 < c[j - 1].0);
                    }
                } else {
                    assert(r[i] == c[i] && r[j] == c[j - 1]);
                }
            }
        }
        lemma_acc_at_sorted(r, k, p);
        assert forall|other: u64| other != k implies #[trigger] acc_at(r, other) == acc_at(c, other) by {
            if exists|i: int| 0 <= i < c.len() && c[i].0 == other {
                let i = choose|i: int| 0 <= i < c.len() && c[i].0 == other;
                lemma_acc_at_sorted(c, other, i);
                if i < p {
                    assert(r[i] == c[i]);
                    lemma_acc_at_sorted(r, other, i);
                } else {
                    assert(r[i + 1] == c[i]);
                    lemma_acc_at_sorted(r, other, i + 1);
                }
            } else {
                lemma_acc_at_absent(c, other);
                assert forall|i: int| 0 <= i < r.len() implies #[trigger] r[i].0 != other by {
                    if i < p {
                        assert(r[i] == c[i]);
                    } else if i > p {
                        assert(r[i] == c[i - 1]);
                    }
                }
                lemma_acc_at_absent(r, other);
            }
        }
    }
}

/// Events and gathered calls, by value.
pub type ChatState = (Seq<StreamEventView>, Seq<(u64, AccView)>);

pub open spec fn empty_acc() -> AccView {
    AccView { id: None, name: None, arguments: Seq::empty() }
}

/// One tool-call delta: it updates the call at its index (or at the next
/// index when it names none), reports a name and an argument chunk as they
/// come.
pub open spec fn tool_call_step(
    thread: Seq<char>,
    turn: Seq<char>,
    tc: JsonValue,
    st: ChatState,
) -> ChatState {
    let events = st.0;
    let calls = st.1;
    let index: u64 = match crate::json::as_unsigned(json_get(tc, "index"@)) {
        Some(i) => i,
        None => calls.len() as u64,
    };
    let acc0 = match acc_at(calls, index) {
        Some(a) => a,
        None => empty_acc(),
    };
    let tc_id = field_text(tc, "id"@);
    let acc1 = match tc_id {
        Some(id) => AccView { id: Some(id), ..acc0 },
        None => acc0,
    };
    let function = json_get(tc, "function"@);
    let fname = as_text(opt_get(function, "name"@));
    let acc2 = match fname {
        Some(n) => AccView { name: Some(n), ..acc1 },
        None => acc1,
    };
    let ev1 = match fname {
        Some(n) => events.push(
            delta_event(thread, turn, DeltaView::ToolCallName { call_id: acc1.id, name: n }),
        ),
        None => events,
    };
    let call_id = match acc2.id {
        Some(x) => Some(x),
        None => tc_id,
    };
    let fargs = as_text(opt_get(function, "arguments"@));
    let acc3 = match fargs {
        Some(d) => AccView { arguments: acc2.arguments + d, ..acc2 },
        None => acc2,
    };
    let ev2 = match fargs {
        Some(d) => ev1.push(
            delta_event(thread, turn, DeltaView::ToolCallArguments { call_id, delta: d }),
        ),
        None => ev1,
    };
    (ev2, put_acc(calls, index, acc3))
}

/// The tool-call deltas applied in order.
pub open spec fn tool_calls_fold(
    thread: Seq<char>,
    turn: Seq<char>,
    tcs: Seq<JsonValue>,
    st: ChatState,
) -> ChatState
    decreases tcs.len(),
{
    if tcs.len() == 0 {
        st
    } else {
        tool_call_step(thread, turn, tcs.last(), tool_calls_fold(thread, turn, tcs.drop_last(), st))
    }
}

/// The event completes a function call with this id.
pub open spec fn completes_call(e: StreamEventView, call_id: Seq<char>) -> bool {
    e matches StreamEventView::ItemCompleted {
        item: ResponseItemView::FunctionCall { call_id: c, .. },
        ..
    } && c == call_id
}

/// Some event already completes a function call with this id.
pub open spec fn has_function_call(events: Seq<StreamEventView>, call_id: Seq<char>) -> bool {
    exists|i: int| 0 <= i < events.len() && completes_call(#[trigger] events[i], call_id)
}

/// One gathered call flushed: a named call not yet completed gets its
/// completion event; its id is the gathered one or one made from the number
/// of events so far.
pub open spec fn flush_step(
    thread: Seq<char>,
    turn: Seq<char>,
    events: Seq<StreamEventView>,
    acc: AccView,
) -> Seq<StreamEventView> {
    match acc.name {
        None => events,
        Some(n) => {
            let call_id = match acc.id {
                Some(i) => i,
                None => "tool-call-"@ + crate::text::decimal(events.len()),
            };
            if has_function_call(events, call_id) {
                events
            } else {
                events.push(
                    StreamEventView::ItemCompleted {
                        thread,
                        turn,
                        item: ResponseItemView::FunctionCall {
                            id: call_id,
                            call_id,
                            name: n,
                            arguments: acc.arguments,
                            status: ToolCallStatus::Completed,
                        },
                    },
                )
            }
        },
    }
}

/// Every gathered call flushed, in index order.
pub open spec fn flush_events(
    thread: Seq<char>,
    turn: Seq<char>,
    events: Seq<StreamEventView>,
    calls: Seq<(u64, AccView)>,
) -> Seq<StreamEventView>
    decreases calls.len(),
{
    if calls.len() == 0 {
        events
    } else {
        flush_step(thread, turn, flush_events(thread, turn, events, calls.drop_last()), calls.last().1)
    }
}

/// One chat-completion chunk: from its first choice, a text delta, a reasoning
/// delta, the tool-call deltas, and on a finish reason the flushed calls and
/// the completion.
pub open spec fn chat_events(thread: Seq<char>, turn: Seq<char>, value: JsonValue, st: ChatState) -> ChatState {
    match json_index(json_get(value, "choices"@), 0) {
        None => st,
        Some(choice) => {
            let delta = json_get(choice, "delta"@);
            let e1 = match as_text(opt_get(delta, "content"@)) {
                Some(d) => st.0.push(
                    delta_event(thread, turn, DeltaView::MessageContent { item_id: None, delta: d }),
                ),
                None => st.0,
            };
            let e2 = match as_text(opt_get(delta, "reasoning_content"@)) {
                Some(d) => e1.push(
                    delta_event(thread, turn, DeltaView::ReasoningContent { item_id: None, delta: d }),
                ),
                None => e1,
            };
            let s3 = match as_items(opt_get(delta, "tool_calls"@)) {
                Some(tcs) => tool_calls_fold(thread, turn, tcs, (e2, st.1)),
                None => (e2, st.1),
            };
            if field_text(choice, "finish_reason"@) is Some {
                (
                    flush_events(thread, turn, s3.0, s3.1).push(
                        StreamEventView::ResponseCompleted {
                            thread,
                            turn,
                            status: ResponseStatus::Completed,
                        },
                    ),
                    s3.1,
                )
            } else {
                s3
            }
        },
    }
}

/// One streamed JSON value: a responses-API event when it names its type,
/// else a chat-completion chunk.
pub open spec fn stream_value(thread: Seq<char>, turn: Seq<char>, value: JsonValue, st: ChatState) -> ChatState {
    match field_text(value, "type"@) {
        Some(t) => (st.0 + responses_events(thread, turn, t, value), st.1),
        None => chat_events(thread, turn, value, st),
    }
}

/// Where index `k` is or belongs among the gathered calls.
fn calls_slot(calls: &Vec<(u64, ChatToolCallDelta)>, k: u64) -> (r: usize)
    ensures
        r == lower_bound(calls_view(calls@), k),
        r <= calls@.len(),
{
    let ghost cv = calls_view(calls@);
    let mut i: usize = 0;
    assert(cv.skip(0) =~= cv);
    while i < calls.len() && calls[i].0 < k
        invariant
            i <= calls@.len(),
            cv == calls_view(calls@),
            lower_bound(cv, k) == i + lower_bound(cv.skip(i as int), k),
        decreases calls@.len() - i,
    {
        proof {
            assert(cv.skip(i as int).skip(1) =~= cv.skip(i + 1));
            assert(cv.skip(i as int)[0] == cv[i as int]);
        }
        i = i + 1;
    }
    proof {
        if i < calls@.len() {
            assert(cv.skip(i as int)[0] == cv[i as int]);
        }
    }
    i
}

fn copy_acc(a: &ChatToolCallDelta) -> (r: ChatToolCallDelta)
    ensures
        acc_view(r) == acc_view(*a),
{
    ChatToolCallDelta {
        id: crate::text::opt_string_copy(&a.id),
        name: crate::text::opt_string_copy(&a.name),
        arguments: a.arguments.clone(),
    }
}

/// Applies one tool-call delta; see `tool_call_step`.
fn apply_tool_call(
    thread_id: &ThreadId,
    turn_id: &TurnId,
    tc: &JsonValue,
    events: &mut Vec<StreamEvent>,
    calls: &mut Vec<(u64, ChatToolCallDelta)>,
)
    ensures
        (events_view(final(events)@), calls_view(final(calls)@)) == tool_call_step(
            thread_id.0@,
            turn_id.0@,
            *tc,
            (events_view(old(events)@), calls_view(old(calls)@)),
        ),
{
    let ghost cv = calls_view(calls@);
    let index: u64 = match crate::json::unsigned_of(get(tc, "index")) {
        Some(i) => i,
        None => calls.len() as u64,
    };
    let p = calls_slot(calls, index);
    let present = p < calls.len() && calls[p].0 == index;
    let mut acc = if present {
        copy_acc(&calls[p].1)
    } else {
        ChatToolCallDelta { id: None, name: None, arguments: String::new() }
    };
    proof {
        if present {
            assert(cv[p as int] == (calls@[p as int].0, acc_view(calls@[p as int].1)));
        }
    }
    let tc_id = field_text_of(tc, "id");
    match tc_id {
        Some(id) => {
            acc.id = Some(owned(id));
        },
        None => {},
    }
    let function = get(tc, "function");
    match text_of(get_opt(function, "name")) {
        Some(name) => {
            acc.name = Some(owned(name));
            push_delta(
                thread_id,
                turn_id,
                ResponseItemDelta::ToolCallName {
                    call_id: crate::text::opt_string_copy(&acc.id),
                    name: owned(name),
                },
                events,
            );
        },
        None => {},
    }
    let call_id = match &acc.id {
        Some(x) => Some(x.clone()),
        None => match tc_id {
            Some(id) => Some(owned(id)),
            None => None,
        },
    };
    match text_of(get_opt(function, "arguments")) {
        Some(d) => {
            acc.arguments.append(d);
            push_delta(
                thread_id,
                turn_id,
                ResponseItemDelta::ToolCallArguments { call_id, delta: owned(d) },
                events,
            );
        },
        None => {},
    }
    let ghost av = acc_view(acc);
    if present {
        calls.set(p, (index, acc));
        assert(calls_view(calls@) =~= cv.update(p as int, (index, av)));
    } else {
        calls.insert(p, (index, acc));
        assert(calls_view(calls@) =~= cv.insert(p as int, (index, av)));
    }
}

/// Whether some event already completes a function call with this id.
fn has_function_call_exec(events: &Vec<StreamEvent>, call_id: &str) -> (r: bool)
    ensures
        r == has_function_call(events_view(events@), call_id@),
{
    let ghost ev = events_view(events@);
    let mut i: usize = 0;
    while i < events.len()
        invariant
            i <= events@.len(),
            ev == events_view(events@),
            forall|j: int| 0 <= j < i ==> !completes_call(#[trigger] ev[j], call_id@),
        decreases events@.len() - i,
    {
        assert(ev[i as int] == event_view(events@[i as int]));
        match &events[i] {
            StreamEvent::ItemCompleted { item: ResponseItem::FunctionCall { call_id: c, .. }, .. } => {
                if str_eq(c.as_str(), call_id) {
                    return true;
                }
            },
            _ => {},
        }
        i = i + 1;
    }
    false
}

/// Completes every named gathered call not yet completed, in index order; see
/// `flush_events`.
pub fn flush_chat_tool_calls(
    thread_id: &ThreadId,
    turn_id: &TurnId,
    events: &mut Vec<StreamEvent>,
    calls: &Vec<(u64, ChatToolCallDelta)>,
)
    ensures
        events_view(final(events)@) == flush_events(
            thread_id.0@,
            turn_id.0@,
            events_view(old(events)@),
            calls_view(calls@),
        ),
{
    let ghost start = events_view(events@);
    let ghost cv = calls_view(calls@);
    let mut i: usize = 0;
    assert(cv.take(0) =~= Seq::<(u64, AccView)>::empty());
    while i < calls.len()
        invariant
            i <= calls@.len(),
            cv == calls_view(calls@),
            events_view(events@) == flush_events(
                thread_id.0@,
                turn_id.0@,
                start,
                cv.take(i as int),
            ),
        decreases calls@.len() - i,
    {
        proof {
            assert(cv.take(i + 1).drop_last() =~= cv.take(i as int));
            assert(cv.take(i + 1).last() == cv[i as int]);
        }
        let acc = &calls[i].1;
        match &acc.name {
            Some(name) => {
                let call_id = match &acc.id {
                    Some(id) => id.clone(),
                    None => crate::text::concat(
                        "tool-call-",
                        crate::cli::format::usize_text(events.len()).as_str(),
                    ),
                };
                proof {
                    assert(events_view(events@).len() == events@.len());
                }
                if !has_function_call_exec(events, call_id.as_str()) {
                    push_completed(
                        thread_id,
                        turn_id,
                        ResponseItem::FunctionCall {
                            id: call_id.clone(),
                            call_id,
                            name: name.clone(),
                            arguments: acc.arguments.clone(),
                            status: ToolCallStatus::Completed,
                        },
                        events,
                    );
                }
            },
            None => {},
        }
        i = i + 1;
    }
    assert(cv.take(i as int) =~= cv);
}

/// Applies one streamed JSON value; see `stream_value`.
pub fn parse_stream_value(
    thread_id: &ThreadId,
    turn_id: &TurnId,
    value: &JsonValue,
    events: &mut Vec<StreamEvent>,
    calls: &mut Vec<(u64, ChatToolCallDelta)>,
)
    ensures
        (events_view(final(events)@), calls_view(final(calls)@)) == stream_value(
            thread_id.0@,
            turn_id.0@,
            *value,
            (events_view(old(events)@), calls_view(old(calls)@)),
        ),
{
    match field_text_of(value, "type") {
        Some(event_type) => {
            parse_responses_api_stream_value(thread_id, turn_id, event_type, value, events);
            return;
        },
        None => {},
    }
    let ghost st0 = (events_view(events@), calls_view(calls@));
    match index(get(value, "choices"), 0) {
        None => {},
        Some(choice) => {
            let delta = get(choice, "delta");
            match text_of(get_opt(delta, "content")) {
                Some(d) => {
                    push_delta(
                        thread_id,
                        turn_id,
                        ResponseItemDelta::MessageContent { item_id: None, delta: owned(d) },
                        events,
                    );
                },
                None => {},
            }
            match text_of(get_opt(delta, "reasoning_content")) {
                Some(d) => {
                    push_delta(
                        thread_id,
                        turn_id,
                        ResponseItemDelta::ReasoningContent { item_id: None, delta: owned(d) },
                        events,
                    );
                },
                None => {},
            }
            match items_of(get_opt(delta, "tool_calls")) {
                Some(tcs) => {
                    let ghost st1 = (events_view(events@), calls_view(calls@));
                    let mut i: usize = 0;
                    assert(tcs@.take(0) =~= Seq::<JsonValue>::empty());
                    while i < tcs.len()
                        invariant
                            i <= tcs@.len(),
                            (events_view(events@), calls_view(calls@)) == tool_calls_fold(
                                thread_id.0@,
                                turn_id.0@,
                                tcs@.take(i as int),
                                st1,
                            ),
                        decreases tcs@.len() - i,
                    {
                        proof {
                            assert(tcs@.take(i + 1).drop_last() =~= tcs@.take(i as int));
                            assert(tcs@.take(i + 1).last() == tcs@[i as int]);
                        }
                        apply_tool_call(thread_id, turn_id, &tcs[i], events, calls);
                        i = i + 1;
                    }
                    assert(tcs@.take(i as int) =~= tcs@);
                },
                None => {},
            }
            if field_text_of(choice, "finish_reason").is_some() {
                flush_chat_tool_calls(thread_id, turn_id, events, calls);
                let ghost before = events_view(events@);
                let e = StreamEvent::ResponseCompleted {
                    thread_id: thread_id.copy(),
                    turn_id: turn_id.copy(),
                    status: ResponseStatus::Completed,
                };
                events.push(e);
                assert(events_view(events@) =~= before.push(event_view(e)));
            }
        },
    }
}

// ---------------------------------------------------------------------------
// The stream accumulator
// ---------------------------------------------------------------------------

/// Events only grow as calls are flushed.
proof fn lemma_flush_grows(
    thread: Seq<char>,
    turn: Seq<char>,
    events: Seq<StreamEventView>,
    calls: Seq<(u64, AccView)>,
)
    ensures
        flush_events(thread, turn, events, calls).len() >= events.len(),
    decreases calls.len(),
{
    if calls.len() > 0 {
        lemma_flush_grows(thread, turn, events, calls.drop_last());
    }
}

/// Events only grow as tool-call deltas are applied.
proof fn lemma_fold_grows(thread: Seq<char>, turn: Seq<char>, tcs: Seq<JsonValue>, st: ChatState)
    ensures
        tool_calls_fold(thread, turn, tcs, st).0.len() >= st.0.len(),
    decreases tcs.len(),
{
    if tcs.len() > 0 {
        lemma_fold_grows(thread, turn, tcs.drop_last(), st);
    }
}

/// Events only grow with each streamed value.
pub proof fn lemma_stream_value_grows(thread: Seq<char>, turn: Seq<char>, value: JsonValue, st: ChatState)
    ensures
        stream_value(thread, turn, value, st).0.len() >= st.0.len(),
{
    match field_text(value, "type"@) {
        Some(t) => {},
        None => {
            match json_index(json_get(value, "choices"@), 0) {
                None => {},
                Some(choice) => {
                    let delta = json_get(choice, "delta"@);
                    let e1 = match as_text(opt_get(delta, "content"@)) {
                        Some(d) => st.0.push(
                            delta_event(thread, turn, DeltaView::MessageContent { item_id: None, delta: d }),
                        ),
                        None => st.0,
                    };
                    let e2 = match as_text(opt_get(delta, "reasoning_content"@)) {
                        Some(d) => e1.push(
                            delta_event(
                                thread,
                                turn,
                                DeltaView::ReasoningContent { item_id: None, delta: d },
                            ),
                        ),
                        None => e1,
                    };
                    match as_items(opt_get(delta, "tool_calls"@)) {
                        Some(tcs) => {
                            lemma_fold_grows(thread, turn, tcs, (e2, st.1));
                            let s3 = tool_calls_fold(thread, turn, tcs, (e2, st.1));
                            lemma_flush_grows(thread, turn, s3.0, s3.1);
                        },
                        None => {
                            lemma_flush_grows(thread, turn, e2, st.1);
                        },
                    }
                },
            }
        },
    }
}

/// Gathers a provider's streamed events and partial tool calls for one turn.
#[derive(Clone, Debug, PartialEq, Eq)]
pub struct OpenAiStreamAccumulator {
    thread_id: ThreadId,
    turn_id: TurnId,
    events: Vec<StreamEvent>,
    chat_tool_calls: Vec<(u64, ChatToolCallDelta)>,
    completed: bool,
}

/// An accumulator by value.
pub struct AccumulatorView {
    pub thread: Seq<char>,
    pub turn: Seq<char>,
    pub events: Seq<StreamEventView>,
    pub calls: Seq<(u64, AccView)>,
    pub completed: bool,
}

/// A fresh accumulator: the response has started, nothing else.
pub open spec fn initial_state(thread: Seq<char>, turn: Seq<char>) -> AccumulatorView {
    AccumulatorView {
        thread,
        turn,
        events: seq![StreamEventView::ResponseStarted { thread, turn, metadata: None }],
        calls: Seq::empty(),
        completed: false,
    }
}

/// Completes the response once: gathered calls are flushed and the completion
/// is added.
pub open spec fn complete_state(st: AccumulatorView) -> AccumulatorView {
    if st.completed {
        st
    } else {
        AccumulatorView {
            events: flush_events(st.thread, st.turn, st.events, st.calls).push(
                StreamEventView::ResponseCompleted {
                    thread: st.thread,
                    turn: st.turn,
                    status: ResponseStatus::Completed,
                },
            ),
            completed: true,
            ..st
        }
    }
}

/// Some event completes the response.
pub open spec fn any_completed(events: Seq<StreamEventView>) -> bool {
    exists|i: int| 0 <= i < events.len() && #[trigger] events[i] is ResponseCompleted
}

/// One decoded server-sent event: data is parsed as JSON and applied, the end
/// marker completes the response, comments change nothing.
pub open spec fn sse_step(st: AccumulatorView, c: ChunkView) -> Result<AccumulatorView, Seq<char>> {
    if c.0 == 0 {
        match json_parse(c.1) {
            Err(e) => Err("failed to parse provider stream event JSON: "@ + e),
            Ok(v) => {
                let r = stream_value(st.thread, st.turn, v, (st.events, st.calls));
                Ok(
                    AccumulatorView {
                        events: r.0,
                        calls: r.1,
                        completed: st.completed || any_completed(r.0.skip(st.events.len() as int)),
                        ..st
                    },
                )
            },
        }
    } else if c.0 == 1 {
        Ok(complete_state(st))
    } else {
        Ok(st)
    }
}

/// Decoded events applied in order up to the first error: the state reached,
/// and the error if one stopped it.
pub open spec fn sse_fold(st: AccumulatorView, chunks: Seq<ChunkView>) -> (
    AccumulatorView,
    Option<Seq<char>>,
)
    decreases chunks.len(),
{
    if chunks.len() == 0 {
        (st, None)
    } else {
        let prev = sse_fold(st, chunks.drop_last());
        match prev.1 {
            Some(_) => prev,
            None => match sse_step(prev.0, chunks.last()) {
                Ok(s) => (s, None),
                Err(e) => (prev.0, Some(e)),
            },
        }
    }
}

/// What a decoder still holding `pending` decodes when it finishes.
pub open spec fn finish_chunks(pending: Seq<char>) -> Seq<ChunkView> {
    if pending.len() == 0 {
        Seq::empty()
    } else {
        match decode_sse(pending) {
            Some(c) => seq![c],
            None => Seq::empty(),
        }
    }
}

/// A whole stream read into an accumulator and a decoder holding `pending`,
/// then finished: the events, or the first error.
pub open spec fn incremental_result(
    st: AccumulatorView,
    pending: Seq<char>,
    stream: Seq<char>,
) -> Result<Seq<StreamEventView>, Seq<char>> {
    let split = line_split(pending + stream);
    let first = sse_fold(st, decode_lines(split.0));
    match first.1 {
        Some(e) => Err(e),
        None => {
            let second = sse_fold(first.0, finish_chunks(split.1));
            match second.1 {
                Some(e) => Err(e),
                None => Ok(complete_state(second.0).events),
            }
        },
    }
}

/// Error results by their message.
pub open spec fn error_message(r: Result<Vec<StreamEvent>, AgentError>) -> Option<Seq<char>> {
    match r {
        Err(AgentError::Execution { message }) => Some(message@),
        _ => None,
    }
}

impl OpenAiStreamAccumulator {
    pub closed spec fn view(&self) -> AccumulatorView {
        AccumulatorView {
            thread: self.thread_id.0@,
            turn: self.turn_id.0@,
            events: events_view(self.events@),
            calls: calls_view(self.chat_tool_calls@),
            completed: self.completed,
        }
    }

    pub fn new(thread_id: &str, turn_id: &str) -> (r: OpenAiStreamAccumulator)
        ensures
            r.view() == initial_state(thread_id@, turn_id@),
    {
        let thread = ThreadId(owned(thread_id));
        let turn = TurnId(owned(turn_id));
        let mut events: Vec<StreamEvent> = Vec::new();
        let e = StreamEvent::ResponseStarted {
            thread_id: thread.copy(),
            turn_id: turn.copy(),
            metadata: None,
        };
        events.push(e);
        let r = OpenAiStreamAccumulator {
            thread_id: thread,
            turn_id: turn,
            events,
            chat_tool_calls: Vec::new(),
            completed: false,
        };
        assert(r.view().events =~= initial_state(thread_id@, turn_id@).events);
        assert(r.view().calls =~= Seq::<(u64, AccView)>::empty());
        r
    }

    fn complete_response(&mut self)
        ensures
            final(self).view() == complete_state(old(self).view()),
    {
        if self.completed {
            return;
        }
        flush_chat_tool_calls(&self.thread_id, &self.turn_id, &mut self.events, &self.chat_tool_calls);
        let ghost before = events_view(self.events@);
        let e = StreamEvent::ResponseCompleted {
            thread_id: self.thread_id.copy(),
            turn_id: self.turn_id.copy(),
            status: ResponseStatus::Completed,
        };
        self.events.push(e);
        assert(events_view(self.events@) =~= before.push(event_view(e)));
        self.completed = true;
    }

    /// Applies one decoded server-sent event; gives the events it added.
    pub fn push_sse_chunk(&mut self, chunk: ProviderStreamChunk) -> (r: Result<
        Vec<StreamEvent>,
        AgentError,
    >)
        ensures
            match sse_step(old(self).view(), chunk_view(chunk)) {
                Ok(s) => r is Ok && final(self).view() == s && s.events.len() >= old(
                    self,
                ).view().events.len() && events_view(r->Ok_0@) == s.events.skip(
                    old(self).view().events.len() as int,
                ),
                Err(m) => final(self).view() == old(self).view() && error_message(r) == Some(m),
            },
    {
        let before = self.events.len();
        match chunk {
            ProviderStreamChunk::Data { value } => {
                match parse_json_text(value.as_str()) {
                    Err(error) => {
                        return Err(
                            AgentError::Execution {
                                message: concat(
                                    "failed to parse provider stream event JSON: ",
                                    error.as_str(),
                                ),
                            },
                        );
                    },
                    Ok(v) => {
                        let ghost st = (events_view(self.events@), calls_view(self.chat_tool_calls@));
                        proof {
                            lemma_stream_value_grows(self.thread_id.0@, self.turn_id.0@, v, st);
                        }
                        parse_stream_value(
                            &self.thread_id,
                            &self.turn_id,
                            &v,
                            &mut self.events,
                            &mut self.chat_tool_calls,
                        );
                        assert(events_view(self.events@).len() == self.events@.len());
                        if completion_since(&self.events, before) {
                            self.completed = true;
                        }
                    },
                }
            },
            ProviderStreamChunk::Done => {
                proof {
                    lemma_flush_grows(
                        self.thread_id.0@,
                        self.turn_id.0@,
                        events_view(self.events@),
                        calls_view(self.chat_tool_calls@),
                    );
                }
                self.complete_response();
                assert(events_view(self.events@).len() == self.events@.len());
            },
            ProviderStreamChunk::Comment { .. } => {},
        }
        assert(events_view(self.events@).len() == self.events@.len());
        Ok(crate::protocol::copy_events_from(&self.events, before))
    }

    /// Feeds raw stream text through `decoder` and applies every event it
    /// completes; gives the events added, or the first error.
    pub fn push_raw_chunk(&mut self, decoder: &mut ProviderSseDecoder, chunk: &str) -> (r: Result<
        Vec<StreamEvent>,
        AgentError,
    >)
        requires
            old(decoder).wf(),
            old(decoder).pending().len() + chunk@.len() <= usize::MAX,
        ensures
            final(decoder).wf(),
            final(decoder).pending() == line_split(old(decoder).pending() + chunk@).1,
            ({
                let folded = sse_fold(
                    old(self).view(),
                    decode_lines(line_split(old(decoder).pending() + chunk@).0),
                );
                &&& final(self).view() == folded.0
                &&& folded.0.events.len() >= old(self).view().events.len()
                &&& match folded.1 {
                    None => r is Ok && events_view(r->Ok_0@) == folded.0.events.skip(
                        old(self).view().events.len() as int,
                    ),
                    Some(m) => error_message(r) == Some(m),
                }
            }),
    {
        let ghost start = self.view();
        let before = self.events.len();
        let decoded = match decoder.push_chunk(chunk) {
            Ok(d) => d,
            Err(e) => {
                return Err(e);
            },
        };
        let ghost chunks = chunk_views(decoded@);
        let mut i: usize = 0;
        assert(chunks.take(0) =~= Seq::<ChunkView>::empty());
        while i < decoded.len()
            invariant
                i <= decoded@.len(),
                chunks == chunk_views(decoded@),
                decoder.wf(),
                decoder.pending() == line_split(old(decoder).pending() + chunk@).1,
                chunks == decode_lines(line_split(old(decoder).pending() + chunk@).0),
                start == old(self).view(),
                start.events.len() == before,
                sse_fold(start, chunks.take(i as int)) == (self.view(), None::<Seq<char>>),
                self.view().events.len() >= before,
            decreases decoded@.len() - i,
        {
            proof {
                assert(chunks.take(i + 1).drop_last() =~= chunks.take(i as int));
                assert(chunks.take(i + 1).last() == chunk_view(decoded@[i as int]));
            }
            let c = copy_chunk(&decoded[i]);
            match self.push_sse_chunk(c) {
                Ok(_) => {},
                Err(e) => {
                    proof {
                        lemma_fold_stops(start, chunks, (i + 1) as int);
                    }
                    return Err(e);
                },
            }
            i = i + 1;
        }
        proof {
            assert(chunks.take(i as int) =~= chunks);
        }
        Ok(crate::protocol::copy_events_from(&self.events, before))
    }

    /// Finishes the stream: the decoder's last line is applied and the response
    /// completed once; gives every event of the turn, or the first error.
    pub fn finish(self, decoder: &mut ProviderSseDecoder) -> (r: Result<Vec<StreamEvent>, AgentError>)
        ensures
            final(decoder).pending() == Seq::<char>::empty(),
            ({
                let folded = sse_fold(self.view(), finish_chunks(old(decoder).pending()));
                match folded.1 {
                    None => r is Ok && events_view(r->Ok_0@) == complete_state(folded.0).events,
                    Some(m) => error_message(r) == Some(m),
                }
            }),
    {
        let mut acc = self;
        let ghost start = acc.view();
        let decoded = match decoder.finish() {
            Ok(d) => d,
            Err(e) => {
                return Err(e);
            },
        };
        let ghost chunks = chunk_views(decoded@);
        assert(chunks =~= finish_chunks(old(decoder).pending()));
        let mut i: usize = 0;
        assert(chunks.take(0) =~= Seq::<ChunkView>::empty());
        while i < decoded.len()
            invariant
                i <= decoded@.len(),
                chunks == chunk_views(decoded@),
                chunks == finish_chunks(old(decoder).pending()),
                decoder.pending() == Seq::<char>::empty(),
                start == self.view(),
                sse_fold(start, chunks.take(i as int)) == (acc.view(), None::<Seq<char>>),
            decreases decoded@.len() - i,
        {
            proof {
                assert(chunks.take(i + 1).drop_last() =~= chunks.take(i as int));
                assert(chunks.take(i + 1).last() == chunk_view(decoded@[i as int]));
            }
            let c = copy_chunk(&decoded[i]);
            match acc.push_sse_chunk(c) {
                Ok(_) => {},
                Err(e) => {
                    proof {
                        lemma_fold_stops(start, chunks, (i + 1) as int);
                    }
                    return Err(e);
                },
            }
            i = i + 1;
        }
        proof {
            assert(chunks.take(i as int) =~= chunks);
        }
        acc.complete_response();
        Ok(acc.events)
    }
}

/// Once a fold stops on an error, later events change nothing.
proof fn lemma_fold_stops(st: AccumulatorView, chunks: Seq<ChunkView>, k: int)
    requires
        0 < k <= chunks.len(),
        sse_fold(st, chunks.take(k)).1 is Some,
    ensures
        sse_fold(st, chunks) == sse_fold(st, chunks.take(k)),
    decreases chunks.len() - k,
{
    if k < chunks.len() {
        assert(chunks.take(k + 1).drop_last() =~= chunks.take(k));
        lemma_fold_stops(st, chunks, k + 1);
    } else {
        assert(chunks.take(k) =~= chunks);
    }
}

fn copy_chunk(c: &ProviderStreamChunk) -> (r: ProviderStreamChunk)
    ensures
        chunk_view(r) == chunk_view(*c),
{
    match c {
        ProviderStreamChunk::Data { value } => ProviderStreamChunk::Data { value: value.clone() },
        ProviderStreamChunk::Done => ProviderStreamChunk::Done,
        ProviderStreamChunk::Comment { value } => ProviderStreamChunk::Comment {
            value: value.clone(),
        },
    }
}

/// Whether some event from index `from` on completes the response.
fn completion_since(events: &Vec<StreamEvent>, from: usize) -> (r: bool)
    requires
        from <= events@.len(),
    ensures
        r == any_completed(events_view(events@).skip(from as int)),
{
    let ghost tail = events_view(events@).skip(from as int);
    let mut i = from;
    while i < events.len()
        invariant
            from <= i <= events@.len(),
            tail == events_view(events@).skip(from as int),
            forall|j: int| 0 <= j < i - from ==> !(#[trigger] tail[j] is ResponseCompleted),
        decreases events@.len() - i,
    {
        assert(tail[i - from] == event_view(events@[i as int]));
        match &events[i] {
            StreamEvent::ResponseCompleted { .. } => {
                return true;
            },
            _ => {},
        }
        i = i + 1;
    }
    false
}

/// The events of a whole stream read from a fresh accumulator and decoder.
pub open spec fn openai_stream_events(thread: Seq<char>, turn: Seq<char>, stream: Seq<char>) -> Result<
    Seq<StreamEventView>,
    Seq<char>,
> {
    incremental_result(initial_state(thread, turn), Seq::empty(), stream)
}

/// Feeds the whole stream through the accumulator and decoder, then finishes;
/// see `incremental_result`.
pub fn parse_openai_stream_events_incremental(
    accumulator: OpenAiStreamAccumulator,
    decoder: &mut ProviderSseDecoder,
    stream: &str,
) -> (r: Result<Vec<StreamEvent>, AgentError>)
    requires
        old(decoder).wf(),
        old(decoder).pending().len() + stream@.len() <= usize::MAX,
    ensures
        match incremental_result(accumulator.view(), old(decoder).pending(), stream@) {
            Ok(events) => r is Ok && events_view(r->Ok_0@) == events,
            Err(m) => error_message(r) == Some(m),
        },
{
    let mut acc = accumulator;
    match acc.push_raw_chunk(decoder, stream) {
        Ok(_) => {},
        Err(e) => {
            return Err(e);
        },
    }
    acc.finish(decoder)
}

/// The protocol events of a whole OpenAI-compatible server-sent-event stream;
/// see `openai_stream_events`.
pub fn parse_openai_stream_events(thread_id: &str, turn_id: &str, stream: &str) -> (r: Result<
    Vec<StreamEvent>,
    AgentError,
>)
    requires
        stream@.len() <= usize::MAX,
    ensures
        match openai_stream_events(thread_id@, turn_id@, stream@) {
            Ok(events) => r is Ok && events_view(r->Ok_0@) == events,
            Err(m) => error_message(r) == Some(m),
        },
{
    let mut decoder = ProviderSseDecoder::new();
    let accumulator = OpenAiStreamAccumulator::new(thread_id, turn_id);
    parse_openai_stream_events_incremental(accumulator, &mut decoder, stream)
}

// ---------------------------------------------------------------------------
// Complete responses
// ---------------------------------------------------------------------------

/// A provider tool call by value.
pub enum ToolCallView {
    Shell { id: Option<Seq<char>>, command: Seq<char> },
    Patch { id: Option<Seq<char>>, patch: Seq<char> },
    Mcp {
        id: Option<Seq<char>>,
        server: Seq<char>,
        tool: Seq<char>,
        arguments_json: Option<Seq<char>>,
    },
    Skill { id: Option<Seq<char>>, name: Seq<char>, arguments_json: Option<Seq<char>> },
    MultiAgent { id: Option<Seq<char>>, action: Seq<char>, arguments_json: Option<Seq<char>> },
    ToolSearch { id: Option<Seq<char>>, query: Seq<char> },
    RequestUserInput { id: Option<Seq<char>>, prompt: Seq<char> },
    ViewImage { id: Option<Seq<char>>, path: Seq<char> },
}

pub open spec fn tool_call_view(c: ProviderToolCall) -> ToolCallView {
    match c {
        ProviderToolCall::Shell { id, command } => ToolCallView::Shell {
            id: crate::text::opt_view(id),
            command: command@,
        },
        ProviderToolCall::Patch { id, patch } => ToolCallView::Patch {
            id: crate::text::opt_view(id),
            patch: patch@,
        },
        ProviderToolCall::Mcp { id, server, tool, arguments_json } => ToolCallView::Mcp {
            id: crate::text::opt_view(id),
            server: server@,
            tool: tool@,
            arguments_json: crate::text::opt_view(arguments_json),
        },
        ProviderToolCall::Skill { id, name, arguments_json } => ToolCallView::Skill {
            id: crate::text::opt_view(id),
            name: name@,
            arguments_json: crate::text::opt_view(arguments_json),
        },
        ProviderToolCall::MultiAgent { id, action, arguments_json } => ToolCallView::MultiAgent {
            id: crate::text::opt_view(id),
            action: action@,
            arguments_json: crate::text::opt_view(arguments_json),
        },
        ProviderToolCall::ToolSearch { id, query } => ToolCallView::ToolSearch {
            id: crate::text::opt_view(id),
            query: query@,
        },
        ProviderToolCall::RequestUserInput { id, prompt } => ToolCallView::RequestUserInput {
            id: crate::text::opt_view(id),
            prompt: prompt@,
        },
        ProviderToolCall::ViewImage { id, path } => ToolCallView::ViewImage {
            id: crate::text::opt_view(id),
            path: path@,
        },
    }
}

/// `s` without every leading copy of `p`.
pub open spec fn strip_all_prefixes(s: Seq<char>, p: Seq<char>) -> Seq<char>
    decreases s.len(),
{
    if p.len() > 0 && seq_starts_with(s, p) {
        strip_all_prefixes(s.skip(p.len() as int), p)
    } else {
        s
    }
}

/// `s` with every underscore turned into a space.
pub open spec fn underscores_to_spaces(s: Seq<char>) -> Seq<char> {
    s.map_values(|c: char| if c == '_' { ' ' } else { c })
}

/// A string argument, or the error that names it.
pub open spec fn required_text(args: JsonValue, key: Seq<char>) -> Result<Seq<char>, Seq<char>> {
    match field_text(args, key) {
        Some(t) => Ok(t),
        None => Err("provider tool argument "@ + key + " is missing or not a string"@),
    }
}

/// An argument as text: a string as it is, any other value as compact JSON.
pub open spec fn optional_argument(args: JsonValue, key: Seq<char>) -> Option<Seq<char>> {
    match json_get(args, key) {
        Some(JsonValue::Str(s)) => Some(s@),
        Some(v) => Some(json_text(v)),
        None => None,
    }
}

/// The tool call a function call by name and JSON arguments stands for, or
/// why it stands for none.
pub open spec fn openai_tool_call(id: Option<Seq<char>>, name: Seq<char>, arguments: Seq<char>) -> Result<
    ToolCallView,
    Seq<char>,
> {
    match json_parse(arguments) {
        Err(e) => Err("failed to parse provider tool arguments for "@ + name + ": "@ + e),
        Ok(args) => if name == "shell"@ {
            match required_text(args, "command"@) {
                Ok(command) => Ok(ToolCallView::Shell { id, command }),
                Err(e) => Err(e),
            }
        } else if name == "patch"@ {
            Ok(ToolCallView::Patch { id, patch: arguments })
        } else if name == "mcp"@ {
            match required_text(args, "server"@) {
                Err(e) => Err(e),
                Ok(server) => match required_text(args, "tool"@) {
                    Err(e) => Err(e),
                    Ok(tool) => Ok(
                        ToolCallView::Mcp {
                            id,
                            server,
                            tool,
                            arguments_json: optional_argument(args, "arguments_json"@),
                        },
                    ),
                },
            }
        } else if name == "skill"@ {
            match required_text(args, "name"@) {
                Ok(n) => Ok(
                    ToolCallView::Skill {
                        id,
                        name: n,
                        arguments_json: optional_argument(args, "arguments_json"@),
                    },
                ),
                Err(e) => Err(e),
            }
        } else if name == "multi_agent"@ {
            match required_text(args, "action"@) {
                Ok(action) => Ok(
                    ToolCallView::MultiAgent {
                        id,
                        action,
                        arguments_json: optional_argument(args, "arguments_json"@),
                    },
                ),
                Err(e) => Err(e),
            }
        } else if name == "tool_search"@ {
            match required_text(args, "query"@) {
                Ok(query) => Ok(ToolCallView::ToolSearch { id, query }),
                Err(e) => Err(e),
            }
        } else if name == "request_user_input"@ {
            match required_text(args, "prompt"@) {
                Ok(prompt) => Ok(ToolCallView::RequestUserInput { id, prompt }),
                Err(e) => Err(e),
            }
        } else if name == "view_image"@ {
            match required_text(args, "path"@) {
                Ok(path) => Ok(ToolCallView::ViewImage { id, path }),
                Err(e) => Err(e),
            }
        } else if seq_starts_with(name, "skill__"@) {
            Ok(
                ToolCallView::Skill {
                    id,
                    name: match optional_argument(args, "name"@) {
                        Some(n) => n,
                        None => strip_all_prefixes(name, "skill__"@),
                    },
                    arguments_json: optional_argument(args, "arguments_json"@),
                },
            )
        } else if seq_starts_with(name, "plugin__"@) {
            Ok(
                ToolCallView::ToolSearch {
                    id,
                    query: match optional_argument(args, "query"@) {
                        Some(q) => q,
                        None => underscores_to_spaces(strip_all_prefixes(name, "plugin__"@)),
                    },
                },
            )
        } else if seq_starts_with(name, "mcp__"@) {
            let server = match optional_argument(args, "server"@) {
                Some(sv) => sv,
                None => strip_all_prefixes(name, "mcp__"@),
            };
            match required_text(args, "tool"@) {
                Ok(tool) => Ok(
                    ToolCallView::Mcp {
                        id,
                        server,
                        tool,
                        arguments_json: optional_argument(args, "arguments_json"@),
                    },
                ),
                Err(e) => Err(e),
            }
        } else {
            Err("unsupported provider tool call: "@ + name)
        },
    }
}

/// What one entry of a message's `tool_calls` gives: nothing unless it is a
/// function, else its tool call or the error.
pub open spec fn response_tool_call(call: JsonValue) -> Option<Result<ToolCallView, Seq<char>>> {
    if field_text(call, "type"@) != Some("function"@) {
        None
    } else {
        match json_get(call, "function"@) {
            None => Some(Err("provider tool call is missing function object"@)),
            Some(function) => match field_text(function, "name"@) {
                None => Some(Err("provider tool call function is missing name"@)),
                Some(name) => Some(
                    openai_tool_call(
                        field_text(call, "id"@),
                        name,
                        text_or(field_text(function, "arguments"@), "{}"@),
                    ),
                ),
            },
        }
    }
}

/// The tool calls of a message's `tool_calls`, in order, or the first error.
pub open spec fn response_tool_calls(calls: Seq<JsonValue>) -> Result<Seq<ToolCallView>, Seq<char>>
    decreases calls.len(),
{
    if calls.len() == 0 {
        Ok(Seq::empty())
    } else {
        match response_tool_calls(calls.drop_last()) {
            Err(e) => Err(e),
            Ok(done) => match response_tool_call(calls.last()) {
                None => Ok(done),
                Some(Err(e)) => Err(e),
                Some(Ok(c)) => Ok(done.push(c)),
            },
        }
    }
}

/// The token usage a response reports, missing counts as zero.
pub open spec fn response_usage(v: JsonValue) -> Option<TokenUsage> {
    match json_get(v, "usage"@) {
        None => None,
        Some(u) => {
            let count = |x: Option<i64>|
                match x {
                    Some(n) => n,
                    None => 0i64,
                };
            Some(
                TokenUsage {
                    input_tokens: count(crate::json::as_signed(json_get(u, "prompt_tokens"@))),
                    cached_input_tokens: count(
                        crate::json::as_signed(
                            opt_get(json_get(u, "prompt_tokens_details"@), "cached_tokens"@),
                        ),
                    ),
                    output_tokens: count(crate::json::as_signed(json_get(u, "completion_tokens"@))),
                    reasoning_output_tokens: count(
                        crate::json::as_signed(
                            opt_get(json_get(u, "completion_tokens_details"@), "reasoning_tokens"@),
                        ),
                    ),
                },
            )
        },
    }
}

/// The step `/0` of a JSON pointer: member `0` of an object, element 0 of an
/// array.
pub open spec fn pointer_zero(v: Option<JsonValue>) -> Option<JsonValue> {
    match v {
        Some(JsonValue::Object(entries)) => crate::json::member(entries@, "0"@),
        Some(JsonValue::Array(items)) => if items@.len() > 0 {
            Some(items@[0])
        } else {
            None
        },
        _ => None,
    }
}

/// A provider response by value.
pub struct ResponseView {
    pub message: Option<(ProviderRole, Seq<char>)>,
    pub tool_calls: Seq<ToolCallView>,
    pub usage: Option<TokenUsage>,
}

pub open spec fn response_view(r: ProviderResponse) -> ResponseView {
    ResponseView {
        message: match r.message {
            Some(m) => Some((m.role, m.content@)),
            None => None,
        },
        tool_calls: r.tool_calls@.map_values(|c: ProviderToolCall| tool_call_view(c)),
        usage: r.usage,
    }
}

/// The provider response a chat-completion JSON text holds, or why it holds
/// none: the first choice's message, its text when not empty, its function
/// tool calls, and the usage.
pub open spec fn openai_response(text: Seq<char>) -> Result<ResponseView, Seq<char>> {
    match json_parse(text) {
        Err(e) => Err("failed to parse provider response JSON: "@ + e),
        Ok(v) => match opt_get(pointer_zero(json_get(v, "choices"@)), "message"@) {
            None => Err("provider response did not contain choices[0].message"@),
            Some(m) => {
                let calls = match as_items(json_get(m, "tool_calls"@)) {
                    Some(items) => response_tool_calls(items),
                    None => Ok(Seq::empty()),
                };
                match calls {
                    Err(e) => Err(e),
                    Ok(tool_calls) => Ok(
                        ResponseView {
                            message: match field_text(m, "content"@) {
                                Some(c) => if c.len() > 0 {
                                    Some((ProviderRole::Assistant, c))
                                } else {
                                    None
                                },
                                None => None,
                            },
                            tool_calls,
                            usage: response_usage(v),
                        },
                    ),
                }
            },
        },
    }
}

/// `s` without every leading copy of `p`.
fn strip_all_prefixes_of<'a>(s: &'a str, p: &str) -> (r: &'a str)
    requires
        p@.len() > 0,
    ensures
        r@ == strip_all_prefixes(s@, p@),
{
    let mut cur = s;
    while crate::text::strip_prefix(cur, p).is_some()
        invariant
            p@.len() > 0,
            strip_all_prefixes(s@, p@) == strip_all_prefixes(cur@, p@),
        decreases cur@.len(),
    {
        cur = match crate::text::strip_prefix(cur, p) {
            Some(rest) => rest,
            None => cur,
        };
    }
    cur
}

fn underscores_to_spaces_of(s: &str) -> (r: String)
    ensures
        r@ == underscores_to_spaces(s@),
{
    let chars = crate::text::chars_of(s);
    let mut out: Vec<char> = Vec::new();
    let mut i: usize = 0;
    while i < chars.len()
        invariant
            i <= chars@.len(),
            chars@ == s@,
            out@ == underscores_to_spaces(s@.take(i as int)),
        decreases chars@.len() - i,
    {
        let c = chars[i];
        out.push(if c == '_' { ' ' } else { c });
        assert(out@ =~= underscores_to_spaces(s@.take(i + 1)));
        i = i + 1;
    }
    assert(s@.take(i as int) =~= s@);
    crate::text::string_from_chars(out.as_slice())
}

fn required_string(args: &JsonValue, key: &str) -> (r: Result<String, AgentError>)
    ensures
        match required_text(*args, key@) {
            Ok(t) => r is Ok && r->Ok_0@ == t,
            Err(m) => r matches Err(AgentError::Execution { message }) && message@ == m,
        },
{
    match field_text_of(args, key) {
        Some(t) => Ok(owned(t)),
        None => {
            let mut m = concat("provider tool argument ", key);
            m.append(" is missing or not a string");
            Err(AgentError::Execution { message: m })
        },
    }
}

fn optional_json_argument(args: &JsonValue, key: &str) -> (r: Option<String>)
    ensures
        crate::text::opt_view(r) == optional_argument(*args, key@),
{
    match get(args, key) {
        Some(JsonValue::Str(s)) => Some(s.clone()),
        Some(v) => Some(to_json_text(v)),
        None => None,
    }
}

/// The tool call of a function call; see `openai_tool_call`.
pub fn parse_openai_tool_call(id: Option<String>, name: &str, arguments: &str) -> (r: Result<
    ProviderToolCall,
    AgentError,
>)
    ensures
        match openai_tool_call(crate::text::opt_view(id), name@, arguments@) {
            Ok(c) => r is Ok && tool_call_view(r->Ok_0) == c,
            Err(m) => r matches Err(AgentError::Execution { message }) && message@ == m,
        },
{
    let args = match parse_json_text(arguments) {
        Ok(v) => v,
        Err(error) => {
            let mut m = concat("failed to parse provider tool arguments for ", name);
            m.append(": ");
            m.append(error.as_str());
            return Err(AgentError::Execution { message: m });
        },
    };
    if str_eq(name, "shell") {
        let command = required_string(&args, "command")?;
        Ok(ProviderToolCall::Shell { id, command })
    } else if str_eq(name, "patch") {
        Ok(ProviderToolCall::Patch { id, patch: owned(arguments) })
    } else if str_eq(name, "mcp") {
        let server = required_string(&args, "server")?;
        let tool = required_string(&args, "tool")?;
        Ok(
            ProviderToolCall::Mcp {
                id,
                server,
                tool,
                arguments_json: optional_json_argument(&args, "arguments_json"),
            },
        )
    } else if str_eq(name, "skill") {
        let skill = required_string(&args, "name")?;
        Ok(
            ProviderToolCall::Skill {
                id,
                name: skill,
                arguments_json: optional_json_argument(&args, "arguments_json"),
            },
        )
    } else if str_eq(name, "multi_agent") {
        let action = required_string(&args, "action")?;
        Ok(
            ProviderToolCall::MultiAgent {
                id,
                action,
                arguments_json: optional_json_argument(&args, "arguments_json"),
            },
        )
    } else if str_eq(name, "tool_search") {
        let query = required_string(&args, "query")?;
        Ok(ProviderToolCall::ToolSearch { id, query })
    } else if str_eq(name, "request_user_input") {
        let prompt = required_string(&args, "prompt")?;
        Ok(ProviderToolCall::RequestUserInput { id, prompt })
    } else if str_eq(name, "view_image") {
        let path = required_string(&args, "path")?;
        Ok(ProviderToolCall::ViewImage { id, path })
    } else if starts_with(name, "skill__") {
        proof {
            reveal_strlit("skill__");
        }
        let skill = match optional_json_argument(&args, "name") {
            Some(n) => n,
            None => owned(strip_all_prefixes_of(name, "skill__")),
        };
        Ok(
            ProviderToolCall::Skill {
                id,
                name: skill,
                arguments_json: optional_json_argument(&args, "arguments_json"),
            },
        )
    } else if starts_with(name, "plugin__") {
        proof {
            reveal_strlit("plugin__");
        }
        let query = match optional_json_argument(&args, "query") {
            Some(q) => q,
            None => underscores_to_spaces_of(strip_all_prefixes_of(name, "plugin__")),
        };
        Ok(ProviderToolCall::ToolSearch { id, query })
    } else if starts_with(name, "mcp__") {
        proof {
            reveal_strlit("mcp__");
        }
        let server = match optional_json_argument(&args, "server") {
            Some(sv) => sv,
            None => owned(strip_all_prefixes_of(name, "mcp__")),
        };
        let tool = required_string(&args, "tool")?;
        Ok(
            ProviderToolCall::Mcp {
                id,
                server,
                tool,
                arguments_json: optional_json_argument(&args, "arguments_json"),
            },
        )
    } else {
        Err(AgentError::Execution { message: concat("unsupported provider tool call: ", name) })
    }
}

fn count_or_zero(x: Option<i64>) -> (r: i64)
    ensures
        r == match x {
            Some(n) => n,
            None => 0i64,
        },
{
    match x {
        Some(n) => n,
        None => 0,
    }
}

/// The token usage a response reports; see `response_usage`.
pub fn parse_openai_usage(value: &JsonValue) -> (r: Option<TokenUsage>)
    ensures
        r == response_usage(*value),
{
    let usage = match get(value, "usage") {
        Some(u) => u,
        None => {
            return None;
        },
    };
    Some(
        TokenUsage {
            input_tokens: count_or_zero(crate::json::signed_of(get(usage, "prompt_tokens"))),
            cached_input_tokens: count_or_zero(
                crate::json::signed_of(get_opt(get(usage, "prompt_tokens_details"), "cached_tokens")),
            ),
            output_tokens: count_or_zero(crate::json::signed_of(get(usage, "completion_tokens"))),
            reasoning_output_tokens: count_or_zero(
                crate::json::signed_of(
                    get_opt(get(usage, "completion_tokens_details"), "reasoning_tokens"),
                ),
            ),
        },
    )
}

fn pointer_zero_of<'a>(v: Option<&'a JsonValue>) -> (r: Option<&'a JsonValue>)
    ensures
        opt_ref(r) == pointer_zero(opt_ref(v)),
{
    match v {
        Some(JsonValue::Object(_)) => get(v.unwrap(), "0"),
        Some(JsonValue::Array(items)) => {
            if items.len() > 0 {
                Some(&items[0])
            } else {
                None
            }
        },
        _ => None,
    }
}

/// The provider response a chat-completion JSON text holds; see
/// `openai_response`.
pub fn parse_openai_response_json(response: &str) -> (r: Result<ProviderResponse, AgentError>)
    ensures
        match openai_response(response@) {
            Ok(v) => r is Ok && response_view(r->Ok_0) == v,
            Err(m) => r matches Err(AgentError::Execution { message }) && message@ == m,
        },
{
    let value = match parse_json_text(response) {
        Ok(v) => v,
        Err(error) => {
            return Err(
                AgentError::Execution {
                    message: concat("failed to parse provider response JSON: ", error.as_str()),
                },
            );
        },
    };
    let message = match get_opt(pointer_zero_of(get(&value, "choices")), "message") {
        Some(m) => m,
        None => {
            return Err(
                AgentError::Execution {
                    message: owned("provider response did not contain choices[0].message"),
                },
            );
        },
    };
    let content = match field_text_of(message, "content") {
        Some(c) => if c.unicode_len() > 0 {
            Some(ProviderMessage::assistant(c))
        } else {
            None
        },
        None => None,
    };
    let mut tool_calls: Vec<ProviderToolCall> = Vec::new();
    match items_of(get(message, "tool_calls")) {
        Some(calls) => {
            let mut i: usize = 0;
            assert(calls@.take(0) =~= Seq::<JsonValue>::empty());
            assert(tool_calls@.map_values(|c: ProviderToolCall| tool_call_view(c)) =~= Seq::<
                ToolCallView,
            >::empty());
            while i < calls.len()
                invariant
                    i <= calls@.len(),
                    json_parse(response@) == Ok::<JsonValue, Seq<char>>(value),
                    opt_get(pointer_zero(json_get(value, "choices"@)), "message"@) == Some(*message),
                    as_items(json_get(*message, "tool_calls"@)) == Some(calls@),
                    response_tool_calls(calls@.take(i as int)) == Ok::<Seq<ToolCallView>, Seq<char>>(
                        tool_calls@.map_values(|c: ProviderToolCall| tool_call_view(c)),
                    ),
                decreases calls@.len() - i,
            {
                proof {
                    assert(calls@.take(i + 1).drop_last() =~= calls@.take(i as int));
                    assert(calls@.take(i + 1).last() == calls@[i as int]);
                }
                let call = &calls[i];
                let is_function = match field_text_of(call, "type") {
                    Some(t) => str_eq(t, "function"),
                    None => false,
                };
                if is_function {
                    let function = match get(call, "function") {
                        Some(f) => f,
                        None => {
                            proof {
                                lemma_calls_stop(calls@, (i + 1) as int);
                            }
                            return Err(
                                AgentError::Execution {
                                    message: owned("provider tool call is missing function object"),
                                },
                            );
                        },
                    };
                    let name = match field_text_of(function, "name") {
                        Some(n) => n,
                        None => {
                            proof {
                                lemma_calls_stop(calls@, (i + 1) as int);
                            }
                            return Err(
                                AgentError::Execution {
                                    message: owned("provider tool call function is missing name"),
                                },
                            );
                        },
                    };
                    let arguments = match field_text_of(function, "arguments") {
                        Some(a) => a,
                        None => "{}",
                    };
                    let id = match field_text_of(call, "id") {
                        Some(x) => Some(owned(x)),
                        None => None,
                    };
                    match parse_openai_tool_call(id, name, arguments) {
                        Ok(c) => {
                            let ghost before = tool_calls@.map_values(
                                |c: ProviderToolCall| tool_call_view(c),
                            );
                            tool_calls.push(c);
                            assert(tool_calls@.map_values(|c: ProviderToolCall| tool_call_view(c))
                                =~= before.push(tool_call_view(c)));
                        },
                        Err(e) => {
                            proof {
                                lemma_calls_stop(calls@, (i + 1) as int);
                            }
                            return Err(e);
                        },
                    }
                }
                i = i + 1;
            }
            assert(calls@.take(i as int) =~= calls@);
        },
        None => {
            assert(tool_calls@.map_values(|c: ProviderToolCall| tool_call_view(c)) =~= Seq::<
                ToolCallView,
            >::empty());
        },
    }
    let r = ProviderResponse { message: content, tool_calls, usage: parse_openai_usage(&value) };
    assert(response_view(r).tool_calls =~= r.tool_calls@.map_values(
        |c: ProviderToolCall| tool_call_view(c),
    ));
    Ok(r)
}

/// Once the tool calls stop on an error, later entries change nothing.
proof fn lemma_calls_stop(calls: Seq<JsonValue>, k: int)
    requires
        0 < k <= calls.len(),
        response_tool_calls(calls.take(k)) is Err,
    ensures
        response_tool_calls(calls) == response_tool_calls(calls.take(k)),
    decreases calls.len() - k,
{
    if k < calls.len() {
        assert(calls.take(k + 1).drop_last() =~= calls.take(k));
        lemma_calls_stop(calls, k + 1);
    } else {
        assert(calls.take(k) =~= calls);
    }
}

impl OpenAiCompatibleProvider {
    /// The provider response a chat-completion JSON text holds; see
    /// `openai_response`.
    pub fn parse_response_json(&self, response: &str) -> (r: Result<ProviderResponse, AgentError>)
        ensures
            match openai_response(response@) {
                Ok(v) => r is Ok && response_view(r->Ok_0) == v,
                Err(m) => r matches Err(AgentError::Execution { message }) && message@ == m,
            },
    {
        parse_openai_response_json(response)
    }

    /// The protocol events of a server-sent-event stream; see
    /// `openai_stream_events`.
    pub fn parse_stream_events(&self, thread_id: &str, turn_id: &str, stream: &str) -> (r: Result<
        Vec<StreamEvent>,
        AgentError,
    >)
        requires
            stream@.len() <= usize::MAX,
        ensures
            match openai_stream_events(thread_id@, turn_id@, stream@) {
                Ok(events) => r is Ok && events_view(r->Ok_0@) == events,
                Err(m) => error_message(r) == Some(m),
            },
    {
        parse_openai_stream_events(thread_id, turn_id, stream)
    }
}

/// An `mcp` function call names its server and tool by the `server` and
/// `tool` string arguments, in that order: when both are strings, the call is
/// an MCP call with that id, whose server is the `server` argument and whose
/// tool is the `tool` argument; when either is missing or not a string there
/// is no call.
pub proof fn law_mcp_call_names_server_and_tool(
    id: Option<Seq<char>>,
    arguments: Seq<char>,
    args: JsonValue,
)
    requires
        json_parse(arguments) == Ok::<JsonValue, Seq<char>>(args),
    ensures
        (field_text(args, "server"@) is Some && field_text(args, "tool"@) is Some) ==> (
        openai_tool_call(id, "mcp"@, arguments) matches Ok(ToolCallView::Mcp { id: i, server, tool, .. })
            && i == id && server == field_text(args, "server"@)->0 && tool == field_text(
            args,
            "tool"@,
        )->0),
        (field_text(args, "server"@) is None || field_text(args, "tool"@) is None)
            ==> openai_tool_call(id, "mcp"@, arguments) is Err,
{
    reveal_strlit("mcp");
    reveal_strlit("shell");
    reveal_strlit("patch");
    assert("mcp"@.len() == 3 && "shell"@.len() == 5 && "patch"@.len() == 5);
    assert("mcp"@ != "shell"@);
    assert("mcp"@ != "patch"@);
}

} // verus!
