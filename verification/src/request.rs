//! Building provider requests: the chat-completions body as a JSON value, the
//! HTTP request that carries it, the configuration and credentials that come
//! from the process environment, and the turns of the OpenAI-compatible
//! providers.
use vstd::prelude::*;
use crate::agent::{AgentConfig, AgentError};
use crate::openai::{error_message, openai_response, openai_stream_events, response_view, ResponseView};
use crate::protocol::{events_view, StreamEvent, ThreadId, TurnId};
use crate::json::{json_text, to_json_text, JsonValue};
use crate::keyed::{keyed_insert, lemma_keyed_insert_prefix, find_key_slot};
use crate::multi_agent::{lemma_lex_total, lex_lt};
use crate::provider::{
    classify_provider_status, replay_events_match, status_kind, OpenAiCompatibleProvider,
    OpenAiTransportProvider, ProviderAuth, ProviderCapabilities, ProviderConfig,
    ProviderErrorKind, ProviderMessage, ProviderRequest, ProviderResponse, ProviderRole,
    ProviderStream, ProviderTransport, ProviderTransportRequest, ProviderTransportResponse,
};
use crate::text::{
    chars_of, concat, decimal, is_whitespace, lemma_trim_start_skip, owned, seq_starts_with,
    starts_with, str_eq, trim_start, u64_to_decimal,
};

verus! {

// ---------------------------------------------------------------------------
// The request body
// ---------------------------------------------------------------------------

/// The wire name of a message role.
pub open spec fn role_name(role: ProviderRole) -> Seq<char> {
    match role {
        ProviderRole::System => "system"@,
        ProviderRole::User => "user"@,
        ProviderRole::Assistant => "assistant"@,
        ProviderRole::Tool => "tool"@,
    }
}

pub fn role_name_str(role: ProviderRole) -> (r: &'static str)
    ensures
        r@ == role_name(role),
{
    match role {
        ProviderRole::System => "system",
        ProviderRole::User => "user",
        ProviderRole::Assistant => "assistant",
        ProviderRole::Tool => "tool",
    }
}

/// `v` is the JSON string `s`.
pub open spec fn is_json_str(v: JsonValue, s: Seq<char>) -> bool {
    v matches JsonValue::Str(t) && t@ == s
}

/// `v` is the message as `{"content": .., "role": ..}`.
pub open spec fn message_json(v: JsonValue, m: ProviderMessage) -> bool {
    &&& v matches JsonValue::Object(e)
    &&& e@.len() == 2
    &&& e@[0].0@ == "content"@
    &&& is_json_str(e@[0].1, m.content@)
    &&& e@[1].0@ == "role"@
    &&& is_json_str(e@[1].1, role_name(m.role))
}

/// `v` is `{"include_usage": true}`.
pub open spec fn include_usage_json(v: JsonValue) -> bool {
    &&& v matches JsonValue::Object(e)
    &&& e@.len() == 1
    &&& e@[0].0@ == "include_usage"@
    &&& e@[0].1 == JsonValue::Bool(true)
}

/// The members a request body can hold.
#[derive(Clone, Copy, Debug, PartialEq, Eq, Structural)]
pub enum BodyMember {
    Messages,
    Model,
    ParallelToolCalls,
    Stream,
    StreamOptions,
    Tools,
}

pub open spec fn member_name(m: BodyMember) -> Seq<char> {
    match m {
        BodyMember::Messages => "messages"@,
        BodyMember::Model => "model"@,
        BodyMember::ParallelToolCalls => "parallel_tool_calls"@,
        BodyMember::Stream => "stream"@,
        BodyMember::StreamOptions => "stream_options"@,
        BodyMember::Tools => "tools"@,
    }
}

/// The members of a body in the order of their names: the messages and the
/// model always; parallel tool calls when the provider allows them; for a
/// streamed request the stream flag, and the usage option when the provider
/// reports usage in streams; the tools when the provider takes tools.
pub open spec fn body_members(caps: ProviderCapabilities, stream: bool) -> Seq<BodyMember> {
    seq![BodyMember::Messages, BodyMember::Model] + (if caps.parallel_tool_calls {
        seq![BodyMember::ParallelToolCalls]
    } else {
        Seq::empty()
    }) + (if stream {
        seq![BodyMember::Stream]
    } else {
        Seq::empty()
    }) + (if stream && caps.stream_usage {
        seq![BodyMember::StreamOptions]
    } else {
        Seq::empty()
    }) + (if caps.tools {
        seq![BodyMember::Tools]
    } else {
        Seq::empty()
    })
}

/// The model a request asks for: its own, else the provider's.
pub open spec fn request_model(config: ProviderConfig, request: ProviderRequest) -> Seq<char> {
    match request.config.model {
        Some(m) => m@,
        None => config.model@,
    }
}

/// The value of one member of a body.
pub open spec fn member_json(
    m: BodyMember,
    v: JsonValue,
    model: Seq<char>,
    messages: Seq<ProviderMessage>,
    tools: Seq<JsonValue>,
) -> bool {
    match m {
        BodyMember::Messages => {
            &&& v matches JsonValue::Array(items)
            &&& items@.len() == messages.len()
            &&& forall|i: int| 0 <= i < messages.len() ==> message_json(#[trigger] items@[i], messages[i])
        },
        BodyMember::Model => is_json_str(v, model),
        BodyMember::ParallelToolCalls => v == JsonValue::Bool(true),
        BodyMember::Stream => v == JsonValue::Bool(true),
        BodyMember::StreamOptions => include_usage_json(v),
        BodyMember::Tools => v matches JsonValue::Array(items) && items@ == tools,
    }
}

/// `v` is the chat-completions body of `request` for a provider configured
/// by `config`, with `tools` as the tool descriptions and `stream` telling a
/// streamed request.
pub open spec fn request_body(
    v: JsonValue,
    config: ProviderConfig,
    request: ProviderRequest,
    tools: Seq<JsonValue>,
    stream: bool,
) -> bool {
    let members = body_members(config.capabilities, stream);
    &&& v matches JsonValue::Object(e)
    &&& e@.len() == members.len()
    &&& forall|i: int|
        0 <= i < members.len() ==> e@[i].0@ == member_name(#[trigger] members[i]) && member_json(
            members[i],
            e@[i].1,
            request_model(config, request),
            request.messages@,
            tools,
        )
}

fn message_value(m: &ProviderMessage) -> (r: JsonValue)
    ensures
        message_json(r, *m),
{
    let mut e: Vec<(String, JsonValue)> = Vec::new();
    e.push((owned("content"), JsonValue::Str(m.content.clone())));
    e.push((owned("role"), JsonValue::Str(owned(role_name_str(m.role)))));
    JsonValue::Object(e)
}

fn body_value(
    provider_config: &ProviderConfig,
    request: &ProviderRequest,
    tools: Vec<JsonValue>,
    stream: bool,
) -> (r: JsonValue)
    ensures
        request_body(r, *provider_config, *request, tools@, stream),
{
    let mut messages: Vec<JsonValue> = Vec::new();
    let mut i: usize = 0;
    while i < request.messages.len()
        invariant
            i <= request.messages@.len(),
            messages@.len() == i,
            forall|j: int| 0 <= j < i ==> message_json(#[trigger] messages@[j], request.messages@[j]),
        decreases request.messages@.len() - i,
    {
        messages.push(message_value(&request.messages[i]));
        i = i + 1;
    }
    let ghost model = request_model(*provider_config, *request);
    let ghost msgs = request.messages@;
    let ghost tl = tools@;
    let model_value = match &request.config.model {
        Some(m) => m.clone(),
        None => provider_config.model.clone(),
    };
    let mut entries: Vec<(String, JsonValue)> = Vec::new();
    entries.push((owned("messages"), JsonValue::Array(messages)));
    entries.push((owned("model"), JsonValue::Str(model_value)));
    let ghost mut members: Seq<BodyMember> = seq![BodyMember::Messages, BodyMember::Model];
    let caps = &provider_config.capabilities;
    if caps.parallel_tool_calls {
        entries.push((owned("parallel_tool_calls"), JsonValue::Bool(true)));
        proof {
            members = members.push(BodyMember::ParallelToolCalls);
        }
    }
    if stream {
        entries.push((owned("stream"), JsonValue::Bool(true)));
        proof {
            members = members.push(BodyMember::Stream);
        }
        if caps.stream_usage {
            let mut opts: Vec<(String, JsonValue)> = Vec::new();
            opts.push((owned("include_usage"), JsonValue::Bool(true)));
            entries.push((owned("stream_options"), JsonValue::Object(opts)));
            proof {
                members = members.push(BodyMember::StreamOptions);
            }
        }
    }
    if caps.tools {
        entries.push((owned("tools"), JsonValue::Array(tools)));
        proof {
            members = members.push(BodyMember::Tools);
        }
    }
    proof {
        assert(members =~= body_members(provider_config.capabilities, stream));
        assert forall|i: int| 0 <= i < members.len() implies entries@[i].0@ == member_name(
            #[trigger] members[i],
        ) && member_json(members[i], entries@[i].1, model, msgs, tl) by {}
    }
    JsonValue::Object(entries)
}

/// The chat-completions body of `request`: its messages, its model (else the
/// provider's), `tools` when the provider takes tools, and parallel tool calls
/// when the provider allows them. `tools` is the workspace's tool registry as
/// OpenAI tool descriptions.
pub fn build_openai_request_json(
    provider_config: &ProviderConfig,
    request: &ProviderRequest,
    tools: Vec<JsonValue>,
) -> (r: JsonValue)
    ensures
        request_body(r, *provider_config, *request, tools@, false),
{
    body_value(provider_config, request, tools, false)
}

/// The body of a streamed request: that of `build_openai_request_json` with
/// `"stream": true`, and `"stream_options": {"include_usage": true}` when the
/// provider reports usage in streams.
pub fn build_openai_stream_request_json(
    provider_config: &ProviderConfig,
    request: &ProviderRequest,
    tools: Vec<JsonValue>,
) -> (r: JsonValue)
    ensures
        request_body(r, *provider_config, *request, tools@, true),
{
    body_value(provider_config, request, tools, true)
}

// ---------------------------------------------------------------------------
// The HTTP request
// ---------------------------------------------------------------------------

/// The name and value of each header.
pub open spec fn header_views(h: Seq<(String, String)>) -> Seq<(Seq<char>, Seq<char>)> {
    Seq::new(h.len(), |i: int| (h[i].0@, h[i].1@))
}

/// Sets header `key` to `value` in a list kept in order of names.
pub(crate) fn set_header(headers: &mut Vec<(String, String)>, key: &str, value: String)
    ensures
        header_views(final(headers)@) == keyed_insert(header_views(old(headers)@), key@, value@),
{
    let ghost hv = header_views(headers@);
    let (i, found) = find_key_slot(headers, key);
    proof {
        assert forall|j: int| 0 <= j < i implies lex_lt(#[trigger] hv[j].0, key@) by {
            assert(hv[j].0 == headers@[j].0@);
        }
        lemma_keyed_insert_prefix(hv, key@, value@, i as int);
    }
    let ghost rest = hv.skip(i as int);
    let ghost vv = value@;
    if found {
        headers.set(i, (owned(key), value));
        proof {
            assert(rest[0] == hv[i as int]);
            assert(header_views(headers@) =~= hv.take(i as int) + (seq![(key@, vv)] + rest.skip(1)));
        }
    } else {
        headers.insert(i, (owned(key), value));
        proof {
            if (i as int) < hv.len() {
                assert(rest[0] == hv[i as int]);
                lemma_lex_total(hv[i as int].0, key@);
                assert(header_views(headers@) =~= hv.take(i as int) + (seq![(key@, vv)] + rest));
            } else {
                assert(rest =~= Seq::<(Seq<char>, Seq<char>)>::empty());
                assert(header_views(headers@) =~= hv.take(i as int) + seq![(key@, vv)]);
            }
        }
    }
}

impl ProviderTransportRequest {
    /// A POST of the JSON text `body` to `url`, with no headers, not streamed
    /// and with no timeout of its own.
    pub fn post_json(url: &str, body: String) -> (r: ProviderTransportRequest)
        ensures
            r.method@ == "POST"@,
            r.url@ == url@,
            r.headers@.len() == 0,
            r.body == body,
            !r.stream,
            r.timeout_millis is None,
    {
        ProviderTransportRequest {
            method: owned("POST"),
            url: owned(url),
            headers: Vec::new(),
            body,
            stream: false,
            timeout_millis: None,
        }
    }

    /// The request with the header `authorization: Bearer <token>` set.
    pub fn with_bearer_auth(self, token: &str) -> (r: ProviderTransportRequest)
        ensures
            header_views(r.headers@) == keyed_insert(
                header_views(self.headers@),
                "authorization"@,
                "Bearer "@ + token@,
            ),
            r.method == self.method && r.url == self.url && r.body == self.body && r.stream
                == self.stream && r.timeout_millis == self.timeout_millis,
    {
        let mut r = self;
        set_header(&mut r.headers, "authorization", concat("Bearer ", token));
        r
    }

    pub fn with_stream(self, stream: bool) -> (r: ProviderTransportRequest)
        ensures
            r == (ProviderTransportRequest { stream, ..self }),
    {
        ProviderTransportRequest { stream, ..self }
    }
}

/// `s` without the slashes at its end.
pub open spec fn trim_end_slashes(s: Seq<char>) -> Seq<char>
    decreases s.len(),
{
    if s.len() > 0 && s.last() == '/' {
        trim_end_slashes(s.drop_last())
    } else {
        s
    }
}

/// The chat-completions endpoint under a base URL.
pub open spec fn chat_completions_url(base_url: Seq<char>) -> Seq<char> {
    trim_end_slashes(base_url) + "/chat/completions"@
}

fn trim_end_slashes_str(s: &str) -> (r: &str)
    ensures
        r@ == trim_end_slashes(s@),
{
    let v = chars_of(s);
    let mut b: usize = v.len();
    proof {
        assert(v@.take(b as int) =~= v@);
    }
    while b > 0 && v[b - 1] == '/'
        invariant
            b <= v@.len(),
            v@ == s@,
            trim_end_slashes(s@) == trim_end_slashes(v@.take(b as int)),
        decreases b,
    {
        proof {
            assert(v@.take(b as int).drop_last() =~= v@.take(b - 1));
        }
        b = b - 1;
    }
    s.substring_char(0, b)
}

// ---------------------------------------------------------------------------
// Credentials
// ---------------------------------------------------------------------------

pub open spec fn auth_missing_message(name: Seq<char>, error: Seq<char>) -> Seq<char> {
    "provider auth environment variable "@ + name + " is missing: "@ + error
}

/// What an authentication resolves to: no token, a token, or the text of the
/// error when the environment variable it names could not be read.
/// `env_lookup` is the reading of that variable: its value or the text of the
/// error.
pub open spec fn auth_outcome(
    auth: ProviderAuth,
    env_lookup: Result<String, String>,
) -> Result<Option<Seq<char>>, Seq<char>> {
    match auth {
        ProviderAuth::NoAuth => Ok(None),
        ProviderAuth::ApiKey(v) => Ok(Some(v@)),
        ProviderAuth::EnvVar(name) => match env_lookup {
            Ok(v) => Ok(Some(v@)),
            Err(e) => Err(auth_missing_message(name@, e@)),
        },
    }
}

/// `r` carries the outcome `o` of resolving an authentication.
pub open spec fn resolved_as(r: Result<Option<String>, AgentError>, o: Result<Option<Seq<char>>, Seq<char>>) -> bool {
    match o {
        Ok(None) => r matches Ok(None),
        Ok(Some(t)) => r matches Ok(Some(s)) && s@ == t,
        Err(m) => r matches Err(AgentError::Execution { message }) && message@ == m,
    }
}

impl ProviderAuth {
    /// The environment variable whose value this authentication uses.
    pub fn env_var_name(&self) -> (r: Option<&str>)
        ensures
            match *self {
                ProviderAuth::EnvVar(name) => r matches Some(n) && n@ == name@,
                _ => r is None,
            },
    {
        match self {
            ProviderAuth::EnvVar(name) => Some(name.as_str()),
            _ => None,
        }
    }

    /// The token to send, if any. `env_lookup` is the reading of the variable
    /// that `env_var_name` names (ignored for the other kinds).
    pub fn resolve(&self, env_lookup: Result<String, String>) -> (r: Result<Option<String>, AgentError>)
        ensures
            resolved_as(r, auth_outcome(*self, env_lookup)),
    {
        match self {
            ProviderAuth::NoAuth => Ok(None),
            ProviderAuth::ApiKey(value) => Ok(Some(value.clone())),
            ProviderAuth::EnvVar(name) => match env_lookup {
                Ok(v) => Ok(Some(v)),
                Err(e) => {
                    let mut message = concat("provider auth environment variable ", name.as_str());
                    message.append(" is missing: ");
                    message.append(e.as_str());
                    Err(AgentError::Execution { message })
                },
            },
        }
    }
}

/// The headers of a provider request: the bearer token when there is one,
/// then the JSON content type.
pub open spec fn request_headers(token: Option<Seq<char>>) -> Seq<(Seq<char>, Seq<char>)> {
    match token {
        Some(t) => seq![("authorization"@, "Bearer "@ + t), ("content-type"@, "application/json"@)],
        None => seq![("content-type"@, "application/json"@)],
    }
}

/// The HTTP request for `request`: a POST of the (streamed or plain) body to
/// the chat-completions endpoint, with the provider's timeout, the bearer
/// token that the authentication resolves to and the JSON content type; or
/// the error of resolving the authentication.
pub fn build_openai_transport_request(
    provider_config: &ProviderConfig,
    auth: &ProviderAuth,
    request: &ProviderRequest,
    stream: bool,
    tools: Vec<JsonValue>,
    env_lookup: Result<String, String>,
) -> (r: Result<ProviderTransportRequest, AgentError>)
    ensures
        auth_outcome(*auth, env_lookup) is Err <==> r is Err,
        r is Err ==> resolved_as(
            Err(r->Err_0),
            auth_outcome(*auth, env_lookup),
        ),
        r is Ok ==> {
            let t = r->Ok_0;
            &&& t.method@ == "POST"@
            &&& t.url@ == chat_completions_url(provider_config.base_url@)
            &&& t.stream == stream
            &&& t.timeout_millis == provider_config.timeout_millis
            &&& exists|v: JsonValue|
                request_body(v, *provider_config, *request, tools@, stream) && t.body@ == json_text(v)
            &&& header_views(t.headers@) == request_headers(auth_outcome(*auth, env_lookup)->Ok_0)
        },
{
    let ghost tl = tools@;
    let body = if stream {
        build_openai_stream_request_json(provider_config, request, tools)
    } else {
        build_openai_request_json(provider_config, request, tools)
    };
    let text = to_json_text(&body);
    let mut url = owned(trim_end_slashes_str(provider_config.base_url.as_str()));
    url.append("/chat/completions");
    let mut transport_request = ProviderTransportRequest::post_json(url.as_str(), text).with_stream(stream);
    transport_request.timeout_millis = provider_config.timeout_millis;
    let token = match auth.resolve(env_lookup) {
        Ok(t) => t,
        Err(e) => {
            return Err(e);
        },
    };
    proof {
        reveal_strlit("authorization");
        reveal_strlit("content-type");
    }
    let ghost ct = ("content-type"@, "application/json"@);
    assert(header_views(transport_request.headers@) =~= Seq::<(Seq<char>, Seq<char>)>::empty());
    if let Some(tok) = token {
        transport_request = transport_request.with_bearer_auth(tok.as_str());
        proof {
            let h = header_views(transport_request.headers@);
            assert(h =~= seq![("authorization"@, "Bearer "@ + tok@)]);
            reveal_strlit("authorization");
            reveal_strlit("content-type");
            assert("authorization"@.len() == 13);
            assert("content-type"@.len() == 12);
            assert("authorization"@ != "content-type"@);
            lemma_lex_total("authorization"@, "content-type"@);
            assert(lex_lt("authorization"@, "content-type"@));
            assert(h.skip(1) =~= Seq::<(Seq<char>, Seq<char>)>::empty());
            assert(keyed_insert(h.skip(1), ct.0, ct.1) == seq![ct]);
            assert(!lex_lt(ct.0, h[0].0));
            assert(keyed_insert(h, ct.0, ct.1) == seq![h[0]] + keyed_insert(h.skip(1), ct.0, ct.1));
            assert(keyed_insert(h, ct.0, ct.1) =~= seq![h[0], ct]);
        }
    }
    set_header(&mut transport_request.headers, "content-type", owned("application/json"));
    proof {
        assert(request_body(body, *provider_config, *request, tl, stream));
        assert(transport_request.body@ == json_text(body));
        assert(transport_request.url@ == chat_completions_url(provider_config.base_url@));
        assert(header_views(transport_request.headers@) == request_headers(auth_outcome(*auth, env_lookup)->Ok_0));
    }
    Ok(transport_request)
}

// ---------------------------------------------------------------------------
// Configuration from the environment
// ---------------------------------------------------------------------------

/// The environment variables that provider configuration reads, each as
/// `std::env::var(..).ok()` gives it.
#[derive(Clone, Debug, PartialEq, Eq)]
pub struct ProviderEnvironment {
    /// `YUNXI_AGENT_MODEL`
    pub agent_model: Option<String>,
    /// `YUNXI_PROVIDER_BASE_URL`
    pub provider_base_url: Option<String>,
    /// `OPENAI_BASE_URL`
    pub openai_base_url: Option<String>,
    /// `YUNXI_PROVIDER_STREAM`
    pub provider_stream: Option<String>,
    /// `YUNXI_PROVIDER_API_KEY`
    pub provider_api_key: Option<String>,
    /// `YUNXI_PROVIDER_API_KEY_ENV`
    pub provider_api_key_env: Option<String>,
}

/// The model: the agent's, else `YUNXI_AGENT_MODEL`, else `gpt-4.1`.
pub open spec fn configured_model(config: AgentConfig, env: ProviderEnvironment) -> Seq<char> {
    match config.model {
        Some(m) => m@,
        None => match env.agent_model {
            Some(m) => m@,
            None => "gpt-4.1"@,
        },
    }
}

/// The base URL: `YUNXI_PROVIDER_BASE_URL`, else `OPENAI_BASE_URL`, else the
/// public endpoint.
pub open spec fn configured_base_url(env: ProviderEnvironment) -> Seq<char> {
    match env.provider_base_url {
        Some(u) => u@,
        None => match env.openai_base_url {
            Some(u) => u@,
            None => "https://api.openai.com/v1"@,
        },
    }
}

/// Streaming stays on unless `YUNXI_PROVIDER_STREAM` is `0` or `false`
/// (in any of three spellings).
pub open spec fn configured_stream(value: Option<String>) -> bool {
    match value {
        Some(v) => !(v@ == "0"@ || v@ == "false"@ || v@ == "False"@ || v@ == "FALSE"@),
        None => true,
    }
}

/// `r` is the OpenAI-compatible configuration for `model`, `base_url` and
/// `stream`.
pub open spec fn is_configured(r: ProviderConfig, model: Seq<char>, base_url: Seq<char>, stream: bool) -> bool {
    &&& r.name@ == "openai-compatible"@
    &&& r.model@ == model
    &&& r.base_url@ == base_url
    &&& r.timeout_millis == Some(120_000u64)
    &&& r.stream == stream
    &&& r.capabilities.tools && r.capabilities.parallel_tool_calls && r.capabilities.reasoning
        && r.capabilities.stream_usage
}

impl ProviderConfig {
    /// The configuration for an agent: see `configured_model`,
    /// `configured_base_url` and `configured_stream`.
    pub fn from_agent_config(config: &AgentConfig, env: &ProviderEnvironment) -> (r: ProviderConfig)
        ensures
            is_configured(r, configured_model(*config, *env), configured_base_url(*env), configured_stream(env.provider_stream)),
    {
        let model = match &config.model {
            Some(m) => m.clone(),
            None => match &env.agent_model {
                Some(m) => m.clone(),
                None => owned("gpt-4.1"),
            },
        };
        let base_url = match &env.provider_base_url {
            Some(u) => u.clone(),
            None => match &env.openai_base_url {
                Some(u) => u.clone(),
                None => owned("https://api.openai.com/v1"),
            },
        };
        let stream = match &env.provider_stream {
            Some(v) => !(str_eq(v.as_str(), "0") || str_eq(v.as_str(), "false") || str_eq(
                v.as_str(),
                "False",
            ) || str_eq(v.as_str(), "FALSE")),
            None => true,
        };
        ProviderConfig::openai_compatible(model.as_str()).with_base_url(base_url.as_str()).with_stream(
            stream,
        )
    }
}

/// A provider configuration with the authentication to use.
#[derive(Clone, Debug, PartialEq, Eq)]
pub struct ProviderBootstrap {
    pub config: ProviderConfig,
    pub auth: ProviderAuth,
}

/// The authentication: the key in `YUNXI_PROVIDER_API_KEY`, else the
/// variable that `YUNXI_PROVIDER_API_KEY_ENV` names, else `OPENAI_API_KEY`.
pub open spec fn configured_auth(auth: ProviderAuth, env: ProviderEnvironment) -> bool {
    match env.provider_api_key {
        Some(k) => auth matches ProviderAuth::ApiKey(v) && v@ == k@,
        None => auth matches ProviderAuth::EnvVar(n) && n@ == match env.provider_api_key_env {
            Some(e) => e@,
            None => "OPENAI_API_KEY"@,
        },
    }
}

impl ProviderBootstrap {
    pub fn from_agent_config(config: &AgentConfig, env: &ProviderEnvironment) -> (r: ProviderBootstrap)
        ensures
            is_configured(r.config, configured_model(*config, *env), configured_base_url(*env), configured_stream(env.provider_stream)),
            configured_auth(r.auth, *env),
    {
        let provider_config = ProviderConfig::from_agent_config(config, env);
        let auth = match &env.provider_api_key {
            Some(k) => ProviderAuth::ApiKey(k.clone()),
            None => ProviderAuth::EnvVar(
                match &env.provider_api_key_env {
                    Some(e) => e.clone(),
                    None => owned("OPENAI_API_KEY"),
                },
            ),
        };
        ProviderBootstrap { config: provider_config, auth }
    }

    /// A provider that sends its requests through `transport`.
    pub fn into_openai_transport_provider<T: ProviderTransport>(self, transport: T) -> (r: OpenAiTransportProvider<T>)
        ensures
            r.spec_provider().spec_config() == self.config,
            r.spec_provider().spec_auth() == self.auth,
            r.spec_provider().spec_fixture() is None,
            r.spec_transport() == transport,
    {
        OpenAiTransportProvider::new(self.config, self.auth, transport)
    }
}

// ---------------------------------------------------------------------------
// Provider turns
// ---------------------------------------------------------------------------

/// `r` carries the outcome `o` of reading a provider response.
pub open spec fn response_as(r: Result<ProviderResponse, AgentError>, o: Result<ResponseView, Seq<char>>) -> bool {
    match o {
        Ok(v) => r is Ok && response_view(r->Ok_0) == v,
        Err(m) => r matches Err(AgentError::Execution { message }) && message@ == m,
    }
}

pub open spec fn no_transport_message() -> Seq<char> {
    "openai-compatible HTTP transport is not configured in this runtime slice"@
}

pub open spec fn no_stream_transport_message() -> Seq<char> {
    "openai-compatible HTTP streaming transport is not configured in this runtime slice"@
}

/// A fixture is a stream when, past leading whitespace, it begins `data:`.
pub open spec fn is_stream_fixture(fixture: Seq<char>) -> bool {
    seq_starts_with(trim_start(fixture), "data:"@)
}

fn trim_start_str(s: &str) -> (r: &str)
    ensures
        r@ == trim_start(s@),
{
    let v = chars_of(s);
    let mut a: usize = 0;
    while a < v.len() && is_whitespace(v[a])
        invariant
            v@ == s@,
            a <= v@.len(),
            forall|i: int| 0 <= i < a ==> crate::text::is_ws(#[trigger] v@[i]),
        decreases v@.len() - a,
    {
        a = a + 1;
    }
    proof {
        lemma_trim_start_skip(v@, a as int);
    }
    s.substring_char(a, v.len())
}

impl OpenAiCompatibleProvider {
    /// The body of a plain request; see `build_openai_request_json`.
    pub fn request_json(&self, request: &ProviderRequest, tools: Vec<JsonValue>) -> (r: JsonValue)
        ensures
            request_body(r, self.spec_config(), *request, tools@, false),
    {
        build_openai_request_json(self.config(), request, tools)
    }

    /// The body of a streamed request; see `build_openai_stream_request_json`.
    pub fn streaming_request_json(&self, request: &ProviderRequest, tools: Vec<JsonValue>) -> (r: JsonValue)
        ensures
            request_body(r, self.spec_config(), *request, tools@, true),
    {
        build_openai_stream_request_json(self.config(), request, tools)
    }

    /// A completion: the authentication must resolve and, when the provider
    /// takes tools, the workspace's tool registry must load; then the fixture
    /// is read as the response, and without a fixture no transport answers.
    /// `env_lookup` reads the authentication's variable and `tool_registry` is
    /// the registry's tool descriptions or its error.
    pub fn complete(
        &self,
        request: &ProviderRequest,
        env_lookup: Result<String, String>,
        tool_registry: Result<Vec<JsonValue>, AgentError>,
    ) -> (r: Result<ProviderResponse, AgentError>)
        ensures
            match auth_outcome(self.spec_auth(), env_lookup) {
                Err(m) => r matches Err(AgentError::Execution { message }) && message@ == m,
                Ok(_) => if self.spec_config().capabilities.tools && tool_registry is Err {
                    r == Err::<ProviderResponse, AgentError>(tool_registry->Err_0)
                } else {
                    match self.spec_fixture() {
                        Some(f) => response_as(r, openai_response(f@)),
                        None => r matches Err(AgentError::Execution { message }) && message@
                            == no_transport_message(),
                    }
                },
            },
    {
        match self.auth().resolve(env_lookup) {
            Ok(_) => {},
            Err(e) => {
                return Err(e);
            },
        }
        if self.config().capabilities.tools {
            if let Err(e) = tool_registry {
                return Err(e);
            }
        }
        match self.fixture() {
            Some(f) => self.parse_response_json(f.as_str()),
            None => Err(
                AgentError::Execution {
                    message: owned(
                        "openai-compatible HTTP transport is not configured in this runtime slice",
                    ),
                },
            ),
        }
    }

    /// A streamed turn: as `complete`, but a fixture that is a stream (see
    /// `is_stream_fixture`) yields its events, and any other fixture is read
    /// as a response and replayed as events.
    pub fn stream(
        &self,
        request: &ProviderRequest,
        thread_id: ThreadId,
        turn_id: TurnId,
        env_lookup: Result<String, String>,
        tool_registry: Result<Vec<JsonValue>, AgentError>,
    ) -> (r: Result<ProviderStream, AgentError>)
        ensures
            match auth_outcome(self.spec_auth(), env_lookup) {
                Err(m) => r matches Err(AgentError::Execution { message }) && message@ == m,
                Ok(_) => if self.spec_config().capabilities.tools && tool_registry is Err {
                    r == Err::<ProviderStream, AgentError>(tool_registry->Err_0)
                } else {
                    match self.spec_fixture() {
                        Some(f) => if is_stream_fixture(f@) {
                            match openai_stream_events(thread_id.0@, turn_id.0@, f@) {
                                Ok(events) => r is Ok && events_view(r->Ok_0.events@) == events
                                    && r->Ok_0.final_response is None,
                                Err(m) => r matches Err(AgentError::Execution { message })
                                    && message@ == m,
                            }
                        } else {
                            match openai_response(f@) {
                                Ok(v) => r is Ok && (r->Ok_0.final_response matches Some(resp)
                                    && response_view(resp) == v && replay_events_match(
                                    r->Ok_0.events@,
                                    thread_id,
                                    turn_id,
                                    resp,
                                )),
                                Err(m) => r matches Err(AgentError::Execution { message })
                                    && message@ == m,
                            }
                        },
                        None => r matches Err(AgentError::Execution { message }) && message@
                            == no_stream_transport_message(),
                    }
                },
            },
    {
        match self.auth().resolve(env_lookup) {
            Ok(_) => {},
            Err(e) => {
                return Err(e);
            },
        }
        if self.config().capabilities.tools {
            if let Err(e) = tool_registry {
                return Err(e);
            }
        }
        match self.fixture() {
            Some(f) => {
                if starts_with(trim_start_str(f.as_str()), "data:") {
                    let _n = f.unicode_len();
                    match self.parse_stream_events(thread_id.0.as_str(), turn_id.0.as_str(), f.as_str()) {
                        Ok(events) => Ok(ProviderStream::from_events(events)),
                        Err(e) => {
                            proof {
                                assert(error_message(Err(e)) is Some);
                            }
                            Err(e)
                        },
                    }
                } else {
                    match self.parse_response_json(f.as_str()) {
                        Ok(resp) => Ok(ProviderStream::from_response(thread_id, turn_id, resp)),
                        Err(e) => Err(e),
                    }
                }
            },
            None => Err(
                AgentError::Execution {
                    message: owned(
                        "openai-compatible HTTP streaming transport is not configured in this runtime slice",
                    ),
                },
            ),
        }
    }
}

// ---------------------------------------------------------------------------
// Turns through a transport
// ---------------------------------------------------------------------------

/// The name of a failure class, as `Debug` writes it.
pub open spec fn error_kind_name(kind: ProviderErrorKind) -> Seq<char> {
    match kind {
        ProviderErrorKind::Auth => "Auth"@,
        ProviderErrorKind::RateLimit => "RateLimit"@,
        ProviderErrorKind::Server => "Server"@,
        ProviderErrorKind::Network => "Network"@,
        ProviderErrorKind::Timeout => "Timeout"@,
        ProviderErrorKind::InvalidResponse => "InvalidResponse"@,
        ProviderErrorKind::UnsupportedModel => "UnsupportedModel"@,
        ProviderErrorKind::Unknown => "Unknown"@,
    }
}

pub fn error_kind_name_str(kind: ProviderErrorKind) -> (r: &'static str)
    ensures
        r@ == error_kind_name(kind),
{
    match kind {
        ProviderErrorKind::Auth => "Auth",
        ProviderErrorKind::RateLimit => "RateLimit",
        ProviderErrorKind::Server => "Server",
        ProviderErrorKind::Network => "Network",
        ProviderErrorKind::Timeout => "Timeout",
        ProviderErrorKind::InvalidResponse => "InvalidResponse",
        ProviderErrorKind::UnsupportedModel => "UnsupportedModel",
        ProviderErrorKind::Unknown => "Unknown",
    }
}

/// The error of a response whose status is not a success.
pub open spec fn http_failure_message(status: u16) -> Seq<char> {
    "provider transport returned HTTP "@ + decimal(status as nat) + " ("@ + error_kind_name(
        status_kind(status),
    ) + ")"@
}

fn http_failure(status: u16) -> (r: AgentError)
    ensures
        r matches AgentError::Execution { message } && message@ == http_failure_message(status),
{
    let mut message = owned("provider transport returned HTTP ");
    message.append(u64_to_decimal(status as u64).as_str());
    message.append(" (");
    message.append(error_kind_name_str(classify_provider_status(status)));
    message.append(")");
    AgentError::Execution { message }
}

/// What a completion makes of the transport's answer: the transport's error,
/// the failure of a status outside 2xx, else the body read as a response.
pub fn completion_from_transport(response: Result<ProviderTransportResponse, AgentError>) -> (r: Result<
    ProviderResponse,
    AgentError,
>)
    ensures
        match response {
            Err(e) => r == Err::<ProviderResponse, AgentError>(e),
            Ok(t) => if 200 <= t.status < 300 {
                response_as(r, openai_response(t.body@))
            } else {
                r matches Err(AgentError::Execution { message }) && message@ == http_failure_message(
                    t.status,
                )
            },
        },
{
    match response {
        Err(e) => Err(e),
        Ok(t) => {
            if !t.is_success() {
                return Err(http_failure(t.status));
            }
            crate::openai::parse_openai_response_json(t.body.as_str())
        },
    }
}

/// What a streamed turn makes of the transport's answer: the transport's
/// error, the failure of a status outside 2xx, else the events of the body.
pub fn stream_events_from_transport(
    response: Result<ProviderTransportResponse, AgentError>,
    thread_id: &str,
    turn_id: &str,
) -> (r: Result<Vec<StreamEvent>, AgentError>)
    ensures
        match response {
            Err(e) => r == Err::<Vec<StreamEvent>, AgentError>(e),
            Ok(t) => if 200 <= t.status < 300 {
                match openai_stream_events(thread_id@, turn_id@, t.body@) {
                    Ok(events) => r is Ok && events_view(r->Ok_0@) == events,
                    Err(m) => error_message(r) == Some(m),
                }
            } else {
                r matches Err(AgentError::Execution { message }) && message@ == http_failure_message(
                    t.status,
                )
            },
        },
{
    match response {
        Err(e) => Err(e),
        Ok(t) => {
            if !t.is_success() {
                return Err(http_failure(t.status));
            }
            let _n = t.body.unicode_len();
            crate::openai::parse_openai_stream_events(thread_id, turn_id, t.body.as_str())
        },
    }
}

/// The tools to describe: the registry's when the provider takes tools and
/// the registry loaded; none when the provider takes no tools.
fn tools_for(caps: &ProviderCapabilities, tool_registry: Result<Vec<JsonValue>, AgentError>) -> (r:
    Result<Vec<JsonValue>, AgentError>)
    ensures
        caps.tools ==> r == tool_registry,
        !caps.tools ==> r is Ok,
{
    match tool_registry {
        Ok(t) => Ok(t),
        Err(e) => if caps.tools {
            Err(e)
        } else {
            Ok(Vec::new())
        },
    }
}

impl<T: ProviderTransport> OpenAiTransportProvider<T> {
    /// Builds the HTTP request (see `build_openai_transport_request`), sends it
    /// with retries and reads the answer (see `completion_from_transport`).
    /// A failing tool registry, when the provider takes tools, or a failing
    /// authentication ends the turn before anything is sent. A response
    /// returned is one that some body reads as.
    pub fn complete(
        &self,
        request: &ProviderRequest,
        env_lookup: Result<String, String>,
        tool_registry: Result<Vec<JsonValue>, AgentError>,
    ) -> (r: Result<ProviderResponse, AgentError>)
        ensures
            self.spec_provider().spec_config().capabilities.tools && tool_registry is Err ==> r
                == Err::<ProviderResponse, AgentError>(tool_registry->Err_0),
            !(self.spec_provider().spec_config().capabilities.tools && tool_registry is Err) ==> (
            match auth_outcome(self.spec_provider().spec_auth(), env_lookup) {
                Err(m) => r matches Err(AgentError::Execution { message }) && message@ == m,
                Ok(_) => r is Ok ==> exists|body: Seq<char>|
                    openai_response(body) == Ok::<ResponseView, Seq<char>>(response_view(r->Ok_0)),
            }),
    {
        let (provider, transport, policy) = self.parts();
        let tools = match tools_for(&provider.config().capabilities, tool_registry) {
            Ok(t) => t,
            Err(e) => {
                return Err(e);
            },
        };
        let transport_request = match build_openai_transport_request(
            provider.config(),
            provider.auth(),
            request,
            false,
            tools,
            env_lookup,
        ) {
            Ok(t) => t,
            Err(e) => {
                return Err(e);
            },
        };
        let (response, _attempts) = policy.send_with_retries(transport, &transport_request);
        let r = completion_from_transport(response);
        proof {
            if r is Ok {
                let t = response->Ok_0;
                assert(openai_response(t.body@) == Ok::<ResponseView, Seq<char>>(response_view(r->Ok_0)));
            }
        }
        r
    }

    /// The events of a streamed turn: as `complete`, with the answer read as
    /// a stream (see `stream_events_from_transport`). Events returned are
    /// those of some stream.
    pub fn stream_events(
        &self,
        request: &ProviderRequest,
        thread_id: &str,
        turn_id: &str,
        env_lookup: Result<String, String>,
        tool_registry: Result<Vec<JsonValue>, AgentError>,
    ) -> (r: Result<Vec<StreamEvent>, AgentError>)
        ensures
            self.spec_provider().spec_config().capabilities.tools && tool_registry is Err ==> r
                == Err::<Vec<StreamEvent>, AgentError>(tool_registry->Err_0),
            !(self.spec_provider().spec_config().capabilities.tools && tool_registry is Err) ==> (
            match auth_outcome(self.spec_provider().spec_auth(), env_lookup) {
                Err(m) => r matches Err(AgentError::Execution { message }) && message@ == m,
                Ok(_) => r is Ok ==> exists|body: Seq<char>|
                    openai_stream_events(thread_id@, turn_id@, body) == Ok::<
                        Seq<crate::protocol::StreamEventView>,
                        Seq<char>,
                    >(events_view(r->Ok_0@)),
            }),
    {
        let (provider, transport, policy) = self.parts();
        let tools = match tools_for(&provider.config().capabilities, tool_registry) {
            Ok(t) => t,
            Err(e) => {
                return Err(e);
            },
        };
        let transport_request = match build_openai_transport_request(
            provider.config(),
            provider.auth(),
            request,
            true,
            tools,
            env_lookup,
        ) {
            Ok(t) => t,
            Err(e) => {
                return Err(e);
            },
        };
        let (response, _attempts) = policy.send_with_retries(transport, &transport_request);
        let r = stream_events_from_transport(response, thread_id, turn_id);
        proof {
            if r is Ok {
                let t = response->Ok_0;
                assert(openai_stream_events(thread_id@, turn_id@, t.body@) == Ok::<
                    Seq<crate::protocol::StreamEventView>,
                    Seq<char>,
                >(events_view(r->Ok_0@)));
            }
        }
        r
    }

    /// A streamed turn as a stream of events with no final response; see
    /// `stream_events`.
    pub fn stream(
        &self,
        request: &ProviderRequest,
        thread_id: ThreadId,
        turn_id: TurnId,
        env_lookup: Result<String, String>,
        tool_registry: Result<Vec<JsonValue>, AgentError>,
    ) -> (r: Result<ProviderStream, AgentError>)
        ensures
            self.spec_provider().spec_config().capabilities.tools && tool_registry is Err ==> r
                == Err::<ProviderStream, AgentError>(tool_registry->Err_0),
            r is Ok ==> r->Ok_0.final_response is None,
            !(self.spec_provider().spec_config().capabilities.tools && tool_registry is Err) ==> (
            match auth_outcome(self.spec_provider().spec_auth(), env_lookup) {
                Err(m) => r matches Err(AgentError::Execution { message }) && message@ == m,
                Ok(_) => r is Ok ==> exists|body: Seq<char>|
                    openai_stream_events(thread_id.0@, turn_id.0@, body) == Ok::<
                        Seq<crate::protocol::StreamEventView>,
                        Seq<char>,
                    >(events_view(r->Ok_0.events@)),
            }),
    {
        match self.stream_events(request, thread_id.0.as_str(), turn_id.0.as_str(), env_lookup, tool_registry) {
            Ok(events) => Ok(ProviderStream::from_events(events)),
            Err(e) => Err(e),
        }
    }
}

} // verus!
