//! Model Context Protocol: server configuration, resources, tool invocations
//! and results, lifecycle events, and the runtime that declines every call.
use vstd::prelude::*;
use crate::agent::AgentError;
use crate::json::{json_text, to_json_text, JsonValue};
use crate::keyed::{
    find_key_slot, keyed_insert, keyed_value, keys_ordered, lemma_keyed_insert_at_slot,
    lemma_keyed_value_first, lemma_keyed_value_slot,
};
use crate::text::{concat, concat3, owned, str_eq, trim, trim_str};

verus! {

#[derive(Clone, Debug, PartialEq, Eq)]
pub struct McpServerConfig {
    pub name: String,
    pub transport: McpTransport,
    pub enabled: bool,
}

#[derive(Clone, Debug, PartialEq, Eq)]
pub enum McpTransport {
    Stdio { command: String, args: Vec<String> },
    Http { url: String },
}

#[derive(Clone, Debug, PartialEq, Eq)]
pub struct McpResource {
    pub server: String,
    pub uri: String,
    pub name: Option<String>,
    pub description: Option<String>,
    pub mime_type: Option<String>,
}

#[derive(Clone, Debug, PartialEq, Eq)]
pub struct McpResourceRequest {
    pub server: String,
    pub uri: String,
}

#[derive(Clone, Debug, PartialEq, Eq)]
pub struct McpToolInvocation {
    pub server: String,
    pub tool: String,
    pub arguments_json: Option<String>,
}

#[derive(Clone, Debug, PartialEq, Eq)]
pub struct McpToolResult {
    pub content: String,
}

#[derive(Clone, Copy, Debug, PartialEq, Eq, Structural)]
pub enum McpToolCallStatus {
    InProgress,
    Completed,
    Failed,
    Declined,
}

#[derive(Clone, Debug, PartialEq, Eq)]
pub enum McpLifecycleEvent {
    ServerConfigured { server: String },
    ResourcesListed { server: String, count: usize },
    ResourceRead { server: String, uri: String },
    ToolStarted { call_id: Option<String>, server: String, tool: String },
    ToolCompleted {
        call_id: Option<String>,
        server: String,
        tool: String,
        status: McpToolCallStatus,
    },
    ApprovalRequested { server: String, tool: String, question: String },
    ElicitationRequested { server: String, message: String },
}

#[derive(Clone, Copy, Debug, PartialEq, Eq, Structural)]
pub enum McpAuthStatus {
    Unknown,
    Authenticated,
    Unauthenticated,
    NeedsUserAction,
}

#[derive(Clone, Debug, PartialEq, Eq)]
pub struct McpResourceContentSeed {
    pub server: String,
    pub uri: String,
    pub content: String,
}

#[derive(Clone, Debug, PartialEq, Eq)]
pub struct McpToolResultSeed {
    pub server: String,
    pub tool: String,
    pub content: String,
}

/// A runtime with no servers wired: it lists nothing and answers every read
/// and call with a note that nothing is wired.
#[derive(Clone, Copy, Debug, Default, PartialEq, Eq)]
pub struct DecliningMcpRuntime;

impl DecliningMcpRuntime {
    pub fn list_resources(&self, server: &str) -> (r: Result<Vec<String>, AgentError>)
        ensures
            r is Ok && r->Ok_0@.len() == 0,
    {
        Ok(Vec::new())
    }

    pub fn read_resource(&self, request: McpResourceRequest) -> (r: Result<String, AgentError>)
        ensures
            r is Ok,
            r->Ok_0@ == "MCP resource "@ + request.uri@ + " on "@ + request.server@
                + " is not wired in this runtime slice"@,
    {
        let head = concat3("MCP resource ", request.uri.as_str(), " on ");
        let text = concat3(head.as_str(), request.server.as_str(), " is not wired in this runtime slice");
        Ok(text)
    }

    pub fn call_tool(&self, invocation: McpToolInvocation) -> (r: Result<McpToolResult, AgentError>)
        ensures
            r is Ok,
            r->Ok_0.content@ == "MCP tool "@ + invocation.tool@ + " on "@ + invocation.server@
                + " is not wired in this runtime slice"@,
    {
        let head = concat3("MCP tool ", invocation.tool.as_str(), " on ");
        let content = concat3(
            head.as_str(),
            invocation.server.as_str(),
            " is not wired in this runtime slice",
        );
        Ok(McpToolResult { content })
    }

    pub fn events(&self) -> (r: Result<Vec<McpLifecycleEvent>, AgentError>)
        ensures
            r is Ok && r->Ok_0@.len() == 0,
    {
        Ok(Vec::new())
    }
}

// ---------------------------------------------------------------------------
// Tools, approvals and snapshots
// ---------------------------------------------------------------------------

/// A tool that an MCP server offers; its input schema is kept as JSON text.
#[derive(Clone, Debug, PartialEq, Eq)]
pub struct McpToolSpec {
    pub server: String,
    pub name: String,
    pub title: Option<String>,
    pub description: Option<String>,
    pub input_schema: String,
    pub destructive_hint: Option<bool>,
    pub open_world_hint: Option<bool>,
    pub requires_approval: bool,
}

/// One parameter shown for approval; its value is JSON text.
#[derive(Clone, Debug, PartialEq, Eq)]
pub struct McpToolApprovalParam {
    pub name: String,
    pub value: String,
    pub display_name: String,
}

/// What a user is asked before a consequential tool runs; the parameters are
/// JSON text.
#[derive(Clone, Debug, PartialEq, Eq)]
pub struct McpToolApprovalTemplate {
    pub question: String,
    pub elicitation_message: String,
    pub tool_params: Option<String>,
    pub tool_params_display: Vec<McpToolApprovalParam>,
}

/// A server's request for user input; the schema is JSON text.
#[derive(Clone, Debug, PartialEq, Eq)]
pub struct McpElicitationRequest {
    pub server: String,
    pub message: String,
    pub requested_schema: Option<String>,
}

/// The user's answer to an elicitation; the content is JSON text.
#[derive(Clone, Debug, PartialEq, Eq)]
pub struct McpElicitationResponse {
    pub accepted: bool,
    pub content: Option<String>,
}

/// Who a tool approval names: the connector when it has a non-blank name
/// (trimmed), else the server.
pub open spec fn approval_connector(server: Seq<char>, connector_name: Option<&str>) -> Seq<char> {
    match connector_name {
        Some(n) => if trim(n@).len() > 0 {
            trim(n@)
        } else {
            server
        },
        None => server,
    }
}

pub open spec fn approval_question(connector: Seq<char>, tool: Seq<char>) -> Seq<char> {
    "Allow "@ + connector + " to run MCP tool "@ + tool + "?"@
}

/// The approval for running `tool` on `server`: the question names the
/// connector and the tool and also serves as the elicitation message; the
/// parameters are kept, and when they are an object each member is shown
/// under its own name, in order.
pub open spec fn approval_matches(
    r: McpToolApprovalTemplate,
    server: Seq<char>,
    tool: Seq<char>,
    connector_name: Option<&str>,
    params: Option<JsonValue>,
) -> bool {
    let question = approval_question(approval_connector(server, connector_name), tool);
    &&& r.question@ == question
    &&& r.elicitation_message@ == question
    &&& match params {
        Some(v) => r.tool_params matches Some(t) && t@ == json_text(v),
        None => r.tool_params is None,
    }
    &&& match params {
        Some(JsonValue::Object(entries)) => {
            &&& r.tool_params_display@.len() == entries@.len()
            &&& forall|i: int|
                0 <= i < entries@.len() ==> (#[trigger] r.tool_params_display@[i]).name@
                    == entries@[i].0@ && r.tool_params_display@[i].display_name@ == entries@[i].0@
                    && r.tool_params_display@[i].value@ == json_text(entries@[i].1)
        },
        _ => r.tool_params_display@.len() == 0,
    }
}

pub fn render_mcp_tool_approval_template(
    server: &str,
    tool: &str,
    connector_name: Option<&str>,
    params: Option<JsonValue>,
) -> (r: McpToolApprovalTemplate)
    ensures
        approval_matches(r, server@, tool@, connector_name, params),
{
    let connector = match connector_name {
        Some(n) => {
            let t = trim_str(n);
            if t.unicode_len() > 0 {
                t
            } else {
                server
            }
        },
        None => server,
    };
    let mut question = concat3("Allow ", connector, " to run MCP tool ");
    question.append(tool);
    question.append("?");
    let mut display: Vec<McpToolApprovalParam> = Vec::new();
    let tool_params = match &params {
        Some(v) => {
            if let JsonValue::Object(entries) = v {
                let mut i: usize = 0;
                while i < entries.len()
                    invariant
                        i <= entries@.len(),
                        display@.len() == i,
                        forall|k: int|
                            0 <= k < i ==> (#[trigger] display@[k]).name@ == entries@[k].0@
                                && display@[k].display_name@ == entries@[k].0@ && display@[k].value@
                                == json_text(entries@[k].1),
                    decreases entries@.len() - i,
                {
                    display.push(
                        McpToolApprovalParam {
                            name: entries[i].0.clone(),
                            value: to_json_text(&entries[i].1),
                            display_name: entries[i].0.clone(),
                        },
                    );
                    i = i + 1;
                }
            }
            Some(to_json_text(v))
        },
        None => None,
    };
    McpToolApprovalTemplate {
        question: question.clone(),
        elicitation_message: question,
        tool_params,
        tool_params_display: display,
    }
}

/// What a runtime knows of one server.
#[derive(Clone, Debug, PartialEq, Eq)]
pub struct McpServerSnapshot {
    pub config: Option<McpServerConfig>,
    pub resources: Vec<McpResource>,
    pub tools: Vec<McpToolSpec>,
    pub auth_status: Option<McpAuthStatus>,
}

/// A server snapshot by value.
pub struct McpServerView {
    pub config: Option<McpServerConfig>,
    pub resources: Seq<McpResource>,
    pub tools: Seq<McpToolSpec>,
    pub auth_status: Option<McpAuthStatus>,
}

pub open spec fn server_view(s: McpServerSnapshot) -> McpServerView {
    McpServerView {
        config: s.config,
        resources: s.resources@,
        tools: s.tools@,
        auth_status: s.auth_status,
    }
}

pub open spec fn empty_server_view() -> McpServerView {
    McpServerView { config: None, resources: Seq::empty(), tools: Seq::empty(), auth_status: None }
}

impl Default for McpServerSnapshot {
    fn default() -> (r: Self)
        ensures
            server_view(r) == empty_server_view(),
    {
        McpServerSnapshot { config: None, resources: Vec::new(), tools: Vec::new(), auth_status: None }
    }
}

/// What a runtime knows of its servers, kept in order of server name.
#[derive(Clone, Debug, PartialEq, Eq)]
pub struct McpRuntimeSnapshot {
    pub servers: Vec<(String, McpServerSnapshot)>,
    pub plugins_available: bool,
    pub available_environment_ids: Vec<String>,
}

/// The servers by name, in order.
pub open spec fn servers_view(servers: Seq<(String, McpServerSnapshot)>) -> Seq<(Seq<char>, McpServerView)> {
    Seq::new(servers.len(), |i: int| (servers[i].0@, server_view(servers[i].1)))
}

/// The view of a server before it is updated: its own, or an empty one.
pub open spec fn server_or_empty(servers: Seq<(Seq<char>, McpServerView)>, name: Seq<char>) -> McpServerView {
    match keyed_value(servers, name) {
        Some(v) => v,
        None => empty_server_view(),
    }
}

impl McpRuntimeSnapshot {
    pub open spec fn view_servers(&self) -> Seq<(Seq<char>, McpServerView)> {
        servers_view(self.servers@)
    }

    /// Server names strictly increase along the list.
    pub open spec fn wf(&self) -> bool {
        keys_ordered(self.view_servers())
    }

    /// Takes out the entry of server `name` (or makes an empty one) and tells
    /// where it belongs.
    fn take_server(&mut self, name: &str) -> (r: (usize, bool, McpServerSnapshot))
        requires
            old(self).wf(),
        ensures
            r.0 <= old(self).servers@.len(),
            forall|j: int| 0 <= j < r.0 ==> crate::multi_agent::lex_lt(#[trigger] old(self).view_servers()[j].0, name@),
            r.1 <==> (r.0 < old(self).servers@.len() && old(self).view_servers()[r.0 as int].0 == name@),
            !r.1 && r.0 < old(self).servers@.len() ==> crate::multi_agent::lex_lt(name@, old(self).view_servers()[r.0 as int].0),
            final(self).servers@ == if r.1 {
                old(self).servers@.remove(r.0 as int)
            } else {
                old(self).servers@
            },
            server_view(r.2) == server_or_empty(old(self).view_servers(), name@),
            final(self).plugins_available == old(self).plugins_available,
            final(self).available_environment_ids == old(self).available_environment_ids,
    {
        let ghost v = self.view_servers();
        let (i, found) = find_key_slot(&self.servers, name);
        proof {
            assert forall|j: int| 0 <= j < i implies crate::multi_agent::lex_lt(#[trigger] v[j].0, name@) by {
                assert(v[j].0 == self.servers@[j].0@);
            }
            lemma_keyed_value_slot(v, name@, i as int);
        }
        if found {
            let (_, snap) = self.servers.remove(i);
            (i, true, snap)
        } else {
            (i, false, McpServerSnapshot::default())
        }
    }

    /// Puts a server entry back where `take_server` said it belongs.
    fn put_server(&mut self, slot: usize, name: &str, snap: McpServerSnapshot, Ghost(before): Ghost<Seq<(Seq<char>, McpServerView)>>, Ghost(found): Ghost<bool>)
        requires
            slot <= old(self).servers@.len(),
            forall|j: int| 0 <= j < slot ==> crate::multi_agent::lex_lt(#[trigger] before[j].0, name@),
            found <==> (slot < before.len() && before[slot as int].0 == name@),
            !found && slot < before.len() ==> crate::multi_agent::lex_lt(name@, before[slot as int].0),
            slot <= before.len(),
            servers_view(old(self).servers@) == if found {
                before.remove(slot as int)
            } else {
                before
            },
            keys_ordered(before),
        ensures
            final(self).view_servers() == keyed_insert(before, name@, server_view(snap)),
            final(self).wf(),
            final(self).plugins_available == old(self).plugins_available,
            final(self).available_environment_ids == old(self).available_environment_ids,
    {
        let ghost sv = server_view(snap);
        let ghost mid = self.servers@;
        self.servers.insert(slot, (owned(name), snap));
        proof {
            lemma_keyed_insert_at_slot(before, name@, sv, slot as int, found);
            let base = if found {
                before.remove(slot as int)
            } else {
                before
            };
            assert(self.view_servers() =~= base.insert(slot as int, (name@, sv))) by {
                assert forall|j: int| 0 <= j < self.servers@.len() implies self.view_servers()[j]
                    == base.insert(slot as int, (name@, sv))[j] by {
                    if j < slot {
                        assert(self.servers@[j] == mid[j]);
                    } else if j > slot {
                        assert(self.servers@[j] == mid[j - 1]);
                    }
                }
            }
            crate::keyed::law_keyed_insert_keeps_keys_ordered(before, name@, sv);
        }
    }

    /// Records a server's configuration.
    pub fn register_server(&mut self, config: McpServerConfig)
        requires
            old(self).wf(),
        ensures
            final(self).wf(),
            final(self).view_servers() == keyed_insert(
                old(self).view_servers(),
                config.name@,
                McpServerView { config: Some(config), ..server_or_empty(old(self).view_servers(), config.name@) },
            ),
            final(self).plugins_available == old(self).plugins_available,
            final(self).available_environment_ids == old(self).available_environment_ids,
    {
        let ghost before = self.view_servers();
        let name = config.name.clone();
        let (slot, found, mut snap) = self.take_server(name.as_str());
        proof {
            if found {
                assert(servers_view(self.servers@) =~= before.remove(slot as int));
            }
        }
        snap.config = Some(config);
        self.put_server(slot, name.as_str(), snap, Ghost(before), Ghost(found));
    }

    /// Adds a tool to its server's list, after the tools already there.
    pub fn register_tool(&mut self, spec: McpToolSpec)
        requires
            old(self).wf(),
        ensures
            final(self).wf(),
            final(self).view_servers() == keyed_insert(
                old(self).view_servers(),
                spec.server@,
                McpServerView {
                    tools: server_or_empty(old(self).view_servers(), spec.server@).tools.push(spec),
                    ..server_or_empty(old(self).view_servers(), spec.server@)
                },
            ),
            final(self).plugins_available == old(self).plugins_available,
            final(self).available_environment_ids == old(self).available_environment_ids,
    {
        let ghost before = self.view_servers();
        let name = spec.server.clone();
        let (slot, found, mut snap) = self.take_server(name.as_str());
        proof {
            if found {
                assert(servers_view(self.servers@) =~= before.remove(slot as int));
            }
        }
        snap.tools.push(spec);
        self.put_server(slot, name.as_str(), snap, Ghost(before), Ghost(found));
    }

    /// Adds a resource to its server's list, after the resources already there.
    pub fn register_resource(&mut self, resource: McpResource)
        requires
            old(self).wf(),
        ensures
            final(self).wf(),
            final(self).view_servers() == keyed_insert(
                old(self).view_servers(),
                resource.server@,
                McpServerView {
                    resources: server_or_empty(old(self).view_servers(), resource.server@).resources.push(resource),
                    ..server_or_empty(old(self).view_servers(), resource.server@)
                },
            ),
            final(self).plugins_available == old(self).plugins_available,
            final(self).available_environment_ids == old(self).available_environment_ids,
    {
        let ghost before = self.view_servers();
        let name = resource.server.clone();
        let (slot, found, mut snap) = self.take_server(name.as_str());
        proof {
            if found {
                assert(servers_view(self.servers@) =~= before.remove(slot as int));
            }
        }
        snap.resources.push(resource);
        self.put_server(slot, name.as_str(), snap, Ghost(before), Ghost(found));
    }
}

impl Default for McpRuntimeSnapshot {
    fn default() -> (r: Self)
        ensures
            r.servers@.len() == 0,
            r.wf(),
            !r.plugins_available,
            r.available_environment_ids@.len() == 0,
    {
        McpRuntimeSnapshot { servers: Vec::new(), plugins_available: false, available_environment_ids: Vec::new() }
    }
}

// ---------------------------------------------------------------------------
// Runtimes
// ---------------------------------------------------------------------------

/// A runtime that lists, reads and calls what MCP servers offer, and records
/// what happened.
pub trait McpRuntime {
    fn list_resources(&mut self, server: &str) -> Result<Vec<String>, AgentError>;

    fn list_tools(&mut self, server: &str) -> Result<Vec<McpToolSpec>, AgentError>;

    fn read_resource(&mut self, request: McpResourceRequest) -> Result<String, AgentError>;

    fn call_tool(&mut self, invocation: McpToolInvocation) -> Result<McpToolResult, AgentError>;

    fn events(&self) -> Result<Vec<McpLifecycleEvent>, AgentError>;
}

impl DecliningMcpRuntime {
    pub fn list_tools(&self, server: &str) -> (r: Result<Vec<McpToolSpec>, AgentError>)
        ensures
            r is Ok && r->Ok_0@.len() == 0,
    {
        Ok(Vec::new())
    }
}

impl McpRuntime for DecliningMcpRuntime {
    fn list_resources(&mut self, server: &str) -> (r: Result<Vec<String>, AgentError>)
        ensures
            *final(self) == *old(self),
            r is Ok && r->Ok_0@.len() == 0,
    {
        DecliningMcpRuntime::list_resources(self, server)
    }

    fn list_tools(&mut self, server: &str) -> (r: Result<Vec<McpToolSpec>, AgentError>)
        ensures
            *final(self) == *old(self),
            r is Ok && r->Ok_0@.len() == 0,
    {
        DecliningMcpRuntime::list_tools(self, server)
    }

    fn read_resource(&mut self, request: McpResourceRequest) -> (r: Result<String, AgentError>)
        ensures
            *final(self) == *old(self),
            r is Ok,
            r->Ok_0@ == "MCP resource "@ + request.uri@ + " on "@ + request.server@
                + " is not wired in this runtime slice"@,
    {
        DecliningMcpRuntime::read_resource(self, request)
    }

    fn call_tool(&mut self, invocation: McpToolInvocation) -> (r: Result<McpToolResult, AgentError>)
        ensures
            *final(self) == *old(self),
            r is Ok,
            r->Ok_0.content@ == "MCP tool "@ + invocation.tool@ + " on "@ + invocation.server@
                + " is not wired in this runtime slice"@,
    {
        DecliningMcpRuntime::call_tool(self, invocation)
    }

    fn events(&self) -> (r: Result<Vec<McpLifecycleEvent>, AgentError>)
        ensures
            r is Ok && r->Ok_0@.len() == 0,
    {
        DecliningMcpRuntime::events(self)
    }
}

/// What a seed file holds: a snapshot, resource contents and tool results.
#[derive(Clone, Debug, PartialEq, Eq)]
pub struct McpRuntimeSeed {
    pub snapshot: McpRuntimeSnapshot,
    pub resource_contents: Vec<McpResourceContentSeed>,
    pub tool_results: Vec<McpToolResultSeed>,
}

/// Values stored under pairs of names, later entries replacing earlier ones.
pub open spec fn pair_map(entries: Seq<(Seq<char>, Seq<char>, Seq<char>)>) -> Map<(Seq<char>, Seq<char>), Seq<char>>
    decreases entries.len(),
{
    if entries.len() == 0 {
        Map::empty()
    } else {
        pair_map(entries.drop_last()).insert(
            (entries.last().0, entries.last().1),
            entries.last().2,
        )
    }
}

pub open spec fn triple_views(entries: Seq<(String, String, String)>) -> Seq<(Seq<char>, Seq<char>, Seq<char>)> {
    Seq::new(entries.len(), |i: int| (entries[i].0@, entries[i].1@, entries[i].2@))
}

/// The first tool named `name`.
pub open spec fn first_tool(tools: Seq<McpToolSpec>, name: Seq<char>) -> Option<McpToolSpec>
    decreases tools.len(),
{
    if tools.len() == 0 {
        None
    } else if tools[0].name@ == name {
        Some(tools[0])
    } else {
        first_tool(tools.skip(1), name)
    }
}

/// `after` is `before` followed by `n` more items.
pub open spec fn appended<A>(before: Seq<A>, after: Seq<A>, n: nat) -> bool {
    after.len() == before.len() + n && after.take(before.len() as int) == before
}

pub open spec fn server_missing_message(server: Seq<char>) -> Seq<char> {
    "MCP server is not configured: "@ + server
}

/// An MCP runtime over a snapshot, with resource contents and tool results
/// stored in memory, that records a lifecycle event for each listing, read
/// and call.
#[derive(Clone, Debug)]
pub struct InMemoryMcpRuntime {
    snapshot: McpRuntimeSnapshot,
    resource_content: Vec<(String, String, String)>,
    tool_results: Vec<(String, String, String)>,
    events: Vec<McpLifecycleEvent>,
}

fn copy_resource(r: &McpResource) -> (c: McpResource)
    ensures
        c == *r,
{
    McpResource {
        server: r.server.clone(),
        uri: r.uri.clone(),
        name: crate::text::opt_string_copy(&r.name),
        description: crate::text::opt_string_copy(&r.description),
        mime_type: crate::text::opt_string_copy(&r.mime_type),
    }
}

fn copy_tool_spec(t: &McpToolSpec) -> (c: McpToolSpec)
    ensures
        c == *t,
{
    McpToolSpec {
        server: t.server.clone(),
        name: t.name.clone(),
        title: crate::text::opt_string_copy(&t.title),
        description: crate::text::opt_string_copy(&t.description),
        input_schema: t.input_schema.clone(),
        destructive_hint: t.destructive_hint,
        open_world_hint: t.open_world_hint,
        requires_approval: t.requires_approval,
    }
}

fn copy_event(e: &McpLifecycleEvent) -> (c: McpLifecycleEvent)
    ensures
        c == *e,
{
    match e {
        McpLifecycleEvent::ServerConfigured { server } => McpLifecycleEvent::ServerConfigured {
            server: server.clone(),
        },
        McpLifecycleEvent::ResourcesListed { server, count } => McpLifecycleEvent::ResourcesListed {
            server: server.clone(),
            count: *count,
        },
        McpLifecycleEvent::ResourceRead { server, uri } => McpLifecycleEvent::ResourceRead {
            server: server.clone(),
            uri: uri.clone(),
        },
        McpLifecycleEvent::ToolStarted { call_id, server, tool } => McpLifecycleEvent::ToolStarted {
            call_id: crate::text::opt_string_copy(call_id),
            server: server.clone(),
            tool: tool.clone(),
        },
        McpLifecycleEvent::ToolCompleted { call_id, server, tool, status } => McpLifecycleEvent::ToolCompleted {
            call_id: crate::text::opt_string_copy(call_id),
            server: server.clone(),
            tool: tool.clone(),
            status: *status,
        },
        McpLifecycleEvent::ApprovalRequested { server, tool, question } => McpLifecycleEvent::ApprovalRequested {
            server: server.clone(),
            tool: tool.clone(),
            question: question.clone(),
        },
        McpLifecycleEvent::ElicitationRequested { server, message } => McpLifecycleEvent::ElicitationRequested {
            server: server.clone(),
            message: message.clone(),
        },
    }
}

/// The index of the last entry stored under `(a, b)`, if any; the value it
/// holds is the one the pairs map to.
fn lookup_pair(entries: &Vec<(String, String, String)>, a: &str, b: &str) -> (r: Option<usize>)
    ensures
        match r {
            Some(i) => i < entries@.len() && pair_map(triple_views(entries@)).contains_key((a@, b@))
                && pair_map(triple_views(entries@))[(a@, b@)] == entries@[i as int].2@,
            None => !pair_map(triple_views(entries@)).contains_key((a@, b@)),
        },
{
    let ghost v = triple_views(entries@);
    let mut k: usize = entries.len();
    proof {
        assert(v.take(k as int) =~= v);
    }
    while k > 0
        invariant
            k <= entries@.len(),
            v == triple_views(entries@),
            pair_map(v).contains_key((a@, b@)) == pair_map(v.take(k as int)).contains_key((a@, b@)),
            pair_map(v).contains_key((a@, b@)) ==> pair_map(v)[(a@, b@)] == pair_map(v.take(k as int))[(a@, b@)],
        decreases k,
    {
        let j = k - 1;
        proof {
            assert(v.take(k as int).drop_last() =~= v.take(j as int));
            assert(v.take(k as int).last() == v[j as int]);
        }
        if str_eq(entries[j].0.as_str(), a) && str_eq(entries[j].1.as_str(), b) {
            return Some(j);
        }
        k = j;
    }
    None
}

impl InMemoryMcpRuntime {
    pub closed spec fn spec_snapshot(&self) -> McpRuntimeSnapshot {
        self.snapshot
    }

    /// Resource contents by server and URI.
    pub closed spec fn resource_map(&self) -> Map<(Seq<char>, Seq<char>), Seq<char>> {
        pair_map(triple_views(self.resource_content@))
    }

    /// Tool results' contents by server and tool.
    pub closed spec fn result_map(&self) -> Map<(Seq<char>, Seq<char>), Seq<char>> {
        pair_map(triple_views(self.tool_results@))
    }

    /// The lifecycle events so far, in order.
    pub closed spec fn spec_events(&self) -> Seq<McpLifecycleEvent> {
        self.events@
    }

    /// The server of that name in the snapshot (its first entry).
    pub open spec fn server(&self, name: Seq<char>) -> Option<McpServerView> {
        keyed_value(self.spec_snapshot().view_servers(), name)
    }

    pub fn new(snapshot: McpRuntimeSnapshot) -> (r: InMemoryMcpRuntime)
        ensures
            r.spec_snapshot() == snapshot,
            r.resource_map() == Map::<(Seq<char>, Seq<char>), Seq<char>>::empty(),
            r.result_map() == Map::<(Seq<char>, Seq<char>), Seq<char>>::empty(),
            r.spec_events().len() == 0,
    {
        let r = InMemoryMcpRuntime {
            snapshot,
            resource_content: Vec::new(),
            tool_results: Vec::new(),
            events: Vec::new(),
        };
        assert(triple_views(r.resource_content@) =~= Seq::empty());
        assert(triple_views(r.tool_results@) =~= Seq::empty());
        r
    }

    /// Stores the content of a resource, replacing any earlier one.
    pub fn add_resource_content(&mut self, server: String, uri: String, content: String) -> (r: Result<(), AgentError>)
        ensures
            r is Ok,
            final(self).resource_map() == old(self).resource_map().insert((server@, uri@), content@),
            final(self).result_map() == old(self).result_map(),
            final(self).spec_snapshot() == old(self).spec_snapshot(),
            final(self).spec_events() == old(self).spec_events(),
    {
        let ghost before = triple_views(self.resource_content@);
        let ghost key = (server@, uri@);
        let ghost val = content@;
        self.resource_content.push((server, uri, content));
        assert(triple_views(self.resource_content@).drop_last() =~= before);
        Ok(())
    }

    /// Stores the result of a tool, replacing any earlier one.
    pub fn add_tool_result(&mut self, server: String, tool: String, result: McpToolResult) -> (r: Result<(), AgentError>)
        ensures
            r is Ok,
            final(self).result_map() == old(self).result_map().insert((server@, tool@), result.content@),
            final(self).resource_map() == old(self).resource_map(),
            final(self).spec_snapshot() == old(self).spec_snapshot(),
            final(self).spec_events() == old(self).spec_events(),
    {
        let ghost before = triple_views(self.tool_results@);
        self.tool_results.push((server, tool, result.content));
        assert(triple_views(self.tool_results@).drop_last() =~= before);
        Ok(())
    }

    /// The runtime a seed describes: its snapshot, with its resource contents
    /// and tool results stored in order (a later entry for the same names
    /// replacing an earlier one).
    pub fn from_seed(seed: McpRuntimeSeed) -> (r: InMemoryMcpRuntime)
        ensures
            r.spec_snapshot() == seed.snapshot,
            r.resource_map() == pair_map(Seq::new(seed.resource_contents@.len(), |i: int| (
                seed.resource_contents@[i].server@,
                seed.resource_contents@[i].uri@,
                seed.resource_contents@[i].content@,
            ))),
            r.result_map() == pair_map(Seq::new(seed.tool_results@.len(), |i: int| (
                seed.tool_results@[i].server@,
                seed.tool_results@[i].tool@,
                seed.tool_results@[i].content@,
            ))),
            r.spec_events().len() == 0,
    {
        let ghost contents = Seq::new(seed.resource_contents@.len(), |i: int| (
            seed.resource_contents@[i].server@,
            seed.resource_contents@[i].uri@,
            seed.resource_contents@[i].content@,
        ));
        let ghost results = Seq::new(seed.tool_results@.len(), |i: int| (
            seed.tool_results@[i].server@,
            seed.tool_results@[i].tool@,
            seed.tool_results@[i].content@,
        ));
        let mut runtime = InMemoryMcpRuntime {
            snapshot: seed.snapshot,
            resource_content: Vec::new(),
            tool_results: Vec::new(),
            events: Vec::new(),
        };
        proof {
            assert(triple_views(runtime.resource_content@) =~= contents.take(0));
            assert(triple_views(runtime.tool_results@) =~= results.take(0));
        }
        let mut i: usize = 0;
        while i < seed.resource_contents.len()
            invariant
                i <= seed.resource_contents@.len(),
                contents == Seq::new(seed.resource_contents@.len(), |i: int| (
                    seed.resource_contents@[i].server@,
                    seed.resource_contents@[i].uri@,
                    seed.resource_contents@[i].content@,
                )),
                triple_views(runtime.resource_content@) == contents.take(i as int),
                runtime.tool_results@.len() == 0,
                runtime.events@.len() == 0,
                runtime.snapshot == seed.snapshot,
            decreases seed.resource_contents@.len() - i,
        {
            let c = &seed.resource_contents[i];
            let ghost before = triple_views(runtime.resource_content@);
            runtime.resource_content.push((c.server.clone(), c.uri.clone(), c.content.clone()));
            proof {
                assert(triple_views(runtime.resource_content@).drop_last() =~= before);
                assert(contents.take(i + 1).drop_last() =~= contents.take(i as int));
                assert(triple_views(runtime.resource_content@) =~= contents.take(i + 1));
            }
            i = i + 1;
        }
        let mut j: usize = 0;
        while j < seed.tool_results.len()
            invariant
                j <= seed.tool_results@.len(),
                results == Seq::new(seed.tool_results@.len(), |i: int| (
                    seed.tool_results@[i].server@,
                    seed.tool_results@[i].tool@,
                    seed.tool_results@[i].content@,
                )),
                triple_views(runtime.resource_content@) == contents,
                triple_views(runtime.tool_results@) == results.take(j as int),
                runtime.events@.len() == 0,
                runtime.snapshot == seed.snapshot,
            decreases seed.tool_results@.len() - j,
        {
            let t = &seed.tool_results[j];
            let ghost before = triple_views(runtime.tool_results@);
            runtime.tool_results.push((t.server.clone(), t.tool.clone(), t.content.clone()));
            proof {
                assert(triple_views(runtime.tool_results@).drop_last() =~= before);
                assert(results.take(j + 1).drop_last() =~= results.take(j as int));
                assert(triple_views(runtime.tool_results@) =~= results.take(j + 1));
            }
            j = j + 1;
        }
        proof {
            assert(contents.take(i as int) =~= contents);
            assert(results.take(j as int) =~= results);
        }
        runtime
    }

    /// The position of the server's first entry in the snapshot.
    fn find_server(&self, name: &str) -> (r: Option<usize>)
        ensures
            match r {
                Some(i) => i < self.snapshot.servers@.len() && self.server(name@) == Some(
                    server_view(self.snapshot.servers@[i as int].1),
                ),
                None => self.server(name@) is None,
            },
    {
        let ghost v = self.snapshot.view_servers();
        let mut i: usize = 0;
        while i < self.snapshot.servers.len()
            invariant
                i <= self.snapshot.servers@.len(),
                v == self.snapshot.view_servers(),
                forall|j: int| 0 <= j < i ==> #[trigger] v[j].0 != name@,
            decreases self.snapshot.servers@.len() - i,
        {
            if str_eq(self.snapshot.servers[i].0.as_str(), name) {
                proof {
                    lemma_keyed_value_first(v, name@, i as int);
                }
                return Some(i);
            }
            i = i + 1;
        }
        proof {
            lemma_keyed_value_first(v, name@, i as int);
        }
        None
    }

    fn server_missing(server: &str) -> (r: AgentError)
        ensures
            r matches AgentError::Execution { message } && message@ == server_missing_message(server@),
    {
        AgentError::Execution { message: concat("MCP server is not configured: ", server) }
    }

    /// The URIs of the server's resources, recording how many were listed.
    pub fn list_resources(&mut self, server: &str) -> (r: Result<Vec<String>, AgentError>)
        ensures
            resources_listed(*old(self), *final(self), server@, r),
    {
        let found = self.find_server(server);
        match found {
            None => {
                let e = InMemoryMcpRuntime::server_missing(server);
                assert(self.server(server@) is None);
                assert(e matches AgentError::Execution { message } && message@ == server_missing_message(server@));
                assert(self.events@ == old(self).events@);
                Err(e)
            },
            Some(k) => {
                let resources = &self.snapshot.servers[k].1.resources;
                let mut uris: Vec<String> = Vec::new();
                let mut i: usize = 0;
                while i < resources.len()
                    invariant
                        i <= resources@.len(),
                        uris@.len() == i,
                        forall|j: int| 0 <= j < i ==> #[trigger] uris@[j] == resources@[j].uri,
                    decreases resources@.len() - i,
                {
                    uris.push(resources[i].uri.clone());
                    i = i + 1;
                }
                let count = resources.len();
                let ghost before = self.events@;
                self.events.push(McpLifecycleEvent::ResourcesListed { server: owned(server), count });
                assert(self.events@.take(before.len() as int) =~= before);
                Ok(uris)
            },
        }
    }
}

impl InMemoryMcpRuntime {
    /// The server's tools.
    pub fn list_tools(&mut self, server: &str) -> (r: Result<Vec<McpToolSpec>, AgentError>)
        ensures
            tools_listed(*old(self), *final(self), server@, r),
    {
        match self.find_server(server) {
            None => Err(InMemoryMcpRuntime::server_missing(server)),
            Some(k) => {
                let tools = &self.snapshot.servers[k].1.tools;
                let mut out: Vec<McpToolSpec> = Vec::new();
                let mut i: usize = 0;
                while i < tools.len()
                    invariant
                        i <= tools@.len(),
                        out@ == tools@.take(i as int),
                    decreases tools@.len() - i,
                {
                    out.push(copy_tool_spec(&tools[i]));
                    proof {
                        assert(out@ =~= tools@.take(i + 1));
                    }
                    i = i + 1;
                }
                proof {
                    assert(tools@.take(i as int) =~= tools@);
                }
                Ok(out)
            },
        }
    }

    /// The content stored for the resource (empty when none is), recording
    /// the read.
    pub fn read_resource(&mut self, request: McpResourceRequest) -> (r: Result<String, AgentError>)
        ensures
            resource_read(*old(self), *final(self), request, r),
    {
        match self.find_server(request.server.as_str()) {
            None => Err(InMemoryMcpRuntime::server_missing(request.server.as_str())),
            Some(_) => {
                self.events.push(
                    McpLifecycleEvent::ResourceRead {
                        server: request.server.clone(),
                        uri: request.uri.clone(),
                    },
                );
                match lookup_pair(&self.resource_content, request.server.as_str(), request.uri.as_str()) {
                    Some(i) => Ok(self.resource_content[i].2.clone()),
                    None => Ok(String::new()),
                }
            },
        }
    }

    /// Calls a registered tool: records its start, an approval request when
    /// the tool requires approval, and its completion, and answers with the
    /// stored result (or a note that the tool completed).
    pub fn call_tool(&mut self, invocation: McpToolInvocation) -> (r: Result<McpToolResult, AgentError>)
        ensures
            tool_called(*old(self), *final(self), invocation, r),
    {
        let k = match self.find_server(invocation.server.as_str()) {
            None => {
                return Err(InMemoryMcpRuntime::server_missing(invocation.server.as_str()));
            },
            Some(k) => k,
        };
        let ghost sv = server_view(self.snapshot.servers@[k as int].1);
        let ghost before = self.events@;
        let tools = &self.snapshot.servers[k].1.tools;
        let mut i: usize = 0;
        let mut requires_approval = false;
        let mut found = false;
        proof {
            assert(tools@.skip(0) =~= tools@);
        }
        while i < tools.len()
            invariant_except_break
                !found,
            invariant
                i <= tools@.len(),
                tools@ == sv.tools,
                first_tool(sv.tools, invocation.tool@) == first_tool(sv.tools.skip(i as int), invocation.tool@),
            ensures
                found ==> i < tools@.len() && first_tool(sv.tools, invocation.tool@) == Some(sv.tools[i as int])
                    && requires_approval == sv.tools[i as int].requires_approval,
                !found ==> i == tools@.len(),
            decreases tools@.len() - i,
        {
            proof {
                assert(sv.tools.skip(i as int).skip(1) =~= sv.tools.skip(i + 1));
                assert(sv.tools.skip(i as int)[0] == sv.tools[i as int]);
            }
            if str_eq(tools[i].name.as_str(), invocation.tool.as_str()) {
                requires_approval = tools[i].requires_approval;
                found = true;
                break;
            }
            i = i + 1;
        }
        if !found {
            proof {
                assert(sv.tools.skip(i as int).len() == 0);
            }
            let mut message = concat3("MCP tool ", invocation.tool.as_str(), " is not registered on ");
            message.append(invocation.server.as_str());
            return Err(AgentError::Execution { message });
        }
        self.events.push(
            McpLifecycleEvent::ToolStarted {
                call_id: None,
                server: invocation.server.clone(),
                tool: invocation.tool.clone(),
            },
        );
        if requires_approval {
            let params: Option<JsonValue> = match &invocation.arguments_json {
                Some(j) => match crate::json::parse_json_text(j.as_str()) {
                    Ok(v) => Some(v),
                    Err(_) => None,
                },
                None => None,
            };
            let approval = render_mcp_tool_approval_template(
                invocation.server.as_str(),
                invocation.tool.as_str(),
                None,
                params,
            );
            self.events.push(
                McpLifecycleEvent::ApprovalRequested {
                    server: invocation.server.clone(),
                    tool: invocation.tool.clone(),
                    question: approval.question,
                },
            );
        }
        let content = match lookup_pair(&self.tool_results, invocation.server.as_str(), invocation.tool.as_str()) {
            Some(j) => self.tool_results[j].2.clone(),
            None => {
                let mut c = concat3("MCP tool ", invocation.tool.as_str(), " on ");
                c.append(invocation.server.as_str());
                c.append(" completed");
                c
            },
        };
        self.events.push(
            McpLifecycleEvent::ToolCompleted {
                call_id: None,
                server: invocation.server.clone(),
                tool: invocation.tool.clone(),
                status: McpToolCallStatus::Completed,
            },
        );
        proof {
            assert(self.events@.take(before.len() as int) =~= before);
        }
        Ok(McpToolResult { content })
    }

    /// The lifecycle events so far.
    pub fn events(&self) -> (r: Result<Vec<McpLifecycleEvent>, AgentError>)
        ensures
            r is Ok && r->Ok_0@ == self.spec_events(),
    {
        let mut out: Vec<McpLifecycleEvent> = Vec::new();
        let mut i: usize = 0;
        while i < self.events.len()
            invariant
                i <= self.events@.len(),
                out@ == self.events@.take(i as int),
            decreases self.events@.len() - i,
        {
            out.push(copy_event(&self.events[i]));
            proof {
                assert(out@ =~= self.events@.take(i + 1));
            }
            i = i + 1;
        }
        proof {
            assert(self.events@.take(i as int) =~= self.events@);
        }
        Ok(out)
    }
}

/// Listing a server's resources: the runtime's tables stay; an unknown server
/// is an error and records nothing; a known one gives its resource URIs in
/// order and records one `ResourcesListed` event with their count.
pub open spec fn resources_listed(pre: InMemoryMcpRuntime, post: InMemoryMcpRuntime, server: Seq<char>, r: Result<Vec<String>, AgentError>) -> bool {
    &&& post.spec_snapshot() == pre.spec_snapshot()
    &&& post.resource_map() == pre.resource_map()
    &&& post.result_map() == pre.result_map()
    &&& pre.server(server) is None ==> (r matches Err(AgentError::Execution { message })
            && message@ == server_missing_message(server))
    &&& pre.server(server) is None ==> post.spec_events() == pre.spec_events()
    &&& match pre.server(server) {
            None => true,
            Some(sv) => {
                &&& r is Ok
                &&& r->Ok_0@.len() == sv.resources.len()
                &&& forall|i: int|
                    0 <= i < sv.resources.len() ==> #[trigger] r->Ok_0@[i] == sv.resources[i].uri
                &&& appended(pre.spec_events(), post.spec_events(), 1)
                &&& post.spec_events().last() matches McpLifecycleEvent::ResourcesListed {
                    server: s,
                    count: c,
                }
                &&& s@ == server
                &&& c == sv.resources.len()
            },
        }
}

/// Listing a server's tools: nothing changes; an unknown server is an error, a
/// known one gives its tools.
pub open spec fn tools_listed(pre: InMemoryMcpRuntime, post: InMemoryMcpRuntime, server: Seq<char>, r: Result<Vec<McpToolSpec>, AgentError>) -> bool {
    &&& post == pre
    &&& pre.server(server) is None ==> (r matches Err(AgentError::Execution { message })
            && message@ == server_missing_message(server))
    &&& match pre.server(server) {
            None => true,
            Some(sv) => r is Ok && r->Ok_0@ == sv.tools,
        }
}

/// Reading a resource: the tables stay; an unknown server is an error and
/// records nothing; on a known one the stored content (empty when none is
/// stored) comes back and a `ResourceRead` event is recorded.
pub open spec fn resource_read(pre: InMemoryMcpRuntime, post: InMemoryMcpRuntime, request: McpResourceRequest, r: Result<String, AgentError>) -> bool {
    &&& post.spec_snapshot() == pre.spec_snapshot()
    &&& post.resource_map() == pre.resource_map()
    &&& post.result_map() == pre.result_map()
    &&& pre.server(request.server@) is None ==> (r matches Err(AgentError::Execution { message })
            && message@ == server_missing_message(request.server@))
    &&& pre.server(request.server@) is None ==> post.spec_events() == pre.spec_events()
    &&& pre.server(request.server@) is Some ==> {
            &&& r is Ok
            &&& r->Ok_0@ == if pre.resource_map().contains_key((request.server@, request.uri@)) {
                pre.resource_map()[(request.server@, request.uri@)]
            } else {
                Seq::empty()
            }
            &&& post.spec_events() == pre.spec_events().push(
                McpLifecycleEvent::ResourceRead { server: request.server, uri: request.uri },
            )
        }
}

/// Calling a tool: the tables stay; an unknown server or tool is an error and
/// records nothing; a registered tool records its start, an approval request
/// when it requires approval, and its completion, and answers with the stored
/// result or a note that it completed.
pub open spec fn tool_called(pre: InMemoryMcpRuntime, post: InMemoryMcpRuntime, invocation: McpToolInvocation, r: Result<McpToolResult, AgentError>) -> bool {
    &&& post.spec_snapshot() == pre.spec_snapshot()
    &&& post.resource_map() == pre.resource_map()
    &&& post.result_map() == pre.result_map()
    &&& pre.server(invocation.server@) is None ==> (r matches Err(AgentError::Execution { message })
            && message@ == server_missing_message(invocation.server@))
    &&& pre.server(invocation.server@) is None ==> post.spec_events() == pre.spec_events()
    &&& match pre.server(invocation.server@) {
            None => true,
            Some(sv) => match first_tool(sv.tools, invocation.tool@) {
                None => {
                    &&& r matches Err(AgentError::Execution { message })
                    &&& message@ == "MCP tool "@ + invocation.tool@ + " is not registered on "@
                        + invocation.server@
                    &&& post.spec_events() == pre.spec_events()
                },
                Some(spec) => {
                    let n: nat = if spec.requires_approval { 3 } else { 2 };
                    let ev = post.spec_events();
                    let base = pre.spec_events().len() as int;
                    &&& r is Ok
                    &&& r->Ok_0.content@ == if pre.result_map().contains_key((invocation.server@, invocation.tool@)) {
                        pre.result_map()[(invocation.server@, invocation.tool@)]
                    } else {
                        "MCP tool "@ + invocation.tool@ + " on "@ + invocation.server@ + " completed"@
                    }
                    &&& appended(pre.spec_events(), ev, n)
                    &&& ev[base] == (McpLifecycleEvent::ToolStarted {
                        call_id: None,
                        server: invocation.server,
                        tool: invocation.tool,
                    })
                    &&& spec.requires_approval ==> (ev[base + 1] matches McpLifecycleEvent::ApprovalRequested {
                        server: s,
                        tool: t,
                        question: q,
                    } && s == invocation.server && t == invocation.tool && q@ == approval_question(
                        invocation.server@,
                        invocation.tool@,
                    ))
                    &&& ev.last() == (McpLifecycleEvent::ToolCompleted {
                        call_id: None,
                        server: invocation.server,
                        tool: invocation.tool,
                        status: McpToolCallStatus::Completed,
                    })
                },
            },
        }
}

impl McpRuntime for InMemoryMcpRuntime {
    fn list_resources(&mut self, server: &str) -> (r: Result<Vec<String>, AgentError>)
        ensures
            resources_listed(*old(self), *final(self), server@, r),
    {
        InMemoryMcpRuntime::list_resources(self, server)
    }

    fn list_tools(&mut self, server: &str) -> (r: Result<Vec<McpToolSpec>, AgentError>)
        ensures
            tools_listed(*old(self), *final(self), server@, r),
    {
        InMemoryMcpRuntime::list_tools(self, server)
    }

    fn read_resource(&mut self, request: McpResourceRequest) -> (r: Result<String, AgentError>)
        ensures
            resource_read(*old(self), *final(self), request, r),
    {
        InMemoryMcpRuntime::read_resource(self, request)
    }

    fn call_tool(&mut self, invocation: McpToolInvocation) -> (r: Result<McpToolResult, AgentError>)
        ensures
            tool_called(*old(self), *final(self), invocation, r),
    {
        InMemoryMcpRuntime::call_tool(self, invocation)
    }

    fn events(&self) -> (r: Result<Vec<McpLifecycleEvent>, AgentError>)
        ensures
            r is Ok && r->Ok_0@ == self.spec_events(),
    {
        InMemoryMcpRuntime::events(self)
    }
}

} // verus!
