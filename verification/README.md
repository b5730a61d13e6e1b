# yunxi_agent

The decision logic of the YunXi agent, written in Verus: the functions in
`src/` carry contracts that Verus proves, and the properties that span
several functions are proved as laws (`law_*` proof functions). The few
functions that only ask the host (its file system, its path separator)
state what holds of every answer, or nothing where no answer can
be ruled out.

## Layout

- `src/agent.rs`, `src/runtime.rs`, `src/turn.rs`: agent configuration, events
  and results; the runtime turn loop that asks a provider, routes and runs
  tools and records events; the mapping of protocol streams onto agent events.
- `src/provider.rs`, `src/request.rs`, `src/openai.rs`, `src/json.rs`,
  `src/transport.rs`: provider requests and responses, server-sent-event
  decoding, retries, the chat-completions request body and HTTP request,
  configuration from the environment, OpenAI-compatible response and stream
  parsing, JSON values, the header checks before a request is sent and the
  report of a failed exchange.
- `src/protocol.rs`, `src/tools.rs`, `src/patch.rs`, `src/exec.rs`,
  `src/sandbox.rs`, `src/skills.rs`, `src/mcp.rs`, `src/multi_agent.rs`,
  `src/context.rs`, `src/keyed.rs`: protocol items, tool events, patch
  parsing, command execution summaries, sandbox policy, skills, MCP runtimes,
  child-agent registry, AGENTS.md context, key-ordered lists.
- `src/companion.rs`, `src/persona/`: the proactive companion planner and the
  memory privacy and write policies.
- `src/cli/`: the command line's decisions: terminal mode, slash commands,
  the interactive session's state, the control commands, rendering, the
  terminal UI log, the web console, exit codes, and the runtime event stream
  that a run is reported as (each agent event mapped onto protocol events,
  the thread and turn opened once).
- `tests/`: executable tests of the library.
- `app/`: the `yunxi` command line around the library: argument parsing,
  terminals (plain lines, or a full-screen view drawn with ratatui), files,
  environment variables, JSON files, and HTTPS requests to a live provider
  with reqwest.

Outside calls (`serde_json` parsing, reqwest's header
name and value parsing, path queries, `{:?}` text) sit behind small trusted
wrappers whose doc comments say what each one claims.
