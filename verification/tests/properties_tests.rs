use yunxi_agent::multi_agent::{AgentId, AgentMetadata, AgentStatus, InMemoryAgentRegistry};
use yunxi_agent::persona::profile::yunxi_companion_strong;
use yunxi_agent::persona::settings::PersonaSettings;
use yunxi_agent::provider::{ProviderRetryPolicy, ProviderSseDecoder, ProviderStreamChunk};
use yunxi_agent::runtime::json_string;
use yunxi_agent::sandbox::within_resolved;

#[test]
fn every_server_failure_is_retried() {
    let policy = ProviderRetryPolicy::new(3);
    for status in [408u16, 409, 429, 500, 501, 502, 503, 504, 505, 599] {
        assert!(policy.should_retry_status(status, 0), "status {status}");
        assert!(!policy.should_retry_status(status, 2), "status {status} after the last attempt");
    }
    for status in [200u16, 400, 401, 404, 499, 600] {
        assert!(!policy.should_retry_status(status, 0), "status {status}");
    }
}

#[test]
fn unresolved_paths_are_outside_the_workspace() {
    let ok = |s: &str| Ok::<String, String>(s.to_string());
    let err = || Err::<String, String>("missing".to_string());
    assert!(!within_resolved(&err(), &ok("/work/src")));
    assert!(!within_resolved(&ok("/work"), &err()));
    assert!(within_resolved(&ok("/work"), &ok("/work")));
    assert!(within_resolved(&ok("/work"), &ok("/work/src")));
    assert!(!within_resolved(&ok("/work"), &ok("/workspace")));
    assert!(!within_resolved(&ok("/work/src"), &ok("/work")));
    assert!(!within_resolved(&ok("/work"), &ok("/")));
}

#[test]
fn the_default_persona_validates_and_keeps_its_boundaries() {
    let profile = yunxi_companion_strong();
    assert_eq!(profile.validate(), Ok(()));
    assert!(profile.layers.boundaries.contains("AGENTS.md"));
    assert!(profile
        .constraints
        .iter()
        .any(|c| c.id == "no_memory_overclaim" && c.content.contains("pending")));
}

#[test]
fn settings_read_back_what_they_write() {
    for (persona, memory, profile) in [(true, false, "yunxi_companion_strong"), (false, true, "custom profile")] {
        let settings = PersonaSettings {
            persona_enabled: persona,
            memory_enabled: memory,
            active_profile: profile.to_string(),
        };
        assert_eq!(PersonaSettings::parse_lossy(&settings.to_config_string()), settings);
    }
    assert_eq!(PersonaSettings::parse_lossy(""), PersonaSettings::default());
}

fn decode_in_pieces(pieces: &[&str]) -> Vec<ProviderStreamChunk> {
    let mut decoder = ProviderSseDecoder::new();
    let mut out = Vec::new();
    for piece in pieces {
        out.extend(decoder.push_chunk(piece).unwrap());
    }
    out.extend(decoder.finish().unwrap());
    out
}

#[test]
fn sse_decoding_ignores_where_the_stream_is_cut() {
    let stream = "data: one\n\n: note\ndata: two\ndata: [DONE]\ndata: par";
    let whole = decode_in_pieces(&[stream]);
    assert_eq!(
        whole,
        vec![
            ProviderStreamChunk::Data { value: "one".to_string() },
            ProviderStreamChunk::Comment { value: "note".to_string() },
            ProviderStreamChunk::Data { value: "two".to_string() },
            ProviderStreamChunk::Done,
            ProviderStreamChunk::Data { value: "par".to_string() },
        ]
    );
    assert_eq!(decode_in_pieces(&["da", "ta: one\n", "\n: no", "te\ndata: two\nd", "ata: [DONE]\ndata: par"]), whole);
    let single: Vec<String> = stream.chars().map(|c| c.to_string()).collect();
    let single: Vec<&str> = single.iter().map(|s| s.as_str()).collect();
    assert_eq!(decode_in_pieces(&single), whole);
}

#[test]
fn json_string_escapes_as_serde_json_does() {
    for value in ["plain", "quote \" and \\ slash /", "tab\tline\ncr\r", "\u{8}\u{c}\u{1}\u{1f}\u{7f}", "中文 ✓", ""] {
        assert_eq!(json_string(value), serde_json::to_string(value).unwrap(), "{value:?}");
    }
}

fn agent(id: &str, status: AgentStatus) -> AgentMetadata {
    AgentMetadata {
        id: AgentId(id.to_string()),
        parent_id: None,
        task: format!("task {id}"),
        status,
    }
}

#[test]
fn registry_listing_replaces_and_updates_in_place() {
    let mut registry = InMemoryAgentRegistry::new();
    registry.insert(agent("b", AgentStatus::Running)).unwrap();
    registry.insert(agent("a", AgentStatus::Running)).unwrap();
    registry.insert(agent("b", AgentStatus::Failed)).unwrap();
    assert_eq!(
        registry.list().unwrap(),
        vec![agent("a", AgentStatus::Running), agent("b", AgentStatus::Failed)]
    );
    registry.set_status(&AgentId("a".to_string()), AgentStatus::Completed).unwrap();
    assert_eq!(
        registry.list().unwrap(),
        vec![agent("a", AgentStatus::Completed), agent("b", AgentStatus::Failed)]
    );
    assert!(registry.set_status(&AgentId("c".to_string()), AgentStatus::Completed).is_err());
    assert_eq!(registry.list().unwrap().len(), 2);
}
