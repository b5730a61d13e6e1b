use yunxi_agent::agent::AgentError;
use yunxi_agent::multi_agent::{
    str_lt, AgentId, AgentMetadata, AgentStatus, InMemoryAgentRegistry,
};

fn agent(id: &str, task: &str) -> AgentMetadata {
    AgentMetadata {
        id: AgentId(id.to_string()),
        parent_id: None,
        task: task.to_string(),
        status: AgentStatus::Running,
    }
}

#[test]
fn registry_lists_agents_in_order_of_id() {
    let mut registry = InMemoryAgentRegistry::default();
    registry.insert(agent("b", "second")).unwrap();
    registry.insert(agent("a", "first")).unwrap();
    registry.insert(agent("c", "third")).unwrap();
    let ids: Vec<String> = registry
        .list()
        .unwrap()
        .into_iter()
        .map(|m| m.id.0)
        .collect();
    assert_eq!(ids, vec!["a", "b", "c"]);
}

#[test]
fn inserting_an_existing_id_replaces_it() {
    let mut registry = InMemoryAgentRegistry::new();
    registry.insert(agent("a", "old")).unwrap();
    registry.insert(agent("a", "new")).unwrap();
    let listed = registry.list().unwrap();
    assert_eq!(listed.len(), 1);
    assert_eq!(listed[0].task, "new");
}

#[test]
fn set_status_updates_one_agent() {
    let mut registry = InMemoryAgentRegistry::new();
    registry.insert(agent("a", "t")).unwrap();
    registry.insert(agent("b", "t")).unwrap();
    registry
        .set_status(&AgentId("b".to_string()), AgentStatus::Completed)
        .unwrap();
    let listed = registry.list().unwrap();
    assert_eq!(listed[0].status, AgentStatus::Running);
    assert_eq!(listed[1].status, AgentStatus::Completed);
}

#[test]
fn set_status_on_unknown_agent_is_an_error() {
    let mut registry = InMemoryAgentRegistry::new();
    assert_eq!(
        registry.set_status(&AgentId("ghost".to_string()), AgentStatus::Failed),
        Err(AgentError::Execution {
            message: "agent not found: ghost".to_string()
        })
    );
    assert!(registry.list().unwrap().is_empty());
}

#[test]
fn string_order_matches_std() {
    for (a, b) in [("a", "b"), ("ab", "a"), ("", "x"), ("x", ""), ("é", "z"), ("same", "same")] {
        assert_eq!(str_lt(a, b), a < b, "{a} < {b}");
    }
}
