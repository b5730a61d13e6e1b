use yunxi_agent::eval::{all_checks_passed, check_passed, count_passed, EvalCheckResult};
use yunxi_agent::mcp::{DecliningMcpRuntime, McpResourceRequest, McpToolInvocation};

#[test]
fn declining_runtime_explains_every_call() {
    let runtime = DecliningMcpRuntime;
    assert!(runtime.list_resources("s").unwrap().is_empty());
    assert!(runtime.events().unwrap().is_empty());
    assert_eq!(
        runtime
            .read_resource(McpResourceRequest {
                server: "docs".to_string(),
                uri: "file:///a".to_string(),
            })
            .unwrap(),
        "MCP resource file:///a on docs is not wired in this runtime slice"
    );
    assert_eq!(
        runtime
            .call_tool(McpToolInvocation {
                server: "docs".to_string(),
                tool: "search".to_string(),
                arguments_json: None,
            })
            .unwrap()
            .content,
        "MCP tool search on docs is not wired in this runtime slice"
    );
}

fn check(name: &str, passed: bool) -> EvalCheckResult {
    EvalCheckResult {
        check: name.to_string(),
        passed,
        detail: String::new(),
    }
}

#[test]
fn check_lookup_uses_the_first_match() {
    let checks = vec![check("a", true), check("b", false), check("a", false)];
    assert!(check_passed(&checks, "a"));
    assert!(!check_passed(&checks, "b"));
    assert!(!check_passed(&checks, "missing"));
    assert_eq!(count_passed(&checks, &["a", "b", "missing", "a"]), 2);
    assert!(!all_checks_passed(&checks));
    assert!(all_checks_passed(&vec![check("x", true)]));
}
