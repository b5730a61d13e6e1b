use yunxi_agent::context::{
    AgentsMdDocument, ContextBundle, ContextFragment, LoadedAgentsMd, DEFAULT_AGENTS_MD_FILENAME,
};

fn doc(content: &str) -> AgentsMdDocument {
    AgentsMdDocument {
        path: "AGENTS.md".to_string(),
        content: content.to_string(),
    }
}

#[test]
fn combined_instructions_join_trimmed_non_blank_sections() {
    let loaded = LoadedAgentsMd {
        documents: vec![doc(" root \n"), doc("   "), doc("child")],
        user_instructions: Some("  user rules ".to_string()),
    };
    assert_eq!(loaded.combined_instructions(), "user rules\n\nroot\n\nchild");
    assert_eq!(DEFAULT_AGENTS_MD_FILENAME, "AGENTS.md");
}

#[test]
fn combined_instructions_skip_blank_user_instructions() {
    let loaded = LoadedAgentsMd {
        documents: vec![doc("only")],
        user_instructions: Some(" \n".to_string()),
    };
    assert_eq!(loaded.combined_instructions(), "only");
    assert_eq!(LoadedAgentsMd::default().combined_instructions(), "");
}

#[test]
fn prompt_prefix_adds_named_fragments() {
    let bundle = ContextBundle {
        agents_md: LoadedAgentsMd {
            documents: vec![doc("rules")],
            user_instructions: None,
        },
        fragments: vec![
            ContextFragment {
                name: "git".to_string(),
                content: " clean \n".to_string(),
            },
            ContextFragment {
                name: "empty".to_string(),
                content: "  ".to_string(),
            },
        ],
    };
    assert_eq!(bundle.prompt_prefix(), "rules\n\ngit:\nclean");
    let only_fragment = ContextBundle {
        agents_md: LoadedAgentsMd::default(),
        fragments: vec![ContextFragment {
            name: "n".to_string(),
            content: "c".to_string(),
        }],
    };
    assert_eq!(only_fragment.prompt_prefix(), "n:\nc");
}
