use yunxi_agent::agent::AgentError;
use yunxi_agent::patch::{
    check_relative_path, is_json_patch, operations_from_json, parse_apply_patch, updated_content,
    validate_relative_path, write_change_kind, ParsedPatchOperation, PatchFileChangeKind,
    PatchOperation, PathPart,
};

fn message(error: AgentError) -> String {
    match error {
        AgentError::Execution { message } => message,
        other => panic!("unexpected error {other:?}"),
    }
}

#[test]
fn applies_codex_style_add_file_patch() {
    let ops = parse_apply_patch("*** Begin Patch\n*** Add File: notes.txt\n+hello\n*** End Patch")
        .expect("patch");
    assert_eq!(
        ops,
        vec![ParsedPatchOperation::Write {
            path: "notes.txt".to_string(),
            content: "hello\n".to_string()
        }]
    );
    assert_eq!(write_change_kind(false), PatchFileChangeKind::Added);
}

#[test]
fn update_sections_collect_removed_and_added_lines() {
    let ops = parse_apply_patch(
        "*** Begin Patch\n*** Update File: a.rs\n@@ fn main\n context\n-old line\n+new line\n*** Delete File: b.rs\n*** End Patch\n",
    )
    .expect("patch");
    assert_eq!(
        ops,
        vec![
            ParsedPatchOperation::Update {
                path: "a.rs".to_string(),
                old: "old line\n".to_string(),
                new: "new line\n".to_string()
            },
            ParsedPatchOperation::Delete {
                path: "b.rs".to_string()
            }
        ]
    );
}

#[test]
fn patch_errors_name_the_problem() {
    assert_eq!(
        message(parse_apply_patch("hello").unwrap_err()),
        "apply_patch input must start with *** Begin Patch"
    );
    assert_eq!(
        message(parse_apply_patch("*** Begin Patch\n*** Add File: x\n+y").unwrap_err()),
        "apply_patch input is missing *** End Patch"
    );
    assert_eq!(
        message(parse_apply_patch("*** Begin Patch\nbogus\n*** End Patch").unwrap_err()),
        "unsupported apply_patch line: bogus"
    );
}

#[test]
fn crlf_lines_are_accepted() {
    let ops = parse_apply_patch("*** Begin Patch\r\n*** Delete File: x\r\n*** End Patch\r\n")
        .expect("patch");
    assert_eq!(
        ops,
        vec![ParsedPatchOperation::Delete {
            path: "x".to_string()
        }]
    );
}

#[test]
fn json_patches_are_detected_by_their_first_character() {
    assert!(is_json_patch("  {\"op\":\"delete\"}"));
    assert!(is_json_patch("[]"));
    assert!(!is_json_patch("*** Begin Patch"));
    assert!(!is_json_patch("   "));
    let ops = operations_from_json(vec![PatchOperation::Delete {
        path: "a".to_string(),
    }]);
    assert_eq!(
        ops,
        vec![ParsedPatchOperation::Delete {
            path: "a".to_string()
        }]
    );
}

#[test]
fn path_checks_refuse_escapes() {
    assert_eq!(
        message(check_relative_path("/etc", true, &vec![PathPart::RootDir]).unwrap_err()),
        "patch path must be relative: /etc"
    );
    assert_eq!(
        message(
            check_relative_path("../x", false, &vec![PathPart::ParentDir, PathPart::Normal])
                .unwrap_err()
        ),
        "patch path cannot escape workspace: ../x"
    );
    assert_eq!(
        check_relative_path("src/a.rs", false, &vec![PathPart::Normal, PathPart::Normal]),
        Ok("src/a.rs".to_string())
    );
    assert_eq!(validate_relative_path("src/a.rs"), Ok("src/a.rs".to_string()));
    assert!(validate_relative_path("../escape").is_err());
}

#[test]
fn update_replaces_first_occurrence_or_appends() {
    assert_eq!(
        updated_content("a b a", "a", "X", "f").unwrap(),
        "X b a".to_string()
    );
    assert_eq!(updated_content("abc", "", "d", "f").unwrap(), "abcd");
    assert_eq!(
        message(updated_content("abc", "zz", "d", "f.txt").unwrap_err()),
        "patch update target content was not found in f.txt"
    );
}

#[test]
fn escaping_patch_paths_are_always_refused() {
    for path in ["..", "../x", "a/../b", "a/..", "/etc/passwd", "/"] {
        assert!(validate_relative_path(path).is_err(), "{path}");
    }
    assert_eq!(validate_relative_path("a/..b/c"), Ok("a/..b/c".to_string()));
}
