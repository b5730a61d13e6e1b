use yunxi_agent::skills::{
    parse_skill_metadata, skill_metadata_from, sort_skills_by_name, SkillMetadata,
    SKILL_FILE_NAME,
};

#[test]
fn discovers_skill_metadata() {
    let skill = skill_metadata_from(
        "skills/example/SKILL.md",
        "example",
        "---\nname: example\ndescription: test skill\n---\n",
    );
    assert_eq!(skill.name, "example");
    assert_eq!(skill.description.as_deref(), Some("test skill"));
    assert_eq!(SKILL_FILE_NAME, "SKILL.md");
}

#[test]
fn declared_values_lose_quotes_and_later_lines_win() {
    let skill = skill_metadata_from(
        "p",
        "dir",
        "name: \"first\"\nname:   second  \ndescription: \"quoted\"",
    );
    assert_eq!(skill.name, "second");
    assert_eq!(skill.description.as_deref(), Some("quoted"));
    let plain = skill_metadata_from("p", "dir", "nothing here");
    assert_eq!(plain.name, "dir");
    assert_eq!(plain.description, None);
}

#[test]
fn skill_name_defaults_to_its_directory() {
    let skill = parse_skill_metadata("skills/formatter/SKILL.md", "no header");
    assert_eq!(skill.name, "formatter");
    assert_eq!(skill.path, "skills/formatter/SKILL.md");
}

#[test]
fn skills_sort_by_name_keeping_ties_in_order() {
    let make = |name: &str, path: &str| SkillMetadata {
        name: name.to_string(),
        description: None,
        path: path.to_string(),
    };
    let sorted = sort_skills_by_name(vec![make("b", "1"), make("a", "2"), make("b", "3")]);
    let paths: Vec<&str> = sorted.iter().map(|s| s.path.as_str()).collect();
    assert_eq!(paths, vec!["2", "1", "3"]);
}
