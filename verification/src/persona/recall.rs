//! The parts of memory recall that decide by kind and text: which memory kinds
//! a query calls up, recall request shapes and routes.
use vstd::prelude::*;
use crate::persona::memory::MemoryKind;
use crate::text::{ascii_lower, ascii_lower_chars, chars_of, contains_chars, owned, seq_contains, str_views};

verus! {

/// Some needle occurs in `value` as written, or lowercased in the lowercased value.
pub open spec fn mentions_any(value: Seq<char>, needles: Seq<Seq<char>>) -> bool {
    exists|i: int|
        0 <= i < needles.len() && (seq_contains(value, #[trigger] needles[i]) || seq_contains(
            ascii_lower(value),
            ascii_lower(needles[i]),
        ))
}

pub open spec fn project_words() -> Seq<Seq<char>> {
    seq!["项目"@, "仓库"@, "代码"@, "源码"@, "workspace"@, "repo"@, "project"@]
}

pub open spec fn personal_words() -> Seq<Seq<char>> {
    seq!["我"@, "我的"@, "个人"@, "偏好"@, "profile"@, "me"@, "my"@]
}

pub open spec fn goal_words() -> Seq<Seq<char>> {
    seq!["目标"@, "计划"@, "下一步"@, "goal"@, "plan"@]
}

pub open spec fn rule_words() -> Seq<Seq<char>> {
    seq!["要求"@, "约束"@, "不要"@, "纠正"@, "rule"@, "constraint"@]
}

pub open spec fn feeling_words() -> Seq<Seq<char>> {
    seq!["关系"@, "情绪"@, "感受"@, "relationship"@, "emotion"@]
}

/// Whether a query calls up memories of this kind by topic: project memory
/// when both mention the project, personal facts, goals, corrections and
/// feelings when the query asks about them; preferences and events never.
pub open spec fn kind_triggered(kind: MemoryKind, query: Seq<char>, content: Seq<char>) -> bool {
    match kind {
        MemoryKind::ProjectContext | MemoryKind::ToolTraceSummary => mentions_any(
            query,
            project_words(),
        ) && mentions_any(content, project_words()),
        MemoryKind::PersonalFact => mentions_any(query, personal_words()),
        MemoryKind::Goal => mentions_any(query, goal_words()),
        MemoryKind::Correction => mentions_any(query, rule_words()),
        MemoryKind::RelationshipNote | MemoryKind::EmotionalState => mentions_any(
            query,
            feeling_words(),
        ),
        MemoryKind::Preference | MemoryKind::Event => false,
    }
}

/// Whether any needle occurs in `value`, as written or ASCII-lowercased on both sides.
pub fn contains_any(value: &str, needles: &[&str]) -> (r: bool)
    ensures
        r == mentions_any(value@, str_views(needles@)),
{
    let v = chars_of(value);
    let lower = ascii_lower_chars(value);
    let mut i: usize = 0;
    while i < needles.len()
        invariant
            v@ == value@,
            lower@ == ascii_lower(value@),
            i <= needles@.len(),
            forall|k: int|
                0 <= k < i ==> !(seq_contains(value@, #[trigger] str_views(needles@)[k])
                    || seq_contains(ascii_lower(value@), ascii_lower(str_views(needles@)[k]))),
        decreases needles@.len() - i,
    {
        let n = chars_of(needles[i]);
        let nl = ascii_lower_chars(needles[i]);
        assert(str_views(needles@)[i as int] == needles@[i as int]@);
        if contains_chars(v.as_slice(), n.as_slice()) || contains_chars(lower.as_slice(), nl.as_slice()) {
            return true;
        }
        i = i + 1;
    }
    false
}

fn check(value: &str, needles: &[&str], spec_needles: Ghost<Seq<Seq<char>>>) -> (r: bool)
    requires
        str_views(needles@) == spec_needles@,
    ensures
        r == mentions_any(value@, spec_needles@),
{
    contains_any(value, needles)
}

pub fn kind_trigger_matches(kind: MemoryKind, query: &str, content: &str) -> (r: bool)
    ensures
        r == kind_triggered(kind, query@, content@),
{
    let project = ["项目", "仓库", "代码", "源码", "workspace", "repo", "project"];
    let personal = ["我", "我的", "个人", "偏好", "profile", "me", "my"];
    let goal = ["目标", "计划", "下一步", "goal", "plan"];
    let rule = ["要求", "约束", "不要", "纠正", "rule", "constraint"];
    let feeling = ["关系", "情绪", "感受", "relationship", "emotion"];
    proof {
        assert(str_views(project@) =~= project_words());
        assert(str_views(personal@) =~= personal_words());
        assert(str_views(goal@) =~= goal_words());
        assert(str_views(rule@) =~= rule_words());
        assert(str_views(feeling@) =~= feeling_words());
    }
    match kind {
        MemoryKind::ProjectContext | MemoryKind::ToolTraceSummary => check(
            query,
            &project,
            Ghost(project_words()),
        ) && check(content, &project, Ghost(project_words())),
        MemoryKind::PersonalFact => check(query, &personal, Ghost(personal_words())),
        MemoryKind::Goal => check(query, &goal, Ghost(goal_words())),
        MemoryKind::Correction => check(query, &rule, Ghost(rule_words())),
        MemoryKind::RelationshipNote | MemoryKind::EmotionalState => check(
            query,
            &feeling,
            Ghost(feeling_words()),
        ),
        MemoryKind::Preference | MemoryKind::Event => false,
    }
}

/// Where recall placed a memory.
#[derive(Clone, Copy, Debug, PartialEq, Eq, Structural)]
pub enum MemoryRecallRoute {
    Boot,
    Dynamic,
    DroppedDuplicate,
    DroppedUnrelated,
    DroppedBudget,
    DroppedInvalid,
}

/// A request to the recall router: the query, the workspace, and the budgets of
/// the boot context and of per-turn dynamic recall.
#[derive(Clone, Debug, PartialEq, Eq)]
pub struct MemoryRecallRouterRequest {
    pub query: String,
    pub workspace_fingerprint: Option<String>,
    pub boot_budget_chars: usize,
    pub dynamic_budget_chars: usize,
    pub boot_max_records: usize,
    pub dynamic_max_records: usize,
}

impl MemoryRecallRouterRequest {
    pub fn new(query: &str) -> (r: MemoryRecallRouterRequest)
        ensures
            r.query@ == query@,
            r.workspace_fingerprint is None,
            r.boot_budget_chars == 1000,
            r.dynamic_budget_chars == 1200,
            r.boot_max_records == 6,
            r.dynamic_max_records == 8,
    {
        MemoryRecallRouterRequest {
            query: owned(query),
            workspace_fingerprint: None,
            boot_budget_chars: 1000,
            dynamic_budget_chars: 1200,
            boot_max_records: 6,
            dynamic_max_records: 8,
        }
    }
}

} // verus!
