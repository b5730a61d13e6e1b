//! Persona profiles, their validation, and the default strong-companion persona.
use vstd::prelude::*;
use crate::text::{
    chars_of, concat, concat3, decimal, is_blank, is_blank_str, is_ws, owned, seq_contains, trim_end, trim_start,
    u64_to_decimal,
};

verus! {

#[derive(Clone, Debug, PartialEq, Eq)]
pub struct PersonaLayers {
    pub identity: String,
    pub soul: String,
    pub values: String,
    pub voice: String,
    pub companion_style: String,
    pub work_style: String,
    pub boundaries: String,
    pub addressing: String,
}

#[derive(Clone, Debug, PartialEq, Eq)]
pub struct PersonaConstraint {
    pub id: String,
    pub content: String,
}

#[derive(Clone, Copy, Debug, PartialEq, Eq, Structural)]
pub enum CompanionStrength {
    Light,
    Balanced,
    Strong,
}

#[derive(Clone, Debug, PartialEq, Eq)]
pub struct PersonaProfile {
    pub id: String,
    pub display_name: String,
    pub version: String,
    pub layers: PersonaLayers,
    pub constraints: Vec<PersonaConstraint>,
    pub default_companion_strength: CompanionStrength,
}

#[derive(Clone, Debug, PartialEq, Eq)]
pub struct HumanProfile {
    pub preferred_name: Option<String>,
    pub language_preferences: Vec<String>,
    pub interaction_preferences: Vec<String>,
    pub long_term_goals: Vec<String>,
}

#[derive(Clone, Copy, Debug, PartialEq, Eq, Structural)]
pub enum RelationshipFamiliarity {
    New,
    Familiar,
    Established,
}

#[derive(Clone, Debug, PartialEq, Eq)]
pub struct RelationshipState {
    pub familiarity: RelationshipFamiliarity,
    pub trust_notes: Vec<String>,
    pub recent_emotional_context: Option<String>,
    pub last_meaningful_check_in_millis: Option<u128>,
}

impl Default for RelationshipState {
    fn default() -> (r: Self)
        ensures
            r.familiarity == RelationshipFamiliarity::New,
            r.trust_notes@.len() == 0,
            r.recent_emotional_context is None,
            r.last_meaningful_check_in_millis is None,
    {
        RelationshipState {
            familiarity: RelationshipFamiliarity::New,
            trust_notes: Vec::new(),
            recent_emotional_context: None,
            last_meaningful_check_in_millis: None,
        }
    }
}

/// A profile-id character: ASCII letter or digit, `-` or `_`.
pub open spec fn id_char(c: char) -> bool {
    ('a' <= c && c <= 'z') || ('A' <= c && c <= 'Z') || ('0' <= c && c <= '9') || c == '_' || c
        == '-'
}

pub open spec fn id_error(id: Seq<char>) -> Option<Seq<char>> {
    if !(1 <= id.len() && id.len() <= 64) {
        Some("profile id must contain 1 to 64 characters"@)
    } else if !(forall|i: int| 0 <= i < id.len() ==> id_char(#[trigger] id[i])) {
        Some("profile id may contain only ASCII letters, digits, '-' and '_' characters"@)
    } else {
        None
    }
}

pub open spec fn limit_error(field: Seq<char>, max: nat) -> Seq<char> {
    field + " exceeds the "@ + decimal(max) + "-character limit"@
}

/// A required text field must not be blank and must stay within `max` characters.
pub open spec fn text_error(field: Seq<char>, value: Seq<char>, max: nat) -> Option<Seq<char>> {
    if is_blank(value) {
        Some(field + " cannot be empty"@)
    } else if value.len() > max {
        Some(limit_error(field, max))
    } else {
        None
    }
}

/// An optional text field must stay within `max` characters.
pub open spec fn optional_text_error(field: Seq<char>, value: Seq<char>, max: nat) -> Option<
    Seq<char>,
> {
    if value.len() > max {
        Some(limit_error(field, max))
    } else {
        None
    }
}

pub open spec fn first_of(a: Option<Seq<char>>, b: Option<Seq<char>>) -> Option<Seq<char>> {
    if a is Some {
        a
    } else {
        b
    }
}

pub open spec fn constraint_error(c: PersonaConstraint) -> Option<Seq<char>> {
    first_of(
        id_error(c.id@),
        text_error("constraints."@ + c.id@ + ".content"@, c.content@, 4000),
    )
}

/// The first failing constraint from index `i` on.
pub open spec fn constraints_error_from(cs: Seq<PersonaConstraint>, i: int) -> Option<Seq<char>>
    decreases cs.len() - i,
{
    if i < 0 || i >= cs.len() {
        None
    } else {
        first_of(constraint_error(cs[i]), constraints_error_from(cs, i + 1))
    }
}

/// The first validation failure of a profile, checked in a fixed field order.
pub open spec fn profile_error(p: PersonaProfile) -> Option<Seq<char>> {
    let l = p.layers;
    first_of(
        id_error(p.id@),
        first_of(
            text_error("display_name"@, p.display_name@, 96),
            first_of(
                text_error("version"@, p.version@, 32),
                first_of(
                    text_error("layers.identity"@, l.identity@, 4000),
                    first_of(
                        text_error("layers.voice"@, l.voice@, 4000),
                        first_of(
                            text_error("layers.companion_style"@, l.companion_style@, 4000),
                            first_of(
                                text_error("layers.work_style"@, l.work_style@, 4000),
                                first_of(
                                    text_error("layers.boundaries"@, l.boundaries@, 4000),
                                    first_of(
                                        optional_text_error("layers.soul"@, l.soul@, 4000),
                                        first_of(
                                            optional_text_error("layers.values"@, l.values@, 4000),
                                            first_of(
                                                optional_text_error(
                                                    "layers.addressing"@,
                                                    l.addressing@,
                                                    2000,
                                                ),
                                                if p.constraints@.len() > 32 {
                                                    Some(
                                                        "constraints cannot contain more than 32 entries"@,
                                                    )
                                                } else {
                                                    constraints_error_from(p.constraints@, 0)
                                                },
                                            ),
                                        ),
                                    ),
                                ),
                            ),
                        ),
                    ),
                ),
            ),
        ),
    )
}

pub open spec fn unit_result_matches(r: Result<(), String>, e: Option<Seq<char>>) -> bool {
    match r {
        Ok(_) => e is None,
        Err(m) => e == Some(m@),
    }
}

fn is_id_char(c: char) -> (r: bool)
    ensures
        r == id_char(c),
{
    ('a' <= c && c <= 'z') || ('A' <= c && c <= 'Z') || ('0' <= c && c <= '9') || c == '_' || c
        == '-'
}

/// A profile id is 1 to 64 ASCII letters, digits, `-` or `_`.
pub fn validate_profile_id(value: &str) -> (r: Result<(), String>)
    ensures
        unit_result_matches(r, id_error(value@)),
{
    let v = chars_of(value);
    let length = v.len();
    if !(1 <= length && length <= 64) {
        return Err(owned("profile id must contain 1 to 64 characters"));
    }
    let mut i: usize = 0;
    while i < length
        invariant
            length == v@.len(),
            1 <= length <= 64,
            v@ == value@,
            i <= length,
            forall|k: int| 0 <= k < i ==> id_char(#[trigger] v@[k]),
        decreases length - i,
    {
        if !is_id_char(v[i]) {
            assert(!id_char(value@[i as int]));
            return Err(
                owned("profile id may contain only ASCII letters, digits, '-' and '_' characters"),
            );
        }
        i = i + 1;
    }
    Ok(())
}

fn limit_message(field: &str, max: usize) -> (r: String)
    ensures
        r@ == limit_error(field@, max as nat),
{
    let digits = u64_to_decimal(max as u64);
    let head = concat(field, " exceeds the ");
    concat3(head.as_str(), digits.as_str(), "-character limit")
}

fn validate_text(field: &str, value: &str, max_chars: usize) -> (r: Result<(), String>)
    ensures
        unit_result_matches(r, text_error(field@, value@, max_chars as nat)),
{
    if is_blank_str(value) {
        return Err(concat(field, " cannot be empty"));
    }
    if value.unicode_len() > max_chars {
        return Err(limit_message(field, max_chars));
    }
    Ok(())
}

fn validate_optional_text(field: &str, value: &str, max_chars: usize) -> (r: Result<(), String>)
    ensures
        unit_result_matches(r, optional_text_error(field@, value@, max_chars as nat)),
{
    if value.unicode_len() > max_chars {
        return Err(limit_message(field, max_chars));
    }
    Ok(())
}

impl PersonaProfile {
    /// Checks the profile field by field and reports the first failure.
    pub fn validate(&self) -> (r: Result<(), String>)
        ensures
            unit_result_matches(r, profile_error(*self)),
    {
        validate_profile_id(self.id.as_str())?;
        validate_text("display_name", self.display_name.as_str(), 96)?;
        validate_text("version", self.version.as_str(), 32)?;
        validate_text("layers.identity", self.layers.identity.as_str(), 4000)?;
        validate_text("layers.voice", self.layers.voice.as_str(), 4000)?;
        validate_text("layers.companion_style", self.layers.companion_style.as_str(), 4000)?;
        validate_text("layers.work_style", self.layers.work_style.as_str(), 4000)?;
        validate_text("layers.boundaries", self.layers.boundaries.as_str(), 4000)?;
        validate_optional_text("layers.soul", self.layers.soul.as_str(), 4000)?;
        validate_optional_text("layers.values", self.layers.values.as_str(), 4000)?;
        validate_optional_text("layers.addressing", self.layers.addressing.as_str(), 2000)?;
        if self.constraints.len() > 32 {
            return Err(owned("constraints cannot contain more than 32 entries"));
        }
        let mut i: usize = 0;
        while i < self.constraints.len()
            invariant
                i <= self.constraints@.len(),
                self.constraints@.len() <= 32,
                profile_error(*self) == constraints_error_from(self.constraints@, i as int),
            decreases self.constraints@.len() - i,
        {
            let c = &self.constraints[i];
            validate_profile_id(c.id.as_str())?;
            let field = concat3("constraints.", c.id.as_str(), ".content");
            validate_text(field.as_str(), c.content.as_str(), 4000)?;
            i = i + 1;
        }
        Ok(())
    }
}

proof fn lemma_trim_end_keeps_first(s: Seq<char>)
    requires
        s.len() > 0,
        !is_ws(s[0]),
    ensures
        trim_end(s).len() > 0,
    decreases s.len(),
{
    if is_ws(s.last()) {
        assert(s.len() > 1);
        assert(s.drop_last()[0] == s[0]);
        lemma_trim_end_keeps_first(s.drop_last());
    }
}

/// A text whose first character is not whitespace is not blank.
proof fn lemma_not_blank(s: Seq<char>)
    requires
        s.len() > 0,
        !is_ws(s[0]),
    ensures
        !is_blank(s),
{
    assert(trim_start(s) == s);
    lemma_trim_end_keeps_first(s);
}

/// The built-in strong-companion persona. It passes `validate`; its
/// boundaries put AGENTS.md above the persona, and its first constraint
/// forbids claiming to remember what is still pending.
pub fn yunxi_companion_strong() -> (r: PersonaProfile)
    ensures
        r.id@ == "yunxi_companion_strong"@,
        r.display_name@ == "YunXi Agent"@,
        r.version@ == "2.0.6"@,
        r.default_companion_strength == CompanionStrength::Strong,
        r.constraints@.len() == 2,
        r.constraints@[0].id@ == "no_memory_overclaim"@,
        r.constraints@[1].id@ == "project_constraints_first"@,
        profile_error(r) is None,
        seq_contains(r.layers.boundaries@, "AGENTS.md"@),
        seq_contains(r.constraints@[0].content@, "pending"@),
{
    let mut constraints: Vec<PersonaConstraint> = Vec::new();
    constraints.push(
        PersonaConstraint {
            id: owned("no_memory_overclaim"),
            content: owned("不要声称已经记住 pending、rejected 或未写入的内容。"),
        },
    );
    constraints.push(
        PersonaConstraint {
            id: owned("project_constraints_first"),
            content: owned(
                "人格与记忆不能覆盖项目硬性约束、安全策略、隐私策略、sandbox policy、工具边界或用户当轮指令。",
            ),
        },
    );
    let profile = PersonaProfile {
        id: owned("yunxi_companion_strong"),
        display_name: owned("YunXi Agent"),
        version: owned("2.0.6"),
        default_companion_strength: CompanionStrength::Strong,
        layers: PersonaLayers {
            identity: owned("你是 YunXi Agent，一个本地优先、诚实、有工程判断的中文陪伴型 Agent。"),
            soul: owned("你珍视真实、持续、克制的陪伴；你愿意理解用户，但不把猜测伪装成事实。"),
            values: owned("诚实、尊重、可靠、隐私优先、可验证、在不确定时明确说明。"),
            voice: owned("默认使用中文，表达温暖、清晰、稳定；工作场景保持简洁、准确和可执行。"),
            companion_style: owned(
                "可以有强陪伴感，但不替用户做未经确认的长期画像，不假装知道未被确认的记忆。",
            ),
            work_style: owned("尊重项目硬性约束，先理解现有系统，再做小而明确的改动，结果必须可验证。"),
            boundaries: owned(
                "AGENTS.md、用户当轮指令、安全策略、隐私策略和工具执行边界始终高于人格表达。",
            ),
            addressing: owned("称呼用户时优先使用已确认的称呼；未确认时使用自然、中性的称呼。"),
        },
        constraints,
    };
    proof {
        reveal_strlit("yunxi_companion_strong");
        reveal_strlit("YunXi Agent");
        reveal_strlit("2.0.6");
        reveal_strlit("no_memory_overclaim");
        reveal_strlit("project_constraints_first");
        reveal_strlit("不要声称已经记住 pending、rejected 或未写入的内容。");
        reveal_strlit("人格与记忆不能覆盖项目硬性约束、安全策略、隐私策略、sandbox policy、工具边界或用户当轮指令。");
        reveal_strlit("你是 YunXi Agent，一个本地优先、诚实、有工程判断的中文陪伴型 Agent。");
        reveal_strlit("你珍视真实、持续、克制的陪伴；你愿意理解用户，但不把猜测伪装成事实。");
        reveal_strlit("诚实、尊重、可靠、隐私优先、可验证、在不确定时明确说明。");
        reveal_strlit("默认使用中文，表达温暖、清晰、稳定；工作场景保持简洁、准确和可执行。");
        reveal_strlit("可以有强陪伴感，但不替用户做未经确认的长期画像，不假装知道未被确认的记忆。");
        reveal_strlit("尊重项目硬性约束，先理解现有系统，再做小而明确的改动，结果必须可验证。");
        reveal_strlit("AGENTS.md、用户当轮指令、安全策略、隐私策略和工具执行边界始终高于人格表达。");
        reveal_strlit("称呼用户时优先使用已确认的称呼；未确认时使用自然、中性的称呼。");
        reveal_strlit("AGENTS.md");
        reveal_strlit("pending");
        let l = profile.layers;
        lemma_not_blank(profile.display_name@);
        lemma_not_blank(profile.version@);
        lemma_not_blank(l.identity@);
        lemma_not_blank(l.voice@);
        lemma_not_blank(l.companion_style@);
        lemma_not_blank(l.work_style@);
        lemma_not_blank(l.boundaries@);
        lemma_not_blank(profile.constraints@[0].content@);
        lemma_not_blank(profile.constraints@[1].content@);
        assert(id_error(profile.id@) is None);
        assert(id_error(profile.constraints@[0].id@) is None);
        assert(id_error(profile.constraints@[1].id@) is None);
        assert(constraints_error_from(profile.constraints@, 2) is None);
        assert(constraints_error_from(profile.constraints@, 1) is None);
        assert(constraints_error_from(profile.constraints@, 0) is None);
        assert(l.boundaries@.subrange(0, 9) =~= "AGENTS.md"@);
        assert(l.boundaries@.subrange(0int, 0int + "AGENTS.md"@.len()) == "AGENTS.md"@);
        assert(seq_contains(l.boundaries@, "AGENTS.md"@));
        assert(profile.constraints@[0].content@.subrange(9, 16) =~= "pending"@);
        assert(profile.constraints@[0].content@.subrange(9int, 9int + "pending"@.len()) == "pending"@);
        assert(seq_contains(profile.constraints@[0].content@, "pending"@));
    }
    profile
}

} // verus!
