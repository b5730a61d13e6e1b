//! Rule-based detection of memory candidates in a user prompt.
use vstd::prelude::*;
use crate::persona::memory::MemoryKind;
use crate::text::{
    ascii_lower, ascii_lower_chars, bound_chars, bounded_text, chars_of, concat, contains_chars,
    owned, seq_contains, trim, trim_str,
};

verus! {

/// A detected memory: its kind, the text to remember, and the rule that fired.
pub type DetectedMemory = (MemoryKind, String, String);

pub open spec fn detected_view(d: DetectedMemory) -> (MemoryKind, Seq<char>, Seq<char>) {
    (d.0, d.1@, d.2@)
}

pub open spec fn future_chinese_preference(v: Seq<char>) -> bool {
    seq_contains(v, "以后"@) && (seq_contains(v, "中文"@) || seq_contains(v, "说中文"@))
}

pub open spec fn direct_chinese_preference(v: Seq<char>) -> bool {
    seq_contains(v, "说中文"@) || seq_contains(v, "用中文"@)
}

pub open spec fn future_english_preference(v: Seq<char>, lower: Seq<char>) -> bool {
    (seq_contains(v, "英文"@) || seq_contains(v, "英语"@) || seq_contains(lower, "english"@)) && (
    seq_contains(v, "以后"@) || seq_contains(lower, "from now on"@) || seq_contains(
        lower,
        "by default"@,
    ))
}

pub open spec fn direct_english_preference(v: Seq<char>, lower: Seq<char>) -> bool {
    seq_contains(v, "说英文"@) || seq_contains(v, "用英文"@) || seq_contains(v, "说英语"@)
        || seq_contains(v, "用英语"@) || seq_contains(lower, "answer in english"@) || seq_contains(
        lower,
        "reply in english"@,
    ) || seq_contains(lower, "respond in english"@) || seq_contains(lower, "use english"@)
        || seq_contains(lower, "english please"@)
}

pub open spec fn when(c: bool, item: (MemoryKind, Seq<char>, Seq<char>)) -> Seq<
    (MemoryKind, Seq<char>, Seq<char>),
> {
    if c {
        seq![item]
    } else {
        Seq::empty()
    }
}

/// The memories a prompt calls for, in rule order, judged on the trimmed prompt.
pub open spec fn detected_memories(prompt: Seq<char>) -> Seq<(MemoryKind, Seq<char>, Seq<char>)> {
    let t = trim(prompt);
    let lower = ascii_lower(t);
    if t.len() == 0 {
        Seq::empty()
    } else {
        when(
            future_chinese_preference(t),
            (MemoryKind::Preference, "用户偏好后续默认使用中文交流。"@, "rule:language-preference"@),
        ) + when(
            direct_chinese_preference(t),
            (MemoryKind::Preference, "用户偏好使用中文回答。"@, "rule:language-preference-direct"@),
        ) + when(
            future_english_preference(t, lower),
            (MemoryKind::Preference, "用户偏好后续默认使用英文交流。"@, "rule:language-preference"@),
        ) + when(
            direct_english_preference(t, lower),
            (MemoryKind::Preference, "用户偏好使用英文回答。"@, "rule:language-preference-direct"@),
        ) + when(
            seq_contains(t, "不要"@) || seq_contains(lower, "do not"@),
            (
                MemoryKind::Correction,
                "用户纠正/限制："@ + bounded_text(t, 160),
                "rule:correction"@,
            ),
        ) + when(
            seq_contains(t, "硬性要求"@) || seq_contains(t, "硬约束"@),
            (
                MemoryKind::ProjectContext,
                "项目硬性约束："@ + bounded_text(t, 180),
                "rule:project-hard-constraint"@,
            ),
        ) + when(
            seq_contains(t, "我的"@) || seq_contains(lower, "my "@),
            (
                MemoryKind::PersonalFact,
                "用户自述事实候选："@ + bounded_text(t, 160),
                "rule:self-disclosure"@,
            ),
        )
    }
}

fn has(v: &[char], needle: &str) -> (r: bool)
    ensures
        r == seq_contains(v@, needle@),
{
    let n = chars_of(needle);
    contains_chars(v, n.as_slice())
}

pub fn is_future_chinese_language_preference(value: &str) -> (r: bool)
    ensures
        r == future_chinese_preference(value@),
{
    let v = chars_of(value);
    has(v.as_slice(), "以后") && (has(v.as_slice(), "中文") || has(v.as_slice(), "说中文"))
}

pub fn is_direct_chinese_language_preference(value: &str) -> (r: bool)
    ensures
        r == direct_chinese_preference(value@),
{
    let v = chars_of(value);
    has(v.as_slice(), "说中文") || has(v.as_slice(), "用中文")
}

pub fn is_future_english_language_preference(value: &str, lower: &str) -> (r: bool)
    ensures
        r == future_english_preference(value@, lower@),
{
    let v = chars_of(value);
    let l = chars_of(lower);
    (has(v.as_slice(), "英文") || has(v.as_slice(), "英语") || has(l.as_slice(), "english")) && (
    has(v.as_slice(), "以后") || has(l.as_slice(), "from now on") || has(
        l.as_slice(),
        "by default",
    ))
}

pub fn is_direct_english_language_preference(value: &str, lower: &str) -> (r: bool)
    ensures
        r == direct_english_preference(value@, lower@),
{
    let v = chars_of(value);
    let l = chars_of(lower);
    has(v.as_slice(), "说英文") || has(v.as_slice(), "用英文") || has(v.as_slice(), "说英语") || has(
        v.as_slice(),
        "用英语",
    ) || has(l.as_slice(), "answer in english") || has(l.as_slice(), "reply in english") || has(
        l.as_slice(),
        "respond in english",
    ) || has(l.as_slice(), "use english") || has(l.as_slice(), "english please")
}

fn push_when(
    out: &mut Vec<DetectedMemory>,
    c: bool,
    kind: MemoryKind,
    content: String,
    reason: &str,
)
    ensures
        final(out)@.map_values(|d: DetectedMemory| detected_view(d)) == old(out)@.map_values(
            |d: DetectedMemory| detected_view(d),
        ) + when(c, (kind, content@, reason@)),
{
    let ghost before = out@.map_values(|d: DetectedMemory| detected_view(d));
    if c {
        out.push((kind, content, owned(reason)));
        assert(out@.map_values(|d: DetectedMemory| detected_view(d)) =~= before + when(
            c,
            (kind, content@, reason@),
        ));
    } else {
        assert(out@.map_values(|d: DetectedMemory| detected_view(d)) =~= before + when(
            c,
            (kind, content@, reason@),
        ));
    }
}

/// The memory candidates a prompt calls for; see `detected_memories`.
pub fn detect_prompt_memories(prompt: &str) -> (r: Vec<DetectedMemory>)
    ensures
        r@.map_values(|d: DetectedMemory| detected_view(d)) == detected_memories(prompt@),
{
    let trimmed = trim_str(prompt);
    let mut out: Vec<DetectedMemory> = Vec::new();
    if trimmed.unicode_len() == 0 {
        assert(out@.map_values(|d: DetectedMemory| detected_view(d)) =~= Seq::empty());
        return out;
    }
    let lower_v = ascii_lower_chars(trimmed);
    let lower = crate::text::string_from_chars(lower_v.as_slice());
    let t = chars_of(trimmed);
    assert(out@.map_values(|d: DetectedMemory| detected_view(d)) =~= Seq::empty());
    push_when(
        &mut out,
        is_future_chinese_language_preference(trimmed),
        MemoryKind::Preference,
        owned("用户偏好后续默认使用中文交流。"),
        "rule:language-preference",
    );
    push_when(
        &mut out,
        is_direct_chinese_language_preference(trimmed),
        MemoryKind::Preference,
        owned("用户偏好使用中文回答。"),
        "rule:language-preference-direct",
    );
    push_when(
        &mut out,
        is_future_english_language_preference(trimmed, lower.as_str()),
        MemoryKind::Preference,
        owned("用户偏好后续默认使用英文交流。"),
        "rule:language-preference",
    );
    push_when(
        &mut out,
        is_direct_english_language_preference(trimmed, lower.as_str()),
        MemoryKind::Preference,
        owned("用户偏好使用英文回答。"),
        "rule:language-preference-direct",
    );
    let correction = has(t.as_slice(), "不要") || has(lower_v.as_slice(), "do not");
    push_when(
        &mut out,
        correction,
        MemoryKind::Correction,
        concat("用户纠正/限制：", bound_chars(trimmed, 160).as_str()),
        "rule:correction",
    );
    let hard = has(t.as_slice(), "硬性要求") || has(t.as_slice(), "硬约束");
    push_when(
        &mut out,
        hard,
        MemoryKind::ProjectContext,
        concat("项目硬性约束：", bound_chars(trimmed, 180).as_str()),
        "rule:project-hard-constraint",
    );
    let personal = has(t.as_slice(), "我的") || has(lower_v.as_slice(), "my ");
    push_when(
        &mut out,
        personal,
        MemoryKind::PersonalFact,
        concat("用户自述事实候选：", bound_chars(trimmed, 160).as_str()),
        "rule:self-disclosure",
    );
    proof {
        let e = detected_memories(prompt@);
        assert(out@.map_values(|d: DetectedMemory| detected_view(d)) =~= e);
    }
    out
}

} // verus!
