//! Privacy classification of memory text and the write policy for candidates.
use vstd::prelude::*;
use crate::persona::memory::{MemoryKind, MemorySensitivity};
use crate::text::{
    ascii_lower, ascii_lower_chars, chars_of, contains_any, contains_any_chars, str_views,
};

verus! {

#[derive(Clone, Copy, Debug, PartialEq, Eq, Structural)]
pub enum MemoryWritePolicy {
    Auto,
    RequireConfirmation,
    Discard,
    Disabled,
}

/// Markers of credentials, looked for in ASCII-lowercased text.
pub open spec fn secret_markers() -> Seq<Seq<char>> {
    seq![
        "api key"@,
        "apikey"@,
        "authorization:"@,
        "bearer "@,
        "password"@,
        "token"@,
        "secret"@,
        "sk-"@,
        "github_pat_"@,
        "ghp_"@,
    ]
}

/// English markers of sensitive personal topics, looked for in lowercased text.
pub open spec fn sensitive_english_markers() -> Seq<Seq<char>> {
    seq!["health"@, "medical"@, "finance"@, "bank"@, "emotion"@, "relationship"@]
}

/// Chinese markers of sensitive personal topics, looked for in the text as written.
pub open spec fn sensitive_chinese_markers() -> Seq<Seq<char>> {
    seq!["情绪"@, "关系"@, "健康"@, "财务"@, "身份证"@, "银行卡"@]
}

pub open spec fn has_secret(content: Seq<char>) -> bool {
    contains_any(ascii_lower(content), secret_markers())
}

pub open spec fn has_sensitive_topic(content: Seq<char>) -> bool {
    contains_any(ascii_lower(content), sensitive_english_markers()) || contains_any(
        content,
        sensitive_chinese_markers(),
    )
}

/// Credentials make text highly sensitive, personal topics moderately.
pub open spec fn sensitivity_of(content: Seq<char>) -> MemorySensitivity {
    if has_secret(content) {
        MemorySensitivity::High
    } else if has_sensitive_topic(content) {
        MemorySensitivity::Medium
    } else {
        MemorySensitivity::Low
    }
}

fn contains_secret_marker(lowered: &[char]) -> (r: bool)
    ensures
        r == contains_any(lowered@, secret_markers()),
{
    let needles = [
        "api key",
        "apikey",
        "authorization:",
        "bearer ",
        "password",
        "token",
        "secret",
        "sk-",
        "github_pat_",
        "ghp_",
    ];
    proof {
        reveal_strlit("api key");
        reveal_strlit("apikey");
        reveal_strlit("authorization:");
        reveal_strlit("bearer ");
        reveal_strlit("password");
        reveal_strlit("token");
        reveal_strlit("secret");
        reveal_strlit("sk-");
        reveal_strlit("github_pat_");
        reveal_strlit("ghp_");
        assert(str_views(needles@) =~= secret_markers());
    }
    contains_any_chars(lowered, &needles)
}

fn contains_sensitive_profile_marker(content: &[char], lowered: &[char]) -> (r: bool)
    ensures
        r == (contains_any(lowered@, sensitive_english_markers()) || contains_any(
            content@,
            sensitive_chinese_markers(),
        )),
{
    let english = ["health", "medical", "finance", "bank", "emotion", "relationship"];
    let chinese = ["情绪", "关系", "健康", "财务", "身份证", "银行卡"];
    proof {
        reveal_strlit("health");
        reveal_strlit("medical");
        reveal_strlit("finance");
        reveal_strlit("bank");
        reveal_strlit("emotion");
        reveal_strlit("relationship");
        reveal_strlit("情绪");
        reveal_strlit("关系");
        reveal_strlit("健康");
        reveal_strlit("财务");
        reveal_strlit("身份证");
        reveal_strlit("银行卡");
        assert(str_views(english@) =~= sensitive_english_markers());
        assert(str_views(chinese@) =~= sensitive_chinese_markers());
    }
    contains_any_chars(lowered, &english) || contains_any_chars(content, &chinese)
}

#[derive(Clone, Debug)]
pub struct MemoryPrivacyClassifier;

impl MemoryPrivacyClassifier {
    pub fn classify(&self, content: &str) -> (r: MemorySensitivity)
        ensures
            r == sensitivity_of(content@),
    {
        let lowered = ascii_lower_chars(content);
        if contains_secret_marker(lowered.as_slice()) {
            return MemorySensitivity::High;
        }
        let chars = chars_of(content);
        if contains_sensitive_profile_marker(chars.as_slice(), lowered.as_slice()) {
            return MemorySensitivity::Medium;
        }
        MemorySensitivity::Low
    }

    pub fn contains_secret(&self, content: &str) -> (r: bool)
        ensures
            r == has_secret(content@),
    {
        let lowered = ascii_lower_chars(content);
        contains_secret_marker(lowered.as_slice())
    }
}

/// The write policy for a memory candidate: nothing is written while memory is
/// off, credentials are discarded, sensitive text and personal kinds wait for
/// confirmation, and low-risk preferences, corrections and project context are
/// saved automatically.
pub open spec fn write_policy(
    kind: MemoryKind,
    sensitivity: MemorySensitivity,
    content: Seq<char>,
    memory_enabled: bool,
) -> MemoryWritePolicy {
    if !memory_enabled {
        MemoryWritePolicy::Disabled
    } else if has_secret(content) {
        MemoryWritePolicy::Discard
    } else if sensitivity != MemorySensitivity::Low {
        MemoryWritePolicy::RequireConfirmation
    } else if kind == MemoryKind::Preference || kind == MemoryKind::Correction || kind
        == MemoryKind::ProjectContext {
        MemoryWritePolicy::Auto
    } else {
        MemoryWritePolicy::RequireConfirmation
    }
}

#[derive(Clone, Debug)]
pub struct MemoryWritePolicyEngine {
    classifier: MemoryPrivacyClassifier,
}

impl MemoryWritePolicyEngine {
    pub fn new() -> (r: MemoryWritePolicyEngine) {
        MemoryWritePolicyEngine { classifier: MemoryPrivacyClassifier }
    }

    pub fn policy_for(
        &self,
        kind: MemoryKind,
        sensitivity: MemorySensitivity,
        content: &str,
        memory_enabled: bool,
    ) -> (r: MemoryWritePolicy)
        ensures
            r == write_policy(kind, sensitivity, content@, memory_enabled),
    {
        if !memory_enabled {
            return MemoryWritePolicy::Disabled;
        }
        if self.classifier.contains_secret(content) {
            return MemoryWritePolicy::Discard;
        }
        match sensitivity {
            MemorySensitivity::High => MemoryWritePolicy::RequireConfirmation,
            MemorySensitivity::Medium => MemoryWritePolicy::RequireConfirmation,
            MemorySensitivity::Low => match kind {
                MemoryKind::Preference | MemoryKind::Correction | MemoryKind::ProjectContext => {
                    MemoryWritePolicy::Auto
                },
                _ => MemoryWritePolicy::RequireConfirmation,
            },
        }
    }

    pub fn classify_content(&self, content: &str) -> (r: MemorySensitivity)
        ensures
            r == sensitivity_of(content@),
    {
        self.classifier.classify(content)
    }
}

/// Text that holds a credential marker is never written automatically, and is
/// discarded whenever memory is on.
pub proof fn law_secrets_never_auto_saved(
    kind: MemoryKind,
    sensitivity: MemorySensitivity,
    content: Seq<char>,
    memory_enabled: bool,
)
    requires
        has_secret(content),
    ensures
        write_policy(kind, sensitivity, content, memory_enabled) != MemoryWritePolicy::Auto,
        memory_enabled ==> write_policy(kind, sensitivity, content, memory_enabled)
            == MemoryWritePolicy::Discard,
{
}

/// With memory off, nothing is ever written.
pub proof fn law_memory_off_disables_writes(
    kind: MemoryKind,
    sensitivity: MemorySensitivity,
    content: Seq<char>,
)
    ensures
        write_policy(kind, sensitivity, content, false) == MemoryWritePolicy::Disabled,
{
}

/// Text the classifier rates as anything but low sensitivity is never saved
/// automatically.
pub proof fn law_sensitive_text_needs_confirmation(kind: MemoryKind, content: Seq<char>, memory_enabled: bool)
    requires
        sensitivity_of(content) != MemorySensitivity::Low,
    ensures
        write_policy(kind, sensitivity_of(content), content, memory_enabled)
            != MemoryWritePolicy::Auto,
{
}

} // verus!
