//! Skills: what a `SKILL.md` file declares about itself, how skills are
//! injected and invoked, and the order in which discovered skills are listed.
use vstd::prelude::*;
use crate::multi_agent::{lex_lt, lemma_lex_le_transitive, lemma_lex_total, str_lt};
use crate::text::{lines_of, opt_view, owned, seq_starts_with, str_lines, strip_prefix, trim, trim_str};

verus! {

/// The file that describes a skill inside its directory.
pub const SKILL_FILE_NAME: &'static str = "SKILL.md";

#[derive(Clone, Debug, PartialEq, Eq)]
pub struct SkillMetadata {
    pub name: String,
    pub description: Option<String>,
    pub path: String,
}

#[derive(Clone, Debug, PartialEq, Eq)]
pub struct SkillInjection {
    pub name: String,
    pub content: String,
}

#[derive(Clone, Debug, PartialEq, Eq)]
pub struct SkillInvocation {
    pub name: String,
    pub arguments_json: Option<String>,
}

/// `s` without its leading double quotes.
pub open spec fn strip_leading_quotes(s: Seq<char>) -> Seq<char>
    decreases s.len(),
{
    if s.len() > 0 && s[0] == '"' {
        strip_leading_quotes(s.skip(1))
    } else {
        s
    }
}

/// `s` without its trailing double quotes.
pub open spec fn strip_trailing_quotes(s: Seq<char>) -> Seq<char>
    decreases s.len(),
{
    if s.len() > 0 && s.last() == '"' {
        strip_trailing_quotes(s.drop_last())
    } else {
        s
    }
}

/// A declared value: trimmed, then without the double quotes around it.
pub open spec fn declared_value(raw: Seq<char>) -> Seq<char> {
    strip_trailing_quotes(strip_leading_quotes(trim(raw)))
}

/// The name and description a skill file declares, line by line, a later line
/// overriding an earlier one; `name` is what holds before any line.
pub open spec fn declared(lines: Seq<Seq<char>>, name: Seq<char>) -> (Seq<char>, Option<Seq<char>>)
    decreases lines.len(),
{
    if lines.len() == 0 {
        (name, None)
    } else {
        let prev = declared(lines.drop_last(), name);
        let line = lines.last();
        if seq_starts_with(line, "name:"@) {
            (declared_value(line.skip(5)), prev.1)
        } else if seq_starts_with(line, "description:"@) {
            (prev.0, Some(declared_value(line.skip(12))))
        } else {
            prev
        }
    }
}

/// The declared value of `raw`; see `declared_value`.
fn declared_value_of(raw: &str) -> (r: String)
    ensures
        r@ == declared_value(raw@),
{
    let t = trim_str(raw);
    let mut a: usize = 0;
    let n = t.unicode_len();
    assert(t@.skip(0) =~= t@);
    while a < n && t.get_char(a) == '"'
        invariant
            a <= n,
            n == t@.len(),
            strip_leading_quotes(t@) == strip_leading_quotes(t@.skip(a as int)),
        decreases n - a,
    {
        proof {
            assert(t@.skip(a as int).skip(1) =~= t@.skip(a + 1));
        }
        a = a + 1;
    }
    let mut b: usize = n;
    let ghost lead = t@.skip(a as int);
    proof {
        assert(lead =~= t@.subrange(a as int, b as int));
    }
    while b > a && t.get_char(b - 1) == '"'
        invariant
            a <= b <= n,
            n == t@.len(),
            lead == t@.skip(a as int),
            strip_trailing_quotes(lead) == strip_trailing_quotes(t@.subrange(a as int, b as int)),
        decreases b,
    {
        proof {
            assert(t@.subrange(a as int, b as int).drop_last() =~= t@.subrange(
                a as int,
                b - 1,
            ));
        }
        b = b - 1;
    }
    owned(t.substring_char(a, b))
}

/// The metadata a skill file at `path` declares in `content`; before any
/// declaration the name is `default_name`.
pub fn skill_metadata_from(path: &str, default_name: &str, content: &str) -> (r: SkillMetadata)
    ensures
        r.path@ == path@,
        r.name@ == declared(lines_of(content@), default_name@).0,
        opt_view(r.description) == declared(lines_of(content@), default_name@).1,
{
    let lines = str_lines(content);
    let mut name = owned(default_name);
    let mut description: Option<String> = None;
    let mut i: usize = 0;
    while i < lines.len()
        invariant
            i <= lines@.len(),
            crate::text::string_views(lines@) == lines_of(content@),
            (name@, opt_view(description)) == declared(
                crate::text::string_views(lines@).take(i as int),
                default_name@,
            ),
        decreases lines@.len() - i,
    {
        proof {
            assert(crate::text::string_views(lines@).take(i + 1).drop_last()
                =~= crate::text::string_views(lines@).take(i as int));
            assert(crate::text::string_views(lines@).take(i + 1).last() == lines@[i as int]@);
        }
        let line = lines[i].as_str();
        match strip_prefix(line, "name:") {
            Some(value) => {
                name = declared_value_of(value);
            },
            None => {
                match strip_prefix(line, "description:") {
                    Some(value) => {
                        description = Some(declared_value_of(value));
                    },
                    None => {},
                }
            },
        }
        proof {
            reveal_strlit("name:");
            reveal_strlit("description:");
        }
        i = i + 1;
    }
    proof {
        assert(crate::text::string_views(lines@).take(i as int) =~= crate::text::string_views(
            lines@,
        ));
    }
    SkillMetadata { name, description, path: owned(path) }
}

/// `Path::file_name` as text: the last component of `path`, or `None` when it
/// ends in `..` or is a root; how a path splits depends on the platform, so
/// nothing is stated of the result.
#[verifier::external_body]
fn path_file_name(path: &str) -> (r: Option<String>) {
    match std::path::Path::new(path).file_name() {
        Some(name) => match name.to_str() {
            Some(text) => Some(text.to_string()),
            None => None,
        },
        None => None,
    }
}

/// The metadata of the skill file at `path`: before any declaration its name is
/// that of the directory holding the file, or `skill` when there is none.
pub fn parse_skill_metadata(path: &str, content: &str) -> (r: SkillMetadata)
    ensures
        r.path@ == path@,
        exists|d: Seq<char>|
            r.name@ == declared(lines_of(content@), d).0 && opt_view(r.description)
                == declared(lines_of(content@), d).1,
{
    let default_name = match crate::context::path_parent(path) {
        Some(parent) => match path_file_name(parent.as_str()) {
            Some(name) => name,
            None => owned("skill"),
        },
        None => owned("skill"),
    };
    skill_metadata_from(path, default_name.as_str(), content)
}

/// Skills in order of name, equal names keeping their order.
pub open spec fn skills_sorted(s: Seq<SkillMetadata>) -> bool {
    forall|i: int, j: int| 0 <= i < j < s.len() ==> !lex_lt(s[j].name@, s[i].name@)
}

/// The skills ordered by name; skills with equal names keep their order.
pub fn sort_skills_by_name(skills: Vec<SkillMetadata>) -> (r: Vec<SkillMetadata>)
    ensures
        skills_sorted(r@),
        r@.to_multiset() == skills@.to_multiset(),
{
    broadcast use vstd::seq_lib::group_to_multiset_ensures, vstd::multiset::group_multiset_axioms;

    let ghost given = skills@;
    let mut rest = skills;
    let mut reversed: Vec<SkillMetadata> = Vec::new();
    while rest.len() > 0
        invariant
            reversed@.to_multiset().add(rest@.to_multiset()) == given.to_multiset(),
        decreases rest@.len(),
    {
        let ghost before = rest@;
        let s = rest.pop().unwrap();
        proof {
            assert(before == rest@.push(s));
            vstd::seq_lib::to_multiset_build(rest@, s);
        }
        let ghost rev_before = reversed@;
        reversed.push(s);
        proof {
            vstd::seq_lib::to_multiset_build(rev_before, s);
            assert(reversed@.to_multiset().add(rest@.to_multiset()) =~= given.to_multiset());
        }
    }
    let mut out: Vec<SkillMetadata> = Vec::new();
    while reversed.len() > 0
        invariant
            skills_sorted(out@),
            out@.to_multiset().add(reversed@.to_multiset()) == given.to_multiset(),
        decreases reversed@.len(),
    {
        let ghost pending = reversed@;
        let item = reversed.pop().unwrap();
        proof {
            assert(pending == reversed@.push(item));
            vstd::seq_lib::to_multiset_build(reversed@, item);
        }
        let mut k = out.len();
        while k > 0 && str_lt(item.name.as_str(), out[k - 1].name.as_str())
            invariant
                k <= out@.len(),
                forall|j: int| k <= j < out@.len() ==> lex_lt(item.name@, #[trigger] out@[j].name@),
            decreases k,
        {
            k = k - 1;
        }
        let ghost before = out@;
        out.insert(k, item);
        proof {
            assert(out@ == before.insert(k as int, item));
            vstd::seq_lib::to_multiset_insert(before, k as int, item);
            assert forall|a: int, b: int| 0 <= a < b < out@.len() implies !lex_lt(
                out@[b].name@,
                out@[a].name@,
            ) by {
                if a < k && b == k {
                    if a < k - 1 {
                        lemma_lex_le_transitive(before[a].name@, before[k - 1].name@, item.name@);
                    }
                } else if a == k && b > k {
                    lemma_lex_total(item.name@, before[b - 1].name@);
                } else if a < k && b > k {
                    assert(out@[a] == before[a]);
                    assert(out@[b] == before[b - 1]);
                } else if a > k {
                    assert(out@[a] == before[a - 1]);
                    assert(out@[b] == before[b - 1]);
                }
            }
            assert(out@.to_multiset().add(reversed@.to_multiset()) =~= given.to_multiset());
        }
    }
    out
}

} // verus!
