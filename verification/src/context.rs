//! Project context: the AGENTS.md documents found from the filesystem root down
//! to the working directory, user instructions, named context fragments, and
//! how they combine into the instructions placed before a prompt.
use vstd::prelude::*;
use crate::agent::AgentError;
use crate::sandbox::canonicalize_path;
use crate::text::{
    concat, concat3, is_blank, is_blank_str, join_strings, join_with, seq_starts_with, string_views, trim, trimmed,
};

verus! {

/// The file name of project instructions.
pub const DEFAULT_AGENTS_MD_FILENAME: &'static str = "AGENTS.md";

#[derive(Clone, Debug, PartialEq, Eq)]
pub struct AgentsMdDocument {
    pub path: String,
    pub content: String,
}

#[derive(Clone, Debug, PartialEq, Eq)]
pub struct LoadedAgentsMd {
    pub documents: Vec<AgentsMdDocument>,
    pub user_instructions: Option<String>,
}

#[derive(Clone, Debug, PartialEq, Eq)]
pub struct ContextFragment {
    pub name: String,
    pub content: String,
}

#[derive(Clone, Debug, PartialEq, Eq)]
pub struct ContextBundle {
    pub agents_md: LoadedAgentsMd,
    pub fragments: Vec<ContextFragment>,
}

/// The trimmed, non-blank document contents, in order.
pub open spec fn document_sections(docs: Seq<AgentsMdDocument>) -> Seq<Seq<char>>
    decreases docs.len(),
{
    if docs.len() == 0 {
        Seq::empty()
    } else {
        let rest = document_sections(docs.drop_last());
        if is_blank(docs.last().content@) {
            rest
        } else {
            rest.push(trim(docs.last().content@))
        }
    }
}

/// The instruction sections: the user's instructions when not blank, then
/// each non-blank document, all trimmed.
pub open spec fn instruction_sections(loaded: LoadedAgentsMd) -> Seq<Seq<char>> {
    let user: Seq<Seq<char>> = match loaded.user_instructions {
        Some(u) => if is_blank(u@) {
            Seq::empty()
        } else {
            seq![trim(u@)]
        },
        None => Seq::empty(),
    };
    user + document_sections(loaded.documents@)
}

/// The combined instructions: the sections separated by blank lines.
pub open spec fn combined_instructions_text(loaded: LoadedAgentsMd) -> Seq<char> {
    join_with(instruction_sections(loaded), "\n\n"@)
}

/// Each non-blank fragment as its name, a colon, a line feed and its trimmed
/// content.
pub open spec fn fragment_sections(fragments: Seq<ContextFragment>) -> Seq<Seq<char>>
    decreases fragments.len(),
{
    if fragments.len() == 0 {
        Seq::empty()
    } else {
        let rest = fragment_sections(fragments.drop_last());
        let f = fragments.last();
        if is_blank(f.content@) {
            rest
        } else {
            rest.push(f.name@ + ":\n"@ + trim(f.content@))
        }
    }
}

/// The prompt prefix: the combined instructions when not empty, then the
/// fragments, separated by blank lines.
pub open spec fn prompt_prefix_text(bundle: ContextBundle) -> Seq<char> {
    let agents = combined_instructions_text(bundle.agents_md);
    let head: Seq<Seq<char>> = if agents.len() == 0 {
        Seq::empty()
    } else {
        seq![agents]
    };
    join_with(head + fragment_sections(bundle.fragments@), "\n\n"@)
}

impl LoadedAgentsMd {
    pub fn new(documents: Vec<AgentsMdDocument>, user_instructions: Option<String>) -> (r:
        LoadedAgentsMd)
        ensures
            r == (LoadedAgentsMd { documents, user_instructions }),
    {
        LoadedAgentsMd { documents, user_instructions }
    }

    /// The user's instructions and every document, trimmed, blank ones left
    /// out, separated by blank lines.
    pub fn combined_instructions(&self) -> (r: String)
        ensures
            r@ == combined_instructions_text(*self),
    {
        let mut sections: Vec<String> = Vec::new();
        match &self.user_instructions {
            Some(user) => {
                if !is_blank_str(user.as_str()) {
                    sections.push(trimmed(user.as_str()));
                }
            },
            None => {},
        }
        let ghost head = string_views(sections@);
        let mut i: usize = 0;
        while i < self.documents.len()
            invariant
                i <= self.documents@.len(),
                string_views(sections@) == head + document_sections(
                    self.documents@.take(i as int),
                ),
            decreases self.documents@.len() - i,
        {
            proof {
                assert(self.documents@.take(i + 1).drop_last() =~= self.documents@.take(
                    i as int,
                ));
            }
            let content = self.documents[i].content.as_str();
            assert(self.documents@.take(i + 1).last() == self.documents@[i as int]);
            if !is_blank_str(content) {
                let ghost old_views = string_views(sections@);
                sections.push(trimmed(content));
                proof {
                    assert(string_views(sections@) =~= old_views.push(trim(content@)));
                    assert(string_views(sections@) =~= head + document_sections(
                        self.documents@.take(i + 1),
                    ));
                }
            }
            i = i + 1;
        }
        proof {
            assert(self.documents@.take(i as int) =~= self.documents@);
            assert(string_views(sections@) =~= instruction_sections(*self));
        }
        join_strings(&sections, "\n\n")
    }
}

impl Default for LoadedAgentsMd {
    fn default() -> (r: Self)
        ensures
            r.documents@.len() == 0,
            r.user_instructions is None,
    {
        LoadedAgentsMd { documents: Vec::new(), user_instructions: None }
    }
}

impl ContextBundle {
    pub fn new(agents_md: LoadedAgentsMd, fragments: Vec<ContextFragment>) -> (r: ContextBundle)
        ensures
            r == (ContextBundle { agents_md, fragments }),
    {
        ContextBundle { agents_md, fragments }
    }

    /// The combined instructions (when not empty) and each non-blank fragment
    /// as `name:` and its trimmed content, separated by blank lines.
    pub fn prompt_prefix(&self) -> (r: String)
        ensures
            r@ == prompt_prefix_text(*self),
    {
        let mut parts: Vec<String> = Vec::new();
        let agents = self.agents_md.combined_instructions();
        if agents.unicode_len() > 0 {
            parts.push(agents);
        }
        let ghost head = string_views(parts@);
        proof {
            assert(head =~= if combined_instructions_text(self.agents_md).len() == 0 {
                Seq::<Seq<char>>::empty()
            } else {
                seq![combined_instructions_text(self.agents_md)]
            });
        }
        let mut i: usize = 0;
        while i < self.fragments.len()
            invariant
                i <= self.fragments@.len(),
                string_views(parts@) == head + fragment_sections(self.fragments@.take(i as int)),
            decreases self.fragments@.len() - i,
        {
            proof {
                assert(self.fragments@.take(i + 1).drop_last() =~= self.fragments@.take(
                    i as int,
                ));
            }
            let fragment = &self.fragments[i];
            assert(self.fragments@.take(i + 1).last() == self.fragments@[i as int]);
            if !is_blank_str(fragment.content.as_str()) {
                let body = trimmed(fragment.content.as_str());
                let ghost old_views = string_views(parts@);
                let part = concat3(fragment.name.as_str(), ":\n", body.as_str());
                parts.push(part);
                proof {
                    assert(string_views(parts@) =~= old_views.push(part@));
                    assert(string_views(parts@) =~= head + fragment_sections(
                        self.fragments@.take(i + 1),
                    ));
                }
            }
            i = i + 1;
        }
        proof {
            assert(self.fragments@.take(i as int) =~= self.fragments@);
        }
        join_strings(&parts, "\n\n")
    }
}

/// `a` is `b` cut short: a strict beginning of it.
pub open spec fn strict_prefix(a: Seq<char>, b: Seq<char>) -> bool {
    a.len() < b.len() && seq_starts_with(b, a)
}

/// `Path::parent`: `path` without its last component, or `None` at a root or
/// for an empty path. The parent is the path's own text cut short, a strict
/// beginning of `path`; where the cut falls depends on how the platform splits
/// a path into components, so that is not stated.
#[verifier::external_body]
pub(crate) fn path_parent(path: &str) -> (r: Option<String>)
    ensures
        r is Some ==> strict_prefix(r->0@, path@),
{
    match std::path::Path::new(path).parent() {
        Some(parent) => Some(parent.display().to_string()),
        None => None,
    }
}

/// The directories from the filesystem root down to `cwd` once resolved on
/// disk, the resolved `cwd` last; each is the parent of the one after it, so a
/// strict beginning of it.
pub fn ancestor_directories(cwd: &str) -> (r: Result<Vec<String>, AgentError>)
    ensures
        r is Ok ==> r->Ok_0@.len() >= 1 && forall|i: int|
            0 <= i < r->Ok_0@.len() - 1 ==> strict_prefix(
                (#[trigger] r->Ok_0@[i])@,
                r->Ok_0@[i + 1]@,
            ),
        r is Err ==> (r->Err_0 matches AgentError::Execution { message } && seq_starts_with(
            message@,
            "failed to canonicalize "@ + cwd@ + ": "@,
        )),
{
    let canonical = match canonicalize_path(cwd) {
        Ok(path) => path,
        Err(error) => {
            let head = concat3("failed to canonicalize ", cwd, ": ");
            let message = concat(head.as_str(), error.as_str());
            assert(message@.subrange(0, head@.len() as int) =~= head@);
            return Err(AgentError::Execution { message });
        },
    };
    let mut upward: Vec<String> = Vec::new();
    let mut current = canonical;
    loop
        invariant_except_break
            forall|i: int|
                0 <= i < upward@.len() - 1 ==> strict_prefix((#[trigger] upward@[i + 1])@, upward@[i]@),
            upward@.len() > 0 ==> strict_prefix(current@, upward@[upward@.len() - 1]@),
        ensures
            upward@.len() >= 1,
            forall|i: int|
                0 <= i < upward@.len() - 1 ==> strict_prefix((#[trigger] upward@[i + 1])@, upward@[i]@),
        decreases current@.len(),
    {
        let parent = path_parent(current.as_str());
        upward.push(current);
        match parent {
            Some(p) => {
                current = p;
            },
            None => {
                break;
            },
        }
    }
    let mut ordered: Vec<String> = Vec::new();
    let mut k = upward.len();
    while k > 0
        invariant
            k <= upward@.len(),
            upward@.len() >= 1,
            forall|i: int|
                0 <= i < upward@.len() - 1 ==> strict_prefix((#[trigger] upward@[i + 1])@, upward@[i]@),
            ordered@.len() == upward@.len() - k,
            forall|j: int| 0 <= j < ordered@.len() ==> #[trigger] ordered@[j] == upward@[upward@.len() - 1 - j],
        decreases k,
    {
        k = k - 1;
        ordered.push(upward[k].clone());
    }
    proof {
        assert forall|i: int| 0 <= i < ordered@.len() - 1 implies strict_prefix(
            (#[trigger] ordered@[i])@,
            ordered@[i + 1]@,
        ) by {
            assert(ordered@[i] == upward@[upward@.len() - 1 - i]);
            assert(ordered@[i + 1] == upward@[upward@.len() - 1 - (i + 1)]);
            assert(upward@[(upward@.len() - 1 - (i + 1)) + 1] == upward@[upward@.len() - 1 - i]);
        }
    }
    Ok(ordered)
}

impl Default for ContextBundle {
    fn default() -> (r: Self)
        ensures
            r.agents_md.documents@.len() == 0,
            r.agents_md.user_instructions is None,
            r.fragments@.len() == 0,
    {
        ContextBundle { agents_md: LoadedAgentsMd::default(), fragments: Vec::new() }
    }
}

} // verus!
