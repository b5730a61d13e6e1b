//! Patches: the `*** Begin Patch` text format, the constrained JSON operations,
//! path validation, and how an update section rewrites a file's content.
use vstd::prelude::*;
use crate::agent::AgentError;
use crate::persona::settings::slice_range;
use crate::text::{
    chars_of, concat, owned, matches_at, seq_contains, seq_ends_with, seq_starts_with, starts_with, str_eq,
    str_lines, string_from_chars, string_views, strip_prefix, lines_of, trim, trim_str,
};

verus! {

#[derive(Clone, Debug, PartialEq, Eq)]
pub struct PatchReport {
    pub changed_files: Vec<PatchFileChange>,
}

#[derive(Clone, Debug, PartialEq, Eq)]
pub struct PatchFileChange {
    pub path: String,
    pub kind: PatchFileChangeKind,
}

#[derive(Clone, Copy, Debug, PartialEq, Eq, Structural)]
pub enum PatchFileChangeKind {
    Added,
    Updated,
    Deleted,
}

/// An operation of the constrained JSON patch format.
#[derive(Clone, Debug, PartialEq, Eq)]
pub enum PatchOperation {
    Write { path: String, content: String },
    Delete { path: String },
}

/// An operation a patch asks for.
#[derive(Clone, Debug, PartialEq, Eq)]
pub enum ParsedPatchOperation {
    Write { path: String, content: String },
    Delete { path: String },
    Update { path: String, old: String, new: String },
}

/// An operation by value.
pub enum PatchOpView {
    Write { path: Seq<char>, content: Seq<char> },
    Delete { path: Seq<char> },
    Update { path: Seq<char>, old: Seq<char>, new: Seq<char> },
}

pub open spec fn op_view(op: ParsedPatchOperation) -> PatchOpView {
    match op {
        ParsedPatchOperation::Write { path, content } => PatchOpView::Write {
            path: path@,
            content: content@,
        },
        ParsedPatchOperation::Delete { path } => PatchOpView::Delete { path: path@ },
        ParsedPatchOperation::Update { path, old, new } => PatchOpView::Update {
            path: path@,
            old: old@,
            new: new@,
        },
    }
}

pub open spec fn op_views(ops: Seq<ParsedPatchOperation>) -> Seq<PatchOpView> {
    ops.map_values(|op: ParsedPatchOperation| op_view(op))
}

// ---------------------------------------------------------------------------
// The apply_patch text format
// ---------------------------------------------------------------------------

pub open spec fn begin_marker() -> Seq<char> {
    "*** Begin Patch"@
}

pub open spec fn end_marker() -> Seq<char> {
    "*** End Patch"@
}

pub open spec fn add_header() -> Seq<char> {
    "*** Add File: "@
}

pub open spec fn delete_header() -> Seq<char> {
    "*** Delete File: "@
}

pub open spec fn update_header() -> Seq<char> {
    "*** Update File: "@
}

/// A line that opens a new section (and so ends a body).
pub open spec fn is_section_line(line: Seq<char>) -> bool {
    seq_starts_with(line, "*** "@)
}

/// How many lines the body at the start of `ls` spans: up to the next section
/// line.
pub open spec fn block_len(ls: Seq<Seq<char>>) -> nat
    decreases ls.len(),
{
    if ls.len() == 0 || is_section_line(ls[0]) {
        0
    } else {
        1 + block_len(ls.skip(1))
    }
}

/// `line` without one leading `c`, if it has one.
pub open spec fn strip_lead(line: Seq<char>, c: char) -> Seq<char> {
    if line.len() > 0 && line[0] == c {
        line.skip(1)
    } else {
        line
    }
}

/// The content an added file gets from the first `n` body lines: each line
/// without its leading `+`, ended by a line feed.
pub open spec fn added_text(ls: Seq<Seq<char>>, n: int) -> Seq<char>
    decreases n,
{
    if n <= 0 {
        Seq::empty()
    } else {
        added_text(ls, n - 1) + strip_lead(ls[n - 1], '+') + "\n"@
    }
}

/// A hunk header or end-of-file marker, which an update body skips.
pub open spec fn is_hunk_marker(line: Seq<char>) -> bool {
    seq_starts_with(line, "@@"@) || line == "*** End of File"@
}

/// What the first `n` lines of an update body remove (the `-` lines) or add
/// (the `+` lines), each without its sign and ended by a line feed.
pub open spec fn signed_text(ls: Seq<Seq<char>>, n: int, sign: char) -> Seq<char>
    decreases n,
{
    if n <= 0 {
        Seq::empty()
    } else {
        let l = ls[n - 1];
        let piece: Seq<char> = if !is_hunk_marker(l) && l.len() > 0 && l[0] == sign {
            l.skip(1) + "\n"@
        } else {
            Seq::empty()
        };
        signed_text(ls, n - 1, sign) + piece
    }
}

/// Puts `op` before the operations of `rest`, or passes its error on.
pub open spec fn prepend_op(op: PatchOpView, rest: Result<Seq<PatchOpView>, Seq<char>>) -> Result<
    Seq<PatchOpView>,
    Seq<char>,
> {
    match rest {
        Ok(ops) => Ok(seq![op] + ops),
        Err(e) => Err(e),
    }
}

/// A body spans no more lines than there are.
pub proof fn lemma_block_len_bound(ls: Seq<Seq<char>>)
    ensures
        block_len(ls) <= ls.len(),
    decreases ls.len(),
{
    if ls.len() > 0 && !is_section_line(ls[0]) {
        lemma_block_len_bound(ls.skip(1));
    }
}

/// The operations of the sections in `ls` up to the end marker, or the
/// message of the first error: a missing end marker, or a line that opens no
/// known section.
pub open spec fn parse_sections(ls: Seq<Seq<char>>) -> Result<Seq<PatchOpView>, Seq<char>>
    decreases ls.len(),
{
    if ls.len() == 0 {
        Err("apply_patch input is missing *** End Patch"@)
    } else {
        let line = ls[0];
        let rest = ls.skip(1);
        if line == end_marker() {
            Ok(Seq::empty())
        } else if seq_starts_with(line, add_header()) {
            proof {
                lemma_block_len_bound(rest);
            }
            let n = block_len(rest);
            prepend_op(
                PatchOpView::Write {
                    path: line.skip(add_header().len() as int),
                    content: added_text(rest, n as int),
                },
                parse_sections(rest.skip(n as int)),
            )
        } else if seq_starts_with(line, delete_header()) {
            prepend_op(
                PatchOpView::Delete { path: line.skip(delete_header().len() as int) },
                parse_sections(rest),
            )
        } else if seq_starts_with(line, update_header()) {
            proof {
                lemma_block_len_bound(rest);
            }
            let n = block_len(rest);
            prepend_op(
                PatchOpView::Update {
                    path: line.skip(update_header().len() as int),
                    old: signed_text(rest, n as int, '-'),
                    new: signed_text(rest, n as int, '+'),
                },
                parse_sections(rest.skip(n as int)),
            )
        } else {
            Err("unsupported apply_patch line: "@ + line)
        }
    }
}

/// What an apply_patch text asks for: after the begin marker, its sections.
pub open spec fn apply_patch_result(patch: Seq<char>) -> Result<Seq<PatchOpView>, Seq<char>> {
    let ls = lines_of(patch);
    if ls.len() == 0 || ls[0] != begin_marker() {
        Err("apply_patch input must start with *** Begin Patch"@)
    } else {
        parse_sections(ls.skip(1))
    }
}

/// Operations already read, followed by the outcome of the rest.
pub open spec fn after_ops(done: Seq<PatchOpView>, rest: Result<Seq<PatchOpView>, Seq<char>>) -> Result<
    Seq<PatchOpView>,
    Seq<char>,
> {
    match rest {
        Ok(ops) => Ok(done + ops),
        Err(e) => Err(e),
    }
}

/// A result by value: the operations, or the error message.
pub open spec fn parse_outcome(r: Result<Vec<ParsedPatchOperation>, AgentError>) -> Result<
    Seq<PatchOpView>,
    Seq<char>,
> {
    match r {
        Ok(ops) => Ok(op_views(ops@)),
        Err(AgentError::Execution { message }) => Err(message@),
        Err(_) => Err(Seq::empty()),
    }
}

/// `s` without one leading `c`, if it has one.
fn strip_lead_char(s: &str, c: char) -> (r: &str)
    ensures
        r@ == strip_lead(s@, c),
{
    let n = s.unicode_len();
    if n > 0 && s.get_char(0) == c {
        s.substring_char(1, n)
    } else {
        s
    }
}

/// Whether `s` starts with `c`.
fn starts_with_char(s: &str, c: char) -> (r: bool)
    ensures
        r == (s@.len() > 0 && s@[0] == c),
{
    s.unicode_len() > 0 && s.get_char(0) == c
}

proof fn lemma_block_len_exact(ls: Seq<Seq<char>>, m: int)
    requires
        0 <= m <= ls.len(),
        forall|k: int| 0 <= k < m ==> !is_section_line(#[trigger] ls[k]),
        m == ls.len() || is_section_line(ls[m]),
    ensures
        block_len(ls) == m,
    decreases m,
{
    if m > 0 {
        assert forall|k: int| 0 <= k < m - 1 implies !is_section_line(#[trigger] ls.skip(1)[k]) by {
            assert(ls.skip(1)[k] == ls[k + 1]);
        }
        if m < ls.len() {
            assert(ls.skip(1)[m - 1] == ls[m]);
        }
        lemma_block_len_exact(ls.skip(1), m - 1);
    }
}

/// Reads the body of an add section, from line `from` up to the next section
/// line; the content and where the body ends.
fn read_added_body(lines: &Vec<String>, from: usize) -> (r: (String, usize))
    requires
        from <= lines@.len(),
    ensures
        r.1 == from + block_len(string_views(lines@).skip(from as int)),
        r.1 <= lines@.len(),
        r.0@ == added_text(string_views(lines@).skip(from as int), r.1 - from),
{
    let ghost ls = string_views(lines@).skip(from as int);
    let mut content = String::new();
    let mut j = from;
    while j < lines.len() && !starts_with(lines[j].as_str(), "*** ")
        invariant
            from <= j <= lines@.len(),
            ls == string_views(lines@).skip(from as int),
            forall|k: int| 0 <= k < j - from ==> !is_section_line(#[trigger] ls[k]),
            content@ == added_text(ls, j - from),
        decreases lines@.len() - j,
    {
        assert(ls[j - from] == lines@[j as int]@);
        let line = lines[j].as_str();
        let body = strip_lead_char(line, '+');
        content.append(body);
        content.append("\n");
        j = j + 1;
    }
    proof {
        if j < lines@.len() {
            assert(ls[j - from] == lines@[j as int]@);
        }
        lemma_block_len_exact(ls, j - from);
    }
    (content, j)
}

/// Reads the body of an update section, from line `from` up to the next section
/// line; the removed text, the added text and where the body ends.
fn read_update_body(lines: &Vec<String>, from: usize) -> (r: (String, String, usize))
    requires
        from <= lines@.len(),
    ensures
        r.2 == from + block_len(string_views(lines@).skip(from as int)),
        r.2 <= lines@.len(),
        r.0@ == signed_text(string_views(lines@).skip(from as int), r.2 - from, '-'),
        r.1@ == signed_text(string_views(lines@).skip(from as int), r.2 - from, '+'),
{
    let ghost ls = string_views(lines@).skip(from as int);
    let mut old = String::new();
    let mut new = String::new();
    let mut j = from;
    while j < lines.len() && !starts_with(lines[j].as_str(), "*** ")
        invariant
            from <= j <= lines@.len(),
            ls == string_views(lines@).skip(from as int),
            forall|k: int| 0 <= k < j - from ==> !is_section_line(#[trigger] ls[k]),
            old@ == signed_text(ls, j - from, '-'),
            new@ == signed_text(ls, j - from, '+'),
        decreases lines@.len() - j,
    {
        assert(ls[j - from] == lines@[j as int]@);
        let line = lines[j].as_str();
        if !(starts_with(line, "@@") || str_eq(line, "*** End of File")) {
            if starts_with_char(line, '-') {
                old.append(strip_lead_char(line, '-'));
                old.append("\n");
            } else if starts_with_char(line, '+') {
                new.append(strip_lead_char(line, '+'));
                new.append("\n");
            }
        }
        j = j + 1;
    }
    proof {
        if j < lines@.len() {
            assert(ls[j - from] == lines@[j as int]@);
        }
        lemma_block_len_exact(ls, j - from);
    }
    (old, new, j)
}

/// Reads an apply_patch text into its operations; see `apply_patch_result`.
pub fn parse_apply_patch(patch: &str) -> (r: Result<Vec<ParsedPatchOperation>, AgentError>)
    ensures
        r is Err ==> r->Err_0 is Execution,
        parse_outcome(r) == apply_patch_result(patch@),
{
    let lines = str_lines(patch);
    let ghost all = string_views(lines@);
    if lines.len() == 0 || !str_eq(lines[0].as_str(), "*** Begin Patch") {
        return Err(
            AgentError::Execution {
                message: owned("apply_patch input must start with *** Begin Patch"),
            },
        );
    }
    let mut operations: Vec<ParsedPatchOperation> = Vec::new();
    let mut i: usize = 1;
    assert(all.skip(1).skip(0) =~= all.skip(1));
    while i < lines.len()
        invariant
            1 <= i <= lines@.len(),
            all == string_views(lines@),
            all == lines_of(patch@),
            all.len() > 0 && all[0] == begin_marker(),
            apply_patch_result(patch@) == after_ops(
                op_views(operations@),
                parse_sections(all.skip(i as int)),
            ),
        decreases lines@.len() - i,
    {
        let line = lines[i].as_str();
        let ghost ls = all.skip(i as int);
        assert(ls[0] == line@);
        assert(ls.skip(1) =~= all.skip(i + 1));
        if str_eq(line, "*** End Patch") {
            proof {
                assert(op_views(operations@) + Seq::<PatchOpView>::empty() =~= op_views(
                    operations@,
                ));
            }
            return Ok(operations);
        }
        match strip_prefix(line, "*** Add File: ") {
            Some(path) => {
                let (content, next) = read_added_body(&lines, i + 1);
                let op = ParsedPatchOperation::Write { path: owned(path), content };
                let ghost before = op_views(operations@);
                operations.push(op);
                proof {
                    assert(op_views(operations@) =~= before + seq![op_view(op)]);
                    assert(all.skip(i + 1).skip(next - (i + 1)) =~= all.skip(next as int));
                    assert(before + seq![op_view(op)] + Seq::<PatchOpView>::empty() =~= before
                        + seq![op_view(op)]);
                    match parse_sections(all.skip(next as int)) {
                        Ok(x) => {
                            assert(before + (seq![op_view(op)] + x) =~= before + seq![op_view(op)]
                                + x);
                        },
                        Err(_) => {},
                    }
                }
                i = next;
                continue;
            },
            None => {},
        }
        match strip_prefix(line, "*** Delete File: ") {
            Some(path) => {
                let op = ParsedPatchOperation::Delete { path: owned(path) };
                let ghost before = op_views(operations@);
                operations.push(op);
                proof {
                    assert(op_views(operations@) =~= before + seq![op_view(op)]);
                    match parse_sections(all.skip(i + 1)) {
                        Ok(x) => {
                            assert(before + (seq![op_view(op)] + x) =~= before + seq![op_view(op)]
                                + x);
                        },
                        Err(_) => {},
                    }
                }
                i = i + 1;
                continue;
            },
            None => {},
        }
        match strip_prefix(line, "*** Update File: ") {
            Some(path) => {
                let (old, new, next) = read_update_body(&lines, i + 1);
                let op = ParsedPatchOperation::Update { path: owned(path), old, new };
                let ghost before = op_views(operations@);
                operations.push(op);
                proof {
                    assert(op_views(operations@) =~= before + seq![op_view(op)]);
                    assert(all.skip(i + 1).skip(next - (i + 1)) =~= all.skip(next as int));
                    match parse_sections(all.skip(next as int)) {
                        Ok(x) => {
                            assert(before + (seq![op_view(op)] + x) =~= before + seq![op_view(op)]
                                + x);
                        },
                        Err(_) => {},
                    }
                }
                i = next;
                continue;
            },
            None => {},
        }
        return Err(
            AgentError::Execution { message: concat("unsupported apply_patch line: ", line) },
        );
    }
    proof {
        assert(all.skip(i as int).len() == 0);
    }
    Err(
        AgentError::Execution {
            message: owned("apply_patch input is missing *** End Patch"),
        },
    )
}

// ---------------------------------------------------------------------------
// Choosing the format, JSON operations, paths and updates
// ---------------------------------------------------------------------------

/// A patch whose trimmed text opens a JSON object or array is read as
/// constrained JSON operations; any other as apply_patch text.
pub open spec fn is_json_patch_text(patch: Seq<char>) -> bool {
    let t = trim(patch);
    t.len() > 0 && (t[0] == '{' || t[0] == '[')
}

/// Whether `patch` is in the constrained JSON format.
pub fn is_json_patch(patch: &str) -> (r: bool)
    ensures
        r == is_json_patch_text(patch@),
{
    let t = trim_str(patch);
    if t.unicode_len() == 0 {
        return false;
    }
    let c = t.get_char(0);
    c == '{' || c == '['
}

/// The operations of a JSON patch, as parsed operations.
pub fn operations_from_json(operations: Vec<PatchOperation>) -> (r: Vec<ParsedPatchOperation>)
    ensures
        r@.len() == operations@.len(),
        forall|i: int|
            0 <= i < r@.len() ==> #[trigger] r@[i] == match operations@[i] {
                PatchOperation::Write { path, content } => ParsedPatchOperation::Write {
                    path,
                    content,
                },
                PatchOperation::Delete { path } => ParsedPatchOperation::Delete { path },
            },
{
    let mut out: Vec<ParsedPatchOperation> = Vec::new();
    let mut i: usize = 0;
    while i < operations.len()
        invariant
            i <= operations@.len(),
            out@.len() == i,
            forall|k: int|
                0 <= k < i ==> #[trigger] out@[k] == match operations@[k] {
                    PatchOperation::Write { path, content } => ParsedPatchOperation::Write {
                        path,
                        content,
                    },
                    PatchOperation::Delete { path } => ParsedPatchOperation::Delete { path },
                },
        decreases operations@.len() - i,
    {
        let parsed = match &operations[i] {
            PatchOperation::Write { path, content } => ParsedPatchOperation::Write {
                path: path.clone(),
                content: content.clone(),
            },
            PatchOperation::Delete { path } => ParsedPatchOperation::Delete { path: path.clone() },
        };
        out.push(parsed);
        i = i + 1;
    }
    out
}

/// A component of a path, by kind.
#[derive(Clone, Copy, Debug, PartialEq, Eq, Structural)]
pub enum PathPart {
    Prefix,
    RootDir,
    CurDir,
    ParentDir,
    Normal,
}

/// `Path::is_absolute`. What makes a path absolute depends on the platform,
/// so nothing is stated of the result.
#[verifier::external_body]
fn path_is_absolute(path: &str) -> (r: bool) {
    std::path::Path::new(path).is_absolute()
}

/// A path text that leaves its base on every platform: it begins with `/`,
/// or has `..` as a whole `/`-separated segment.
pub open spec fn escaping_text(p: Seq<char>) -> bool {
    ||| (p.len() > 0 && p[0] == '/')
    ||| p == ".."@
    ||| seq_starts_with(p, "../"@)
    ||| seq_contains(p, "/../"@)
    ||| seq_ends_with(p, "/.."@)
}

/// `Path::components`, each component by its kind. `/` separates components
/// on every platform and `..` is always a parent-directory component, while a
/// leading `/` starts the path at a root (or, on Windows, inside a prefix);
/// so an escaping text has an escaping component. Everything else about how a
/// path splits depends on the platform and is not stated.
#[verifier::external_body]
fn path_components(path: &str) -> (r: Vec<PathPart>)
    ensures
        escaping_text(path@) ==> exists|i: int| 0 <= i < r@.len() && escapes(#[trigger] r@[i]),
{
    let mut parts = Vec::new();
    for component in std::path::Path::new(path).components() {
        parts.push(match component {
            std::path::Component::Prefix(_) => PathPart::Prefix,
            std::path::Component::RootDir => PathPart::RootDir,
            std::path::Component::CurDir => PathPart::CurDir,
            std::path::Component::ParentDir => PathPart::ParentDir,
            std::path::Component::Normal(_) => PathPart::Normal,
        });
    }
    parts
}

/// A component that leaves the workspace or anchors a path outside it.
pub open spec fn escapes(part: PathPart) -> bool {
    part == PathPart::ParentDir || part == PathPart::RootDir || part == PathPart::Prefix
}

/// The checks of a patch path, given whether it is absolute and its
/// components: an absolute path, then one with an escaping component, is
/// refused; any other is kept as it is.
pub fn check_relative_path(path: &str, absolute: bool, parts: &Vec<PathPart>) -> (r: Result<
    String,
    AgentError,
>)
    ensures
        absolute ==> r is Err && (r->Err_0 matches AgentError::Execution { message } && message@
            == "patch path must be relative: "@ + path@),
        !absolute && (exists|i: int| 0 <= i < parts@.len() && escapes(#[trigger] parts@[i]))
            ==> r is Err && (r->Err_0 matches AgentError::Execution { message } && message@
            == "patch path cannot escape workspace: "@ + path@),
        !absolute && !(exists|i: int| 0 <= i < parts@.len() && escapes(#[trigger] parts@[i]))
            ==> r is Ok && r->Ok_0@ == path@,
{
    if absolute {
        return Err(AgentError::Execution { message: concat("patch path must be relative: ", path) });
    }
    let mut i: usize = 0;
    while i < parts.len()
        invariant
            !absolute,
            i <= parts@.len(),
            forall|k: int| 0 <= k < i ==> !escapes(#[trigger] parts@[k]),
        decreases parts@.len() - i,
    {
        let part = parts[i];
        if part == PathPart::ParentDir || part == PathPart::RootDir || part == PathPart::Prefix {
            return Err(
                AgentError::Execution {
                    message: concat("patch path cannot escape workspace: ", path),
                },
            );
        }
        i = i + 1;
    }
    Ok(owned(path))
}

/// A patch path that stays inside the workspace, or why it does not; see
/// `check_relative_path`. A path that begins with `/` or has a `..` segment
/// is always refused.
pub fn validate_relative_path(path: &str) -> (r: Result<String, AgentError>)
    ensures
        escaping_text(path@) ==> r is Err,
        r is Ok ==> r->Ok_0@ == path@,
        r is Err ==> (r->Err_0 matches AgentError::Execution { message } && (message@
            == "patch path must be relative: "@ + path@ || message@
            == "patch path cannot escape workspace: "@ + path@)),
{
    let absolute = path_is_absolute(path);
    let parts = path_components(path);
    check_relative_path(path, absolute, &parts)
}

/// Where `needle` first occurs in `hay`.
pub open spec fn first_index(hay: Seq<char>, needle: Seq<char>, k: int) -> bool {
    &&& 0 <= k && k + needle.len() <= hay.len()
    &&& hay.subrange(k, k + needle.len()) == needle
    &&& forall|j: int| 0 <= j < k ==> #[trigger] hay.subrange(j, j + needle.len()) != needle
}

/// The content after an update: with nothing to remove the added text is
/// appended; otherwise the first occurrence of the removed text is replaced by
/// the added text; a removed text that does not occur is an error.
pub fn updated_content(content: &str, old: &str, new: &str, path: &str) -> (r: Result<
    String,
    AgentError,
>)
    ensures
        old@.len() == 0 ==> r is Ok && r->Ok_0@ == content@ + new@,
        old@.len() > 0 && seq_contains(content@, old@) ==> r is Ok && exists|k: int|
            first_index(content@, old@, k) && r->Ok_0@ == content@.subrange(0, k) + new@
                + content@.subrange(k + old@.len(), content@.len() as int),
        old@.len() > 0 && !seq_contains(content@, old@) ==> r is Err && (r->Err_0 matches AgentError::Execution {
            message,
        } && message@ == "patch update target content was not found in "@ + path@),
{
    if old.unicode_len() == 0 {
        return Ok(concat(content, new));
    }
    let hay = chars_of(content);
    let needle = chars_of(old);
    if needle.len() <= hay.len() {
        let last = hay.len() - needle.len();
        let mut i: usize = 0;
        while i <= last
            invariant
                last + needle@.len() == hay@.len(),
                hay@.len() <= usize::MAX,
                needle@.len() > 0,
                hay@ == content@,
                needle@ == old@,
                i <= last + 1,
                forall|j: int| 0 <= j < i ==> #[trigger] hay@.subrange(j, j + needle@.len()) != needle@,
            decreases last + 1 - i,
        {
            if matches_at(hay.as_slice(), needle.as_slice(), i) {
                let head = slice_range(hay.as_slice(), 0, i);
                let tail = slice_range(hay.as_slice(), i + needle.len(), hay.len());
                let mut out = string_from_chars(head.as_slice());
                out.append(new);
                let rest = string_from_chars(tail.as_slice());
                out.append(rest.as_str());
                assert(first_index(content@, old@, i as int));
                return Ok(out);
            }
            i = i + 1;
        }
    }
    proof {
        assert forall|k: int|
            0 <= k && k + old@.len() <= content@.len() implies #[trigger] content@.subrange(
            k,
            k + old@.len(),
        ) != old@ by {
            assert(hay@.subrange(k, k + needle@.len()) != needle@);
        }
    }
    Err(
        AgentError::Execution {
            message: concat("patch update target content was not found in ", path),
        },
    )
}

/// The change a write makes: an update when the file exists, else an addition.
pub fn write_change_kind(exists: bool) -> (r: PatchFileChangeKind)
    ensures
        r == (if exists {
            PatchFileChangeKind::Updated
        } else {
            PatchFileChangeKind::Added
        }),
{
    if exists {
        PatchFileChangeKind::Updated
    } else {
        PatchFileChangeKind::Added
    }
}

} // verus!
