//! Shell command descriptions and their output: canonical spacing, the
//! platform shell argv, combined stdout/stderr, and byte-bounded truncation.
use vstd::prelude::*;
use crate::sandbox::{ExecutionPolicy, is_windows_host};
use vstd::string::StringSliceAdditionalSpecFns;
use crate::text::{chars_of, concat, concat3, is_ws, owned, string_from_chars};

verus! {

/// The timeout every shell command gets unless another is set.
pub const DEFAULT_EXEC_COMMAND_TIMEOUT_MILLIS: u64 = 10_000;

#[derive(Clone, Debug, PartialEq, Eq)]
pub struct ExecCommand {
    pub id: Option<String>,
    pub cwd: String,
    pub command: String,
    pub argv: Vec<String>,
    pub stdin: Option<String>,
    pub env: Vec<(String, String)>,
    pub timeout_millis: Option<u64>,
    pub policy: ExecutionPolicy,
}

/// The argv that runs `command` through the platform shell.
pub open spec fn shell_argv_for(argv: Seq<String>, windows: bool, command: Seq<char>) -> bool {
    &&& argv.len() == 3
    &&& argv[0]@ == (if windows {
        "cmd"@
    } else {
        "sh"@
    })
    &&& argv[1]@ == (if windows {
        "/C"@
    } else {
        "-c"@
    })
    &&& argv[2]@ == command
}

/// The argv for either platform shell: `cmd /C` on Windows, `sh -c` elsewhere.
pub open spec fn shell_argv_matches(argv: Seq<String>, command: Seq<char>) -> bool {
    shell_argv_for(argv, true, command) || shell_argv_for(argv, false, command)
}

/// Whitespace runs collapsed to single spaces, with none at either end: the
/// text so far and whether a gap is pending, read left to right.
pub open spec fn canonical_state(s: Seq<char>) -> (Seq<char>, bool)
    decreases s.len(),
{
    if s.len() == 0 {
        (Seq::empty(), false)
    } else {
        let prev = canonical_state(s.drop_last());
        let c = s.last();
        if is_ws(c) {
            (prev.0, prev.0.len() > 0)
        } else if prev.1 {
            (prev.0 + seq![' ', c], false)
        } else {
            (prev.0.push(c), false)
        }
    }
}

/// `split_whitespace().join(" ")`.
pub open spec fn canonical_command(s: Seq<char>) -> Seq<char> {
    canonical_state(s).0
}

impl ExecCommand {
    /// A shell command for `command` in `cwd`, with the default timeout, no id,
    /// no stdin and no extra environment.
    pub fn shell(cwd: &str, command: &str, policy: ExecutionPolicy) -> (r: ExecCommand)
        ensures
            r.id is None,
            r.cwd@ == cwd@,
            r.command@ == command@,
            shell_argv_matches(r.argv@, command@),
            r.stdin is None,
            r.env@.len() == 0,
            r.timeout_millis == Some(DEFAULT_EXEC_COMMAND_TIMEOUT_MILLIS),
            r.policy == policy,
    {
        ExecCommand {
            id: None,
            cwd: owned(cwd),
            argv: platform_shell_argv(command),
            command: owned(command),
            stdin: None,
            env: Vec::new(),
            timeout_millis: Some(DEFAULT_EXEC_COMMAND_TIMEOUT_MILLIS),
            policy,
        }
    }

    pub fn canonical_command(&self) -> (r: String)
        ensures
            r@ == canonical_command(self.command@),
    {
        canonicalize_shell_command(self.command.as_str())
    }
}

/// Collapses every whitespace run to one space and drops leading and trailing whitespace.
pub fn canonicalize_shell_command(command: &str) -> (r: String)
    ensures
        r@ == canonical_command(command@),
{
    let v = chars_of(command);
    let mut out: Vec<char> = Vec::new();
    let mut gap = false;
    let mut i: usize = 0;
    while i < v.len()
        invariant
            v@ == command@,
            i <= v@.len(),
            (out@, gap) == canonical_state(command@.take(i as int)),
        decreases v@.len() - i,
    {
        let c = v[i];
        proof {
            assert(command@.take(i + 1).drop_last() =~= command@.take(i as int));
            assert(command@.take(i + 1).last() == c);
        }
        if crate::text::is_whitespace(c) {
            gap = out.len() > 0;
        } else {
            if gap {
                out.push(' ');
            }
            out.push(c);
            gap = false;
        }
        i = i + 1;
        proof {
            let prev = canonical_state(command@.take(i - 1));
            if !is_ws(c) && prev.1 {
                assert(out@ =~= prev.0 + seq![' ', c]);
            }
        }
    }
    assert(command@.take(v@.len() as int) =~= command@);
    string_from_chars(out.as_slice())
}

/// `["cmd", "/C", command]` on Windows hosts, `["sh", "-c", command]` elsewhere;
/// which one depends on the host.
pub fn platform_shell_argv(command: &str) -> (r: Vec<String>)
    ensures
        shell_argv_matches(r@, command@),
{
    shell_argv(command, is_windows_host())
}

/// The shell argv for `command` on a Windows host or another one.
pub fn shell_argv(command: &str, windows: bool) -> (r: Vec<String>)
    ensures
        shell_argv_for(r@, windows, command@),
{
    let mut v: Vec<String> = Vec::new();
    proof {
        reveal_strlit("cmd");
        reveal_strlit("/C");
        reveal_strlit("sh");
        reveal_strlit("-c");
    }
    if windows {
        v.push(owned("cmd"));
        v.push(owned("/C"));
    } else {
        v.push(owned("sh"));
        v.push(owned("-c"));
    }
    v.push(owned(command));
    v
}

#[derive(Clone, Debug, PartialEq, Eq)]
pub struct ExecOutput {
    pub stdout: String,
    pub stderr: String,
    pub exit_code: Option<i32>,
}

/// Stdout and stderr joined, with a line break between them unless one is
/// empty or stdout already ends with one.
pub open spec fn combined_output(stdout: Seq<char>, stderr: Seq<char>) -> Seq<char> {
    if stdout.len() == 0 {
        stderr
    } else if stderr.len() == 0 {
        stdout
    } else if stdout.last() == '\n' {
        stdout + stderr
    } else {
        stdout + "\n"@ + stderr
    }
}

impl ExecOutput {
    pub fn combined(&self) -> (r: String)
        ensures
            r@ == combined_output(self.stdout@, self.stderr@),
    {
        combine_output(self.stdout.as_str(), self.stderr.as_str())
    }
}

pub fn combine_output(stdout: &str, stderr: &str) -> (r: String)
    ensures
        r@ == combined_output(stdout@, stderr@),
{
    let n = stdout.unicode_len();
    if n == 0 {
        return owned(stderr);
    }
    if stderr.unicode_len() == 0 {
        return owned(stdout);
    }
    if stdout.get_char(n - 1) == '\n' {
        concat(stdout, stderr)
    } else {
        proof {
            reveal_strlit("\n");
        }
        concat3(stdout, "\n", stderr)
    }
}

#[derive(Clone, Copy, Debug, PartialEq, Eq, Structural)]
pub enum ExecOutputStream {
    Stdout,
    Stderr,
}

#[derive(Clone, Debug, PartialEq, Eq)]
pub enum ExecLifecycleEvent {
    Started { id: Option<String>, command: String, cwd: String },
    OutputDelta { id: Option<String>, stream: ExecOutputStream, chunk: String },
    StdinWritten { id: Option<String>, bytes: usize },
    Completed {
        id: Option<String>,
        output: ExecOutput,
        duration_millis: Option<u64>,
        timed_out: bool,
    },
    Cancelled { id: Option<String> },
    Failed { id: Option<String>, message: String },
}

#[derive(Clone, Debug, PartialEq, Eq)]
pub struct ExecSummary {
    pub id: Option<String>,
    pub command: String,
    pub aggregated_output: String,
    pub exit_code: Option<i32>,
    pub timed_out: bool,
}

impl ExecSummary {
    /// The summary of a finished command: its id, canonical command line and
    /// combined output.
    pub fn from_output(command: &ExecCommand, output: ExecOutput, timed_out: bool) -> (r:
        ExecSummary)
        ensures
            r.id == command.id,
            r.command@ == canonical_command(command.command@),
            r.aggregated_output@ == combined_output(output.stdout@, output.stderr@),
            r.exit_code == output.exit_code,
            r.timed_out == timed_out,
    {
        ExecSummary {
            id: command.id.clone(),
            command: command.canonical_command(),
            aggregated_output: output.combined(),
            exit_code: output.exit_code,
            timed_out,
        }
    }
}

#[derive(Clone, Copy, Debug, PartialEq, Eq, Structural)]
pub struct OutputLimits {
    pub max_bytes: usize,
}

impl Default for OutputLimits {
    fn default() -> (r: Self)
        ensures
            r.max_bytes == 20_000,
    {
        OutputLimits { max_bytes: 20_000 }
    }
}

/// Bytes of the UTF-8 encoding of one character.
pub open spec fn utf8_width(c: char) -> int {
    let u = c as u32;
    if u < 0x80 {
        1
    } else if u < 0x800 {
        2
    } else if u < 0x10000 {
        3
    } else {
        4
    }
}

/// How many leading characters of `s` fit in `budget` bytes, counted one at a time.
pub open spec fn fitting_chars(s: Seq<char>, budget: int) -> nat
    decreases s.len(),
{
    if s.len() == 0 || utf8_width(s[0]) > budget {
        0
    } else {
        1 + fitting_chars(s.drop_first(), budget - utf8_width(s[0]))
    }
}

/// The note appended to truncated output.
pub open spec fn truncation_note() -> Seq<char> {
    "\n[output truncated]"@
}

fn char_width(c: char) -> (r: usize)
    ensures
        r == utf8_width(c),
{
    let u = c as u32;
    if u < 0x80 {
        1
    } else if u < 0x800 {
        2
    } else if u < 0x10000 {
        3
    } else {
        4
    }
}

/// Output within the byte limit unchanged; longer output cut to the characters
/// that fit and marked as truncated.
pub fn truncate_output(output: &str, limits: OutputLimits) -> (r: String)
    requires
        output.spec_bytes().len() <= usize::MAX,
    ensures
        output.spec_bytes().len() <= limits.max_bytes ==> r@ == output@,
        output.spec_bytes().len() > limits.max_bytes ==> r@ == output@.take(
            fitting_chars(output@, limits.max_bytes as int) as int,
        ) + truncation_note(),
{
    if output.len() <= limits.max_bytes {
        return owned(output);
    }
    let v = chars_of(output);
    let max = limits.max_bytes;
    let mut count: usize = 0;
    let mut i: usize = 0;
    let mut full = false;
    assert(output@.skip(0) =~= output@);
    while i < v.len() && !full
        invariant
            v@ == output@,
            i <= v@.len(),
            count <= max,
            fitting_chars(output@, max as int) == i + fitting_chars(
                output@.skip(i as int),
                max - count,
            ),
            full ==> i < v@.len() && fitting_chars(output@.skip(i as int), max - count) == 0,
        decreases v@.len() - i + (if full { 0int } else { 1int }),
    {
        let w = char_width(v[i]);
        assert(output@.skip(i as int)[0] == v@[i as int]);
        if w > max - count {
            full = true;
        } else {
            assert(output@.skip(i as int).drop_first() =~= output@.skip(i + 1));
            count = count + w;
            i = i + 1;
        }
    }
    proof {
        if !full {
            assert(output@.skip(i as int).len() == 0);
        }
    }
    let mut kept = owned(output.substring_char(0, i));
    proof {
        reveal_strlit("\n[output truncated]");
        assert(output@.subrange(0, i as int) =~= output@.take(i as int));
    }
    kept.append("\n[output truncated]");
    kept
}

} // verus!
