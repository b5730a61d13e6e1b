//! Slash commands of the interactive mode and the answers it accepts.
use vstd::prelude::*;
use crate::agent::{AgentEvent, AgentRunResult};
use crate::text::{
    ascii_lower, concat, is_whitespace, is_ws, opt_view, owned, str_eq, to_ascii_lowercase,
    trim, trim_str,
};

verus! {

#[derive(Clone, Debug, PartialEq, Eq)]
pub enum InteractiveCommand {
    Exit,
    Help,
    Clear,
    Cwd,
    Session,
    Status,
    Tools,
    Mcp,
    Cost,
    Model(Option<String>),
    Provider(Option<String>),
    Resume(String),
    Unknown(String),
}

/// Where the first whitespace character of `s` is, if anywhere.
pub open spec fn first_ws(s: Seq<char>) -> Option<int>
    decreases s.len(),
{
    if s.len() == 0 {
        None
    } else if is_ws(s[0]) {
        Some(0)
    } else {
        match first_ws(s.skip(1)) {
            Some(k) => Some(k + 1),
            None => None,
        }
    }
}

/// The command word of a trimmed line: up to its first whitespace.
pub open spec fn command_word(t: Seq<char>) -> Seq<char> {
    match first_ws(t) {
        Some(k) => t.take(k),
        None => t,
    }
}

/// The argument of a trimmed line: what follows the first whitespace,
/// trimmed, when not empty.
pub open spec fn command_argument(t: Seq<char>) -> Option<Seq<char>> {
    match first_ws(t) {
        Some(k) => if trim(t.skip(k + 1)).len() > 0 {
            Some(trim(t.skip(k + 1)))
        } else {
            None
        },
        None => None,
    }
}

/// The command a line stands for: none unless it starts with a slash (once
/// trimmed); an unknown word, or `/resume` without a session id, gives
/// `Unknown` with the message to show.
pub open spec fn command_matches(r: Option<InteractiveCommand>, input: Seq<char>) -> bool {
    let t = trim(input);
    let word = command_word(t);
    let arg = command_argument(t);
    if !(t.len() > 0 && t[0] == '/') {
        r is None
    } else if word == "/exit"@ || word == "/quit"@ {
        r == Some(InteractiveCommand::Exit)
    } else if word == "/help"@ {
        r == Some(InteractiveCommand::Help)
    } else if word == "/clear"@ {
        r == Some(InteractiveCommand::Clear)
    } else if word == "/cwd"@ {
        r == Some(InteractiveCommand::Cwd)
    } else if word == "/session"@ {
        r == Some(InteractiveCommand::Session)
    } else if word == "/status"@ {
        r == Some(InteractiveCommand::Status)
    } else if word == "/tools"@ {
        r == Some(InteractiveCommand::Tools)
    } else if word == "/mcp"@ {
        r == Some(InteractiveCommand::Mcp)
    } else if word == "/cost"@ {
        r == Some(InteractiveCommand::Cost)
    } else if word == "/model"@ {
        r matches Some(InteractiveCommand::Model(m)) && opt_view(m) == arg
    } else if word == "/provider"@ {
        r matches Some(InteractiveCommand::Provider(p)) && opt_view(p) == arg
    } else if word == "/resume"@ {
        match arg {
            Some(id) => r matches Some(InteractiveCommand::Resume(s)) && s@ == id,
            None => r matches Some(InteractiveCommand::Unknown(m)) && m@
                == "/resume requires a session id"@,
        }
    } else {
        r matches Some(InteractiveCommand::Unknown(m)) && m@ == "unknown command: "@ + word
    }
}

proof fn lemma_first_ws_in_range(s: Seq<char>)
    ensures
        first_ws(s) matches Some(k) ==> 0 <= k < s.len(),
    decreases s.len(),
{
    if s.len() > 0 && !is_ws(s[0]) {
        lemma_first_ws_in_range(s.skip(1));
    }
}

/// Where the first whitespace character of `s` is.
fn find_whitespace(s: &str) -> (r: Option<usize>)
    ensures
        match first_ws(s@) {
            Some(k) => r == Some(k as usize),
            None => r is None,
        },
{
    let n = s.unicode_len();
    let mut i: usize = 0;
    assert(s@.skip(0) =~= s@);
    while i < n
        invariant
            i <= n,
            n == s@.len(),
            forall|k: int| 0 <= k < i ==> !is_ws(#[trigger] s@[k]),
            first_ws(s@) == match first_ws(s@.skip(i as int)) {
                Some(k) => Some(k + i),
                None => None,
            },
        decreases n - i,
    {
        proof {
            assert(s@.skip(i as int).skip(1) =~= s@.skip(i + 1));
            assert(s@.skip(i as int)[0] == s@[i as int]);
        }
        if is_whitespace(s.get_char(i)) {
            return Some(i);
        }
        i = i + 1;
    }
    None
}

/// The command a line stands for; see `command_matches`.
pub fn parse_interactive_command(input: &str) -> (r: Option<InteractiveCommand>)
    ensures
        command_matches(r, input@),
{
    let trimmed = trim_str(input);
    let n = trimmed.unicode_len();
    if n == 0 || trimmed.get_char(0) != '/' {
        return None;
    }
    proof {
        lemma_first_ws_in_range(trimmed@);
    }
    let (word, arg): (&str, Option<String>) = match find_whitespace(trimmed) {
        Some(k) => {
            let rest = trim_str(trimmed.substring_char(k + 1, n));
            let a = if rest.unicode_len() > 0 {
                Some(owned(rest))
            } else {
                None
            };
            (trimmed.substring_char(0, k), a)
        },
        None => (trimmed, None),
    };
    assert(word@ == command_word(trim(input@)));
    assert(opt_view(arg) == command_argument(trim(input@)));
    let command = if str_eq(word, "/exit") || str_eq(word, "/quit") {
        InteractiveCommand::Exit
    } else if str_eq(word, "/help") {
        InteractiveCommand::Help
    } else if str_eq(word, "/clear") {
        InteractiveCommand::Clear
    } else if str_eq(word, "/cwd") {
        InteractiveCommand::Cwd
    } else if str_eq(word, "/session") {
        InteractiveCommand::Session
    } else if str_eq(word, "/status") {
        InteractiveCommand::Status
    } else if str_eq(word, "/tools") {
        InteractiveCommand::Tools
    } else if str_eq(word, "/mcp") {
        InteractiveCommand::Mcp
    } else if str_eq(word, "/cost") {
        InteractiveCommand::Cost
    } else if str_eq(word, "/model") {
        InteractiveCommand::Model(arg)
    } else if str_eq(word, "/provider") {
        InteractiveCommand::Provider(arg)
    } else if str_eq(word, "/resume") {
        match arg {
            Some(id) => InteractiveCommand::Resume(id),
            None => InteractiveCommand::Unknown(owned("/resume requires a session id")),
        }
    } else {
        InteractiveCommand::Unknown(concat("unknown command: ", word))
    };
    Some(command)
}

/// The help text of the interactive mode.
pub fn help_text() -> (r: &'static str)
    ensures
        r@ == "Commands:\n/help                 Show this help\n/session              Show active session details\n/status               Show provider, event, tool, and MCP status\n/tools                List fixed and workspace dynamic tools\n/mcp                  Show workspace MCP configuration\n/cost                 Show last-turn and session token usage\n/resume <session_id>  Continue from a saved session\n/model [name]         Show or switch the model field\n/provider [name]      Show or switch the provider field\n/cwd                  Show the active working directory\n/clear                Clear the terminal\n/exit, /quit          Leave YunXi interactive mode"@,
{
    "Commands:\n/help                 Show this help\n/session              Show active session details\n/status               Show provider, event, tool, and MCP status\n/tools                List fixed and workspace dynamic tools\n/mcp                  Show workspace MCP configuration\n/cost                 Show last-turn and session token usage\n/resume <session_id>  Continue from a saved session\n/model [name]         Show or switch the model field\n/provider [name]      Show or switch the provider field\n/cwd                  Show the active working directory\n/clear                Clear the terminal\n/exit, /quit          Leave YunXi interactive mode"
}

/// An answer that approves a request: `y`, `yes`, `approve` or `approved`,
/// in any ASCII case, around any whitespace.
pub open spec fn approves(answer: Seq<char>) -> bool {
    let a = ascii_lower(trim(answer));
    a == "y"@ || a == "yes"@ || a == "approve"@ || a == "approved"@
}

/// Whether an answer approves a request; see `approves`.
pub fn is_approval_answer(answer: &str) -> (r: bool)
    ensures
        r == approves(answer@),
{
    let a = to_ascii_lowercase(trim_str(answer));
    let s = a.as_str();
    str_eq(s, "y") || str_eq(s, "yes") || str_eq(s, "approve") || str_eq(s, "approved")
}

/// The session id a run reports last: from its latest storage state that names
/// one, or thread state.
pub open spec fn reported_session(events: Seq<AgentEvent>) -> Option<String>
    decreases events.len(),
{
    if events.len() == 0 {
        None
    } else {
        match events.last() {
            AgentEvent::StorageState { session_id: Some(id), .. } => Some(id),
            AgentEvent::ThreadState { state } => state.session_id,
            _ => reported_session(events.drop_last()),
        }
    }
}

/// The session id a run reports; see `reported_session`.
pub fn session_id_from_result(result: &AgentRunResult) -> (r: Option<String>)
    ensures
        r == reported_session(result.events@),
{
    let mut k = result.events.len();
    assert(result.events@.take(k as int) =~= result.events@);
    while k > 0
        invariant
            k <= result.events@.len(),
            reported_session(result.events@) == reported_session(result.events@.take(k as int)),
        decreases k,
    {
        proof {
            assert(result.events@.take(k as int).drop_last() =~= result.events@.take(k - 1));
            assert(result.events@.take(k as int).last() == result.events@[k - 1]);
        }
        match &result.events[k - 1] {
            AgentEvent::StorageState { session_id: Some(id), .. } => {
                return Some(id.clone());
            },
            AgentEvent::ThreadState { state } => {
                return crate::text::opt_string_copy(&state.session_id);
            },
            _ => {},
        }
        k = k - 1;
    }
    None
}

/// The approval answers: `y`, `yes`, `approve` and `approved`, in any ASCII
/// case and with any surrounding whitespace, approve; an empty answer, `n`
/// and `no` (the default of a `y/N` prompt and its refusals) do not.
pub proof fn law_approval_answers(answer: Seq<char>)
    ensures
        ascii_lower(trim(answer)) == "y"@ ==> approves(answer),
        ascii_lower(trim(answer)) == "yes"@ ==> approves(answer),
        ascii_lower(trim(answer)) == "approve"@ ==> approves(answer),
        ascii_lower(trim(answer)) == "approved"@ ==> approves(answer),
        ascii_lower(trim(answer)) == Seq::<char>::empty() ==> !approves(answer),
        ascii_lower(trim(answer)) == "n"@ ==> !approves(answer),
        ascii_lower(trim(answer)) == "no"@ ==> !approves(answer),
{
    reveal_strlit("y");
    reveal_strlit("yes");
    reveal_strlit("approve");
    reveal_strlit("approved");
    reveal_strlit("n");
    reveal_strlit("no");
    assert("n"@[0] != "y"@[0]);
    assert("n"@ != "y"@);
    assert("no"@.len() == 2);
    assert("yes"@.len() == 3 && "approve"@.len() == 7 && "approved"@.len() == 8 && "y"@.len() == 1);
}

} // verus!
