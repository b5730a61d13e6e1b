//! The native Codex backend, which this build leaves switched off.
use vstd::prelude::*;
use crate::agent::{AgentBackend, AgentConfig, AgentError, AgentInput, AgentRunResult};
use crate::text::{is_blank, is_blank_str, owned};

verus! {

/// The backend that would run turns on a native Codex runtime.
#[derive(Clone, Copy, Debug, Default)]
pub struct CodexNativeBackend;

impl CodexNativeBackend {
    pub fn new() -> (r: CodexNativeBackend)
        ensures
            r == CodexNativeBackend,
    {
        CodexNativeBackend
    }
}

impl AgentBackend for CodexNativeBackend {
    /// A blank prompt is refused; any other reports that the native runtime is
    /// not built in.
    fn run(&self, config: AgentConfig, input: AgentInput) -> (r: Result<AgentRunResult, AgentError>)
        ensures
            is_blank(input.prompt@) ==> r == Err::<AgentRunResult, AgentError>(
                AgentError::EmptyPrompt,
            ),
            !is_blank(input.prompt@) ==> (r matches Err(AgentError::Execution { message })
                && message@ == "codex-native feature is not enabled"@),
    {
        if is_blank_str(input.prompt.as_str()) {
            return Err(AgentError::EmptyPrompt);
        }
        Err(AgentError::Execution { message: owned("codex-native feature is not enabled") })
    }
}

} // verus!
