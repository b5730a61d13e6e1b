//! Pieces of text shared by the plain and terminal renderers: status labels,
//! the debug names of statuses and kinds, optional suffixes and numbers.
use vstd::prelude::*;
use crate::agent::{
    AgentRunStatus, CommandStatus, FileChangeKind, McpToolStatus, PatchStatus, TokenUsage,
};
use crate::text::{decimal, i64_to_decimal, owned, signed_decimal, u64_to_decimal};

verus! {

pub open spec fn command_status_text(status: CommandStatus) -> Seq<char> {
    match status {
        CommandStatus::InProgress => "in_progress"@,
        CommandStatus::Completed => "completed"@,
        CommandStatus::Failed => "failed"@,
        CommandStatus::Declined => "declined"@,
        CommandStatus::Cancelled => "cancelled"@,
    }
}

/// The label of a command status.
pub fn command_status_label(status: CommandStatus) -> (r: &'static str)
    ensures
        r@ == command_status_text(status),
{
    match status {
        CommandStatus::InProgress => "in_progress",
        CommandStatus::Completed => "completed",
        CommandStatus::Failed => "failed",
        CommandStatus::Declined => "declined",
        CommandStatus::Cancelled => "cancelled",
    }
}

pub open spec fn run_status_text(status: AgentRunStatus) -> Seq<char> {
    match status {
        AgentRunStatus::Completed => "completed"@,
        AgentRunStatus::Failed => "failed"@,
        AgentRunStatus::Cancelled => "cancelled"@,
    }
}

/// The label of a run status.
pub fn status_label(status: AgentRunStatus) -> (r: &'static str)
    ensures
        r@ == run_status_text(status),
{
    match status {
        AgentRunStatus::Completed => "completed",
        AgentRunStatus::Failed => "failed",
        AgentRunStatus::Cancelled => "cancelled",
    }
}

/// The debug name of a run status.
pub open spec fn run_status_name(status: AgentRunStatus) -> Seq<char> {
    match status {
        AgentRunStatus::Completed => "Completed"@,
        AgentRunStatus::Failed => "Failed"@,
        AgentRunStatus::Cancelled => "Cancelled"@,
    }
}

pub fn run_status_debug(status: AgentRunStatus) -> (r: &'static str)
    ensures
        r@ == run_status_name(status),
{
    match status {
        AgentRunStatus::Completed => "Completed",
        AgentRunStatus::Failed => "Failed",
        AgentRunStatus::Cancelled => "Cancelled",
    }
}

/// The debug name of a file change kind.
pub open spec fn file_kind_name(kind: FileChangeKind) -> Seq<char> {
    match kind {
        FileChangeKind::Add => "Add"@,
        FileChangeKind::Delete => "Delete"@,
        FileChangeKind::Update => "Update"@,
        FileChangeKind::Move => "Move"@,
    }
}

pub fn file_kind_debug(kind: FileChangeKind) -> (r: &'static str)
    ensures
        r@ == file_kind_name(kind),
{
    match kind {
        FileChangeKind::Add => "Add",
        FileChangeKind::Delete => "Delete",
        FileChangeKind::Update => "Update",
        FileChangeKind::Move => "Move",
    }
}

/// The debug name of a patch status.
pub open spec fn patch_status_name(status: PatchStatus) -> Seq<char> {
    match status {
        PatchStatus::InProgress => "InProgress"@,
        PatchStatus::Completed => "Completed"@,
        PatchStatus::Failed => "Failed"@,
    }
}

pub fn patch_status_debug(status: PatchStatus) -> (r: &'static str)
    ensures
        r@ == patch_status_name(status),
{
    match status {
        PatchStatus::InProgress => "InProgress",
        PatchStatus::Completed => "Completed",
        PatchStatus::Failed => "Failed",
    }
}

/// The debug name of an MCP tool status.
pub open spec fn mcp_status_name(status: McpToolStatus) -> Seq<char> {
    match status {
        McpToolStatus::InProgress => "InProgress"@,
        McpToolStatus::Completed => "Completed"@,
        McpToolStatus::Failed => "Failed"@,
    }
}

pub fn mcp_status_debug(status: McpToolStatus) -> (r: &'static str)
    ensures
        r@ == mcp_status_name(status),
{
    match status {
        McpToolStatus::InProgress => "InProgress",
        McpToolStatus::Completed => "Completed",
        McpToolStatus::Failed => "Failed",
    }
}

/// `prefix` and the value, or nothing when there is no value.
pub open spec fn opt_suffix(prefix: Seq<char>, value: Option<String>) -> Seq<char> {
    match value {
        Some(v) => prefix + v@,
        None => Seq::empty(),
    }
}

pub fn opt_suffix_string(prefix: &str, value: &Option<String>) -> (r: String)
    ensures
        r@ == opt_suffix(prefix@, *value),
{
    match value {
        Some(v) => crate::text::concat(prefix, v.as_str()),
        None => String::new(),
    }
}

/// The value, or `default` when there is none.
pub open spec fn opt_or(value: Option<String>, default: Seq<char>) -> Seq<char> {
    match value {
        Some(v) => v@,
        None => default,
    }
}

pub fn opt_or_string(value: &Option<String>, default: &str) -> (r: String)
    ensures
        r@ == opt_or(*value, default@),
{
    match value {
        Some(v) => v.clone(),
        None => owned(default),
    }
}

pub open spec fn approval_text(approved: bool) -> Seq<char> {
    if approved {
        "approved"@
    } else {
        "declined"@
    }
}

pub fn approval_word(approved: bool) -> (r: &'static str)
    ensures
        r@ == approval_text(approved),
{
    if approved {
        "approved"
    } else {
        "declined"
    }
}

pub fn usize_text(n: usize) -> (r: String)
    ensures
        r@ == decimal(n as nat),
{
    u64_to_decimal(n as u64)
}

pub fn i32_text(n: i32) -> (r: String)
    ensures
        r@ == signed_decimal(n as int),
{
    i64_to_decimal(n as i64)
}

/// ` (code)` for an exit code, nothing without one.
pub open spec fn exit_code_suffix(code: Option<i32>) -> Seq<char> {
    match code {
        Some(c) => " ("@ + signed_decimal(c as int) + ")"@,
        None => Seq::empty(),
    }
}

pub fn exit_code_suffix_string(code: Option<i32>) -> (r: String)
    ensures
        r@ == exit_code_suffix(code),
{
    match code {
        Some(c) => {
            let mut s = owned(" (");
            s.append(i32_text(c).as_str());
            s.append(")");
            s
        },
        None => String::new(),
    }
}

/// ` status` for an HTTP status, nothing without one.
pub open spec fn http_status_suffix(status: Option<u16>) -> Seq<char> {
    match status {
        Some(v) => " "@ + decimal(v as nat),
        None => Seq::empty(),
    }
}

pub fn http_status_suffix_string(status: Option<u16>) -> (r: String)
    ensures
        r@ == http_status_suffix(status),
{
    match status {
        Some(v) => {
            let digits = u64_to_decimal(v as u64);
            crate::text::concat(" ", digits.as_str())
        },
        None => String::new(),
    }
}

/// The token counts of a turn.
pub open spec fn usage_text(u: TokenUsage) -> Seq<char> {
    "input="@ + signed_decimal(u.input_tokens as int) + " cached_input="@ + signed_decimal(
        u.cached_input_tokens as int,
    ) + " output="@ + signed_decimal(u.output_tokens as int) + " reasoning_output="@
        + signed_decimal(u.reasoning_output_tokens as int)
}

pub fn usage_string(u: TokenUsage) -> (r: String)
    ensures
        r@ == usage_text(u),
{
    let mut s = owned("input=");
    s.append(i64_to_decimal(u.input_tokens).as_str());
    s.append(" cached_input=");
    s.append(i64_to_decimal(u.cached_input_tokens).as_str());
    s.append(" output=");
    s.append(i64_to_decimal(u.output_tokens).as_str());
    s.append(" reasoning_output=");
    s.append(i64_to_decimal(u.reasoning_output_tokens).as_str());
    s
}

} // verus!
