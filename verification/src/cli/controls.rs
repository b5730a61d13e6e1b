//! The decisions of `yunxi controls` and `yunxi memory`: which switch a
//! scope's enable or disable turns, that the relationship view is read-only,
//! that clearing needs an explicit confirmation and exists only for companion
//! history and workspace memory, what each memory review command sets a
//! record to, and what each operation records in the control audit.
use vstd::prelude::*;
use crate::persona::memory::MemoryStatus;
use crate::persona::settings::PersonaSettings;
use crate::text::{concat, owned};

verus! {

/// What a control command acts on.
#[derive(Clone, Copy, Debug, PartialEq, Eq, Structural)]
pub enum ControlScope {
    Companion,
    Memory,
    Persona,
    Relationship,
}

pub open spec fn scope_name(scope: ControlScope) -> Seq<char> {
    match scope {
        ControlScope::Companion => "companion"@,
        ControlScope::Memory => "memory"@,
        ControlScope::Persona => "persona"@,
        ControlScope::Relationship => "relationship"@,
    }
}

/// The scope's name as the command line writes it.
pub fn scope_str(scope: ControlScope) -> (r: &'static str)
    ensures
        r@ == scope_name(scope),
{
    match scope {
        ControlScope::Companion => "companion",
        ControlScope::Memory => "memory",
        ControlScope::Persona => "persona",
        ControlScope::Relationship => "relationship",
    }
}

/// A `yunxi controls` subcommand.
#[derive(Clone, Copy, Debug, PartialEq, Eq, Structural)]
pub enum ControlCommand {
    Status,
    Refresh,
    Show { scope: ControlScope },
    Enable { scope: ControlScope },
    Disable { scope: ControlScope },
    Clear { scope: ControlScope, confirm: bool },
    Audit,
}

/// The persisted companion, memory and persona switches.
#[derive(Clone, Copy, Debug, PartialEq, Eq, Structural)]
pub struct ControlSwitches {
    pub companion_enabled: bool,
    pub memory_enabled: bool,
    pub persona_enabled: bool,
}

/// The work a control command leaves to do.
#[derive(Clone, Copy, Debug, PartialEq, Eq, Structural)]
pub enum ControlWork {
    /// Show the unified snapshot, of one scope or of all.
    ShowSnapshot { scope: Option<ControlScope> },
    /// Persist these switches, then show the scope's snapshot.
    PersistSwitches { switches: ControlSwitches, scope: ControlScope },
    /// Clear the local companion history.
    ClearCompanionHistory,
    /// Archive the workspace memory.
    ClearWorkspaceMemory,
    /// List the control audit.
    ShowAudit,
}

/// A control command that goes ahead: its work, and the detail the audit
/// records as completed (none where the detail comes from the work itself or
/// nothing is audited).
#[derive(Clone, Debug, PartialEq, Eq)]
pub struct ControlOutcome {
    pub work: ControlWork,
    pub audit_detail: Option<String>,
}

/// A refused control command: the detail the audit records as rejected, and
/// the error shown to the user.
#[derive(Clone, Debug, PartialEq, Eq)]
pub struct ControlRejection {
    pub audit_detail: String,
    pub message: String,
}

/// The switches with the scope's one turned to `on`; `None` for the
/// read-only relationship scope.
pub open spec fn switched(switches: ControlSwitches, scope: ControlScope, on: bool) -> Option<ControlSwitches> {
    match scope {
        ControlScope::Companion => Some(ControlSwitches { companion_enabled: on, ..switches }),
        ControlScope::Memory => Some(ControlSwitches { memory_enabled: on, ..switches }),
        ControlScope::Persona => Some(ControlSwitches { persona_enabled: on, ..switches }),
        ControlScope::Relationship => None,
    }
}

/// What a control command comes to, by value: `Ok((work, completed audit
/// detail))` or `Err((rejected audit detail, message))`.
pub open spec fn control_outcome(command: ControlCommand, switches: ControlSwitches) -> Result<
    (ControlWork, Option<Seq<char>>),
    (Seq<char>, Seq<char>),
> {
    match command {
        ControlCommand::Status => Ok(
            (ControlWork::ShowSnapshot { scope: None }, Some("unified control snapshot"@)),
        ),
        ControlCommand::Refresh => Ok(
            (ControlWork::ShowSnapshot { scope: None }, Some("refreshed unified snapshot"@)),
        ),
        ControlCommand::Show { scope } => Ok(
            (ControlWork::ShowSnapshot { scope: Some(scope) }, Some("scope snapshot"@)),
        ),
        ControlCommand::Enable { scope } => match switched(switches, scope, true) {
            Some(s) => Ok(
                (ControlWork::PersistSwitches { switches: s, scope }, Some("persisted enabled state"@)),
            ),
            None => Err(
                ("relationship is a read-only derived view"@, "relationship controls are read-only"@),
            ),
        },
        ControlCommand::Disable { scope } => match switched(switches, scope, false) {
            Some(s) => Ok(
                (ControlWork::PersistSwitches { switches: s, scope }, Some("persisted disabled state"@)),
            ),
            None => Err(
                ("relationship is a read-only derived view"@, "relationship controls are read-only"@),
            ),
        },
        ControlCommand::Clear { scope, confirm } => if !confirm {
            Err(
                (
                    "explicit confirmation missing"@,
                    scope_name(scope) + " clear requires --confirm; scope impact must be acknowledged"@,
                ),
            )
        } else {
            match scope {
                ControlScope::Companion => Ok((ControlWork::ClearCompanionHistory, None)),
                ControlScope::Memory => Ok((ControlWork::ClearWorkspaceMemory, None)),
                _ => Err(
                    (
                        "scope is read-only and has no clear operation"@,
                        scope_name(scope) + " is read-only and cannot be cleared"@,
                    ),
                ),
            }
        },
        ControlCommand::Audit => Ok((ControlWork::ShowAudit, None)),
    }
}

pub open spec fn opt_text(o: Option<String>) -> Option<Seq<char>> {
    match o {
        Some(s) => Some(s@),
        None => None,
    }
}

/// Whether `r` is the outcome `control_outcome` gives.
pub open spec fn control_result_matches(
    r: Result<ControlOutcome, ControlRejection>,
    expected: Result<(ControlWork, Option<Seq<char>>), (Seq<char>, Seq<char>)>,
) -> bool {
    match (r, expected) {
        (Ok(o), Ok(e)) => o.work == e.0 && opt_text(o.audit_detail) == e.1,
        (Err(x), Err(e)) => x.audit_detail@ == e.0 && x.message@ == e.1,
        _ => false,
    }
}

fn done(work: ControlWork, detail: &str) -> (r: Result<ControlOutcome, ControlRejection>)
    ensures
        r matches Ok(o) && o.work == work && opt_text(o.audit_detail) == Some(detail@),
{
    Ok(ControlOutcome { work, audit_detail: Some(owned(detail)) })
}

fn refused(detail: &str, message: String) -> (r: Result<ControlOutcome, ControlRejection>)
    ensures
        r matches Err(x) && x.audit_detail@ == detail@ && x.message@ == message@,
{
    Err(ControlRejection { audit_detail: owned(detail), message })
}

/// The decision of a control command over the current switches; see
/// `control_outcome`.
pub fn control_step(command: ControlCommand, switches: ControlSwitches) -> (r: Result<
    ControlOutcome,
    ControlRejection,
>)
    ensures
        control_result_matches(r, control_outcome(command, switches)),
{
    match command {
        ControlCommand::Status => done(ControlWork::ShowSnapshot { scope: None }, "unified control snapshot"),
        ControlCommand::Refresh => done(ControlWork::ShowSnapshot { scope: None }, "refreshed unified snapshot"),
        ControlCommand::Show { scope } => done(ControlWork::ShowSnapshot { scope: Some(scope) }, "scope snapshot"),
        ControlCommand::Enable { scope } | ControlCommand::Disable { scope } => {
            let on = match command {
                ControlCommand::Enable { .. } => true,
                _ => false,
            };
            let detail = if on {
                "persisted enabled state"
            } else {
                "persisted disabled state"
            };
            let next = match scope {
                ControlScope::Companion => ControlSwitches { companion_enabled: on, ..switches },
                ControlScope::Memory => ControlSwitches { memory_enabled: on, ..switches },
                ControlScope::Persona => ControlSwitches { persona_enabled: on, ..switches },
                ControlScope::Relationship => {
                    return refused(
                        "relationship is a read-only derived view",
                        owned("relationship controls are read-only"),
                    );
                },
            };
            done(ControlWork::PersistSwitches { switches: next, scope }, detail)
        },
        ControlCommand::Clear { scope, confirm } => {
            if !confirm {
                return refused(
                    "explicit confirmation missing",
                    concat(scope_str(scope), " clear requires --confirm; scope impact must be acknowledged"),
                );
            }
            match scope {
                ControlScope::Companion => Ok(
                    ControlOutcome { work: ControlWork::ClearCompanionHistory, audit_detail: None },
                ),
                ControlScope::Memory => Ok(
                    ControlOutcome { work: ControlWork::ClearWorkspaceMemory, audit_detail: None },
                ),
                _ => refused(
                    "scope is read-only and has no clear operation",
                    concat(scope_str(scope), " is read-only and cannot be cleared"),
                ),
            }
        },
        ControlCommand::Audit => Ok(ControlOutcome { work: ControlWork::ShowAudit, audit_detail: None }),
    }
}

/// Nothing about the relationship view can be changed: enabling, disabling or
/// clearing it is always refused, whatever the switches.
pub proof fn law_relationship_is_read_only(switches: ControlSwitches, on: bool, confirm: bool)
    ensures
        control_outcome(ControlCommand::Enable { scope: ControlScope::Relationship }, switches) is Err,
        control_outcome(ControlCommand::Disable { scope: ControlScope::Relationship }, switches) is Err,
        control_outcome(
            ControlCommand::Clear { scope: ControlScope::Relationship, confirm },
            switches,
        ) is Err,
{
}

/// No clear goes ahead without an explicit confirmation.
pub proof fn law_clear_needs_confirmation(scope: ControlScope, switches: ControlSwitches)
    ensures
        control_outcome(ControlCommand::Clear { scope, confirm: false }, switches) is Err,
{
}

/// Enabling or disabling a scope turns that scope's switch only.
pub proof fn law_switch_changes_only_its_scope(scope: ControlScope, switches: ControlSwitches, on: bool)
    requires
        scope != ControlScope::Relationship,
    ensures
        match control_outcome(
            if on {
                ControlCommand::Enable { scope }
            } else {
                ControlCommand::Disable { scope }
            },
            switches,
        ) {
            Ok((ControlWork::PersistSwitches { switches: s, .. }, _)) => {
                &&& (scope == ControlScope::Companion ==> s.companion_enabled == on)
                &&& (scope == ControlScope::Memory ==> s.memory_enabled == on)
                &&& (scope == ControlScope::Persona ==> s.persona_enabled == on)
                &&& (scope != ControlScope::Companion ==> s.companion_enabled == switches.companion_enabled)
                &&& (scope != ControlScope::Memory ==> s.memory_enabled == switches.memory_enabled)
                &&& (scope != ControlScope::Persona ==> s.persona_enabled == switches.persona_enabled)
            },
            _ => false,
        },
{
}

// ---------------------------------------------------------------------------
// `yunxi memory`
// ---------------------------------------------------------------------------

/// A review command on one stored memory.
#[derive(Clone, Copy, Debug, PartialEq, Eq, Structural)]
pub enum MemoryReview {
    Approve,
    Reject,
    Delete,
}

pub open spec fn review_status(review: MemoryReview) -> MemoryStatus {
    match review {
        MemoryReview::Approve => MemoryStatus::Active,
        MemoryReview::Reject => MemoryStatus::Rejected,
        MemoryReview::Delete => MemoryStatus::Archived,
    }
}

pub open spec fn review_audit(review: MemoryReview, id: Seq<char>) -> Seq<char> {
    match review {
        MemoryReview::Approve => "approved memory id="@ + id,
        MemoryReview::Reject => "rejected memory id="@ + id,
        MemoryReview::Delete => "archived memory id="@ + id,
    }
}

/// What a review sets the record to (approve: active, reject: rejected,
/// delete: archived) and the detail the audit records once it is done.
pub fn memory_review_step(review: MemoryReview, id: &str) -> (r: (MemoryStatus, String))
    ensures
        r.0 == review_status(review),
        r.1@ == review_audit(review, id@),
{
    match review {
        MemoryReview::Approve => (MemoryStatus::Active, concat("approved memory id=", id)),
        MemoryReview::Reject => (MemoryStatus::Rejected, concat("rejected memory id=", id)),
        MemoryReview::Delete => (MemoryStatus::Archived, concat("archived memory id=", id)),
    }
}

/// `memory clear` goes ahead only for the workspace scope with an explicit
/// confirmation; otherwise it is refused, and the refusal audited.
pub fn memory_clear_step(workspace: bool, confirm: bool) -> (r: Result<(), ControlRejection>)
    ensures
        workspace && confirm <==> r is Ok,
        r matches Err(x) ==> x.audit_detail@ == "memory clear requires workspace scope and confirmation"@
            && x.message@ == "memory clear requires --workspace --confirm"@,
{
    if !workspace || !confirm {
        return Err(
            ControlRejection {
                audit_detail: owned("memory clear requires workspace scope and confirmation"),
                message: owned("memory clear requires --workspace --confirm"),
            },
        );
    }
    Ok(())
}

/// `memory on` / `memory off`: the settings with the memory switch turned,
/// whether the first-enable notice is due (memory was off and is turned on),
/// and the detail the audit records.
pub fn memory_switch_step(settings: PersonaSettings, on: bool) -> (r: (PersonaSettings, bool, &'static str))
    ensures
        r.0 == (PersonaSettings { memory_enabled: on, ..settings }),
        r.1 == (on && !settings.memory_enabled),
        r.2@ == if on {
            "memory enabled"@
        } else {
            "memory disabled"@
        },
{
    let notice = on && !settings.memory_enabled;
    let detail = if on {
        "memory enabled"
    } else {
        "memory disabled"
    };
    (PersonaSettings { memory_enabled: on, ..settings }, notice, detail)
}

} // verus!
