//! Memory scopes, kinds and statuses, and recall requests.
use vstd::prelude::*;
use crate::text::{concat, owned, str_eq};

verus! {

/// The schema version of memory records.
pub const SCHEMA_VERSION: u32 = 1;

/// Where a memory applies.
#[derive(Clone, Debug, PartialEq, Eq)]
pub enum MemoryScope {
    GlobalUser,
    Workspace { root_fingerprint: String },
    AgentIdentity,
    Relationship,
}

pub open spec fn scope_label(scope: MemoryScope) -> Seq<char> {
    match scope {
        MemoryScope::GlobalUser => "global_user"@,
        MemoryScope::Workspace { root_fingerprint } => "workspace:"@ + root_fingerprint@,
        MemoryScope::AgentIdentity => "agent_identity"@,
        MemoryScope::Relationship => "relationship"@,
    }
}

impl MemoryScope {
    pub fn label(&self) -> (r: String)
        ensures
            r@ == scope_label(*self),
    {
        match self {
            MemoryScope::GlobalUser => owned("global_user"),
            MemoryScope::Workspace { root_fingerprint } => concat(
                "workspace:",
                root_fingerprint.as_str(),
            ),
            MemoryScope::AgentIdentity => owned("agent_identity"),
            MemoryScope::Relationship => owned("relationship"),
        }
    }

    /// A workspace scope for exactly this fingerprint.
    pub fn is_workspace_match(&self, root_fingerprint: &str) -> (r: bool)
        ensures
            r == (*self matches MemoryScope::Workspace { root_fingerprint: f } && f@
                == root_fingerprint@),
    {
        match self {
            MemoryScope::Workspace { root_fingerprint: current } => str_eq(
                current.as_str(),
                root_fingerprint,
            ),
            _ => false,
        }
    }
}

#[derive(Clone, Copy, Debug, PartialEq, Eq, Structural)]
pub enum MemoryKind {
    Preference,
    PersonalFact,
    RelationshipNote,
    EmotionalState,
    Goal,
    ProjectContext,
    Correction,
    Event,
    ToolTraceSummary,
}

#[derive(Clone, Copy, Debug, PartialEq, Eq, Structural)]
pub enum MemorySensitivity {
    Low,
    Medium,
    High,
}

#[derive(Clone, Copy, Debug, PartialEq, Eq, Structural)]
pub enum MemoryStatus {
    Active,
    Pending,
    Rejected,
    Archived,
}

/// A stored memory. Its confidence and importance are kept in thousandths
/// (0 to 1000).
#[derive(Clone, Debug, PartialEq, Eq)]
pub struct MemoryRecord {
    pub id: String,
    pub schema_version: u32,
    pub scope: MemoryScope,
    pub kind: MemoryKind,
    pub content: String,
    pub source_session_id: Option<String>,
    pub confidence_permille: u32,
    pub importance_permille: u32,
    pub sensitivity: MemorySensitivity,
    pub status: MemoryStatus,
    pub created_at_millis: u128,
    pub updated_at_millis: u128,
}

impl MemoryRecord {
    /// A pending, low-sensitivity record made at `now`, with confidence 0.75,
    /// importance 0.5 and no source session.
    pub fn new(id: &str, scope: MemoryScope, kind: MemoryKind, content: &str, now: u128) -> (r:
        MemoryRecord)
        ensures
            r.id@ == id@,
            r.schema_version == SCHEMA_VERSION,
            r.scope == scope,
            r.kind == kind,
            r.content@ == content@,
            r.source_session_id is None,
            r.confidence_permille == 750,
            r.importance_permille == 500,
            r.sensitivity == MemorySensitivity::Low,
            r.status == MemoryStatus::Pending,
            r.created_at_millis == now,
            r.updated_at_millis == now,
    {
        MemoryRecord {
            id: owned(id),
            schema_version: SCHEMA_VERSION,
            scope,
            kind,
            content: owned(content),
            source_session_id: None,
            confidence_permille: 750,
            importance_permille: 500,
            sensitivity: MemorySensitivity::Low,
            status: MemoryStatus::Pending,
            created_at_millis: now,
            updated_at_millis: now,
        }
    }

    /// The record with its source session set.
    pub fn with_source_session_id(self, source_session_id: &str) -> (r: MemoryRecord)
        ensures
            r == (MemoryRecord { source_session_id: r.source_session_id, ..self }),
            r.source_session_id is Some,
            r.source_session_id->0@ == source_session_id@,
    {
        MemoryRecord { source_session_id: Some(owned(source_session_id)), ..self }
    }

    /// The record with its scores set, each clamped to 0..=1000 thousandths.
    pub fn with_scores(self, confidence_permille: u32, importance_permille: u32) -> (r: MemoryRecord)
        ensures
            r == (MemoryRecord {
                confidence_permille: if confidence_permille > 1000 {
                    1000
                } else {
                    confidence_permille
                },
                importance_permille: if importance_permille > 1000 {
                    1000
                } else {
                    importance_permille
                },
                ..self
            }),
    {
        let confidence = if confidence_permille > 1000 {
            1000
        } else {
            confidence_permille
        };
        let importance = if importance_permille > 1000 {
            1000
        } else {
            importance_permille
        };
        MemoryRecord { confidence_permille: confidence, importance_permille: importance, ..self }
    }

    /// The record with its sensitivity set.
    pub fn with_sensitivity(self, sensitivity: MemorySensitivity) -> (r: MemoryRecord)
        ensures
            r == (MemoryRecord { sensitivity, ..self }),
    {
        MemoryRecord { sensitivity, ..self }
    }
}

/// A request to recall memory for a query.
#[derive(Clone, Debug, PartialEq, Eq)]
pub struct MemoryRecallRequest {
    pub query: String,
    pub workspace_fingerprint: Option<String>,
    pub max_records: usize,
    pub budget_chars: usize,
}

impl MemoryRecallRequest {
    /// A request with no workspace, at most eight records and 1200 characters.
    pub fn new(query: &str) -> (r: MemoryRecallRequest)
        ensures
            r.query@ == query@,
            r.workspace_fingerprint is None,
            r.max_records == 8,
            r.budget_chars == 1200,
    {
        MemoryRecallRequest {
            query: owned(query),
            workspace_fingerprint: None,
            max_records: 8,
            budget_chars: 1200,
        }
    }
}

/// Whether a memory in `scope` applies to a recall for the given workspace:
/// global, identity and relationship memory always does, workspace memory only
/// for its own workspace.
pub open spec fn scope_applies(scope: MemoryScope, workspace: Option<Seq<char>>) -> bool {
    match scope {
        MemoryScope::Workspace { root_fingerprint } => workspace == Some(root_fingerprint@),
        _ => true,
    }
}

pub open spec fn opt_str_view(o: Option<&str>) -> Option<Seq<char>> {
    match o {
        Some(s) => Some(s@),
        None => None,
    }
}

pub fn scope_matches(scope: &MemoryScope, workspace_fingerprint: Option<&str>) -> (r: bool)
    ensures
        r == scope_applies(*scope, opt_str_view(workspace_fingerprint)),
{
    match scope {
        MemoryScope::Workspace { root_fingerprint } => match workspace_fingerprint {
            Some(w) => str_eq(w, root_fingerprint.as_str()),
            None => false,
        },
        _ => true,
    }
}

} // verus!
