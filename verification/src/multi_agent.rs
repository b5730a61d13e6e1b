//! Child agents: their identities, statuses and metadata, the commands that
//! manage them, and an in-memory registry that keeps them ordered by id.
use vstd::prelude::*;
use crate::agent::AgentError;
use crate::text::{chars_of, concat, str_eq};

verus! {

#[derive(Clone, Debug, PartialEq, Eq, PartialOrd, Ord)]
pub struct AgentId(pub String);

#[derive(Clone, Copy, Debug, PartialEq, Eq, Structural)]
pub enum AgentStatus {
    Running,
    Completed,
    Failed,
    Interrupted,
}

#[derive(Clone, Debug, PartialEq, Eq)]
pub struct AgentMetadata {
    pub id: AgentId,
    pub parent_id: Option<AgentId>,
    pub task: String,
    pub status: AgentStatus,
}

#[derive(Clone, Debug, PartialEq, Eq)]
pub enum MultiAgentCommand {
    Spawn { task: String, parent_id: Option<AgentId> },
    Wait { id: AgentId },
    SendMessage { id: AgentId, message: String },
    FollowUp { id: AgentId, task: String },
    Interrupt { id: AgentId },
    List,
}

// ---------------------------------------------------------------------------
// Ordering of ids
// ---------------------------------------------------------------------------

/// Lexicographic order of character sequences by code point, the order of
/// `String` (which compares the UTF-8 bytes, and UTF-8 keeps code point order).
pub open spec fn lex_lt(a: Seq<char>, b: Seq<char>) -> bool
    decreases a.len(),
{
    if a.len() == 0 {
        b.len() > 0
    } else if b.len() == 0 {
        false
    } else if a[0] != b[0] {
        a[0] < b[0]
    } else {
        lex_lt(a.skip(1), b.skip(1))
    }
}

/// No sequence comes before itself.
pub proof fn lemma_lex_irreflexive(a: Seq<char>)
    ensures
        !lex_lt(a, a),
    decreases a.len(),
{
    if a.len() > 0 {
        lemma_lex_irreflexive(a.skip(1));
    }
}

/// Two different sequences are ordered one way or the other, never both.
pub proof fn lemma_lex_total(a: Seq<char>, b: Seq<char>)
    ensures
        a != b ==> (lex_lt(a, b) || lex_lt(b, a)),
        !(lex_lt(a, b) && lex_lt(b, a)),
    decreases a.len(),
{
    if a.len() > 0 && b.len() > 0 && a[0] == b[0] {
        lemma_lex_total(a.skip(1), b.skip(1));
        if a.skip(1) == b.skip(1) {
            assert(a =~= seq![a[0]] + a.skip(1));
            assert(b =~= seq![b[0]] + b.skip(1));
        }
    }
    if a.len() == 0 && b.len() == 0 {
        assert(a =~= b);
    }
}

/// The order is transitive.
pub proof fn lemma_lex_transitive(a: Seq<char>, b: Seq<char>, c: Seq<char>)
    requires
        lex_lt(a, b),
        lex_lt(b, c),
    ensures
        lex_lt(a, c),
    decreases a.len(),
{
    if a.len() > 0 && b.len() > 0 && c.len() > 0 && a[0] == b[0] && b[0] == c[0] {
        lemma_lex_transitive(a.skip(1), b.skip(1), c.skip(1));
    }
}

/// Not-after is transitive: `a` no later than `b`, `b` no later than `c`.
pub proof fn lemma_lex_le_transitive(a: Seq<char>, b: Seq<char>, c: Seq<char>)
    requires
        !lex_lt(b, a),
        !lex_lt(c, b),
    ensures
        !lex_lt(c, a),
{
    lemma_lex_total(a, b);
    lemma_lex_total(b, c);
    lemma_lex_total(a, c);
    lemma_lex_irreflexive(a);
    lemma_lex_irreflexive(c);
    if lex_lt(c, a) {
        if a != b && b != c {
            lemma_lex_transitive(c, a, b);
        }
    }
}

/// `a` comes before `b` in the order of strings.
pub fn str_lt(a: &str, b: &str) -> (r: bool)
    ensures
        r == lex_lt(a@, b@),
{
    let x = chars_of(a);
    let y = chars_of(b);
    let mut i: usize = 0;
    proof {
        assert(x@.skip(0) =~= x@);
        assert(y@.skip(0) =~= y@);
    }
    while i < x.len() && i < y.len()
        invariant
            i <= x@.len(),
            i <= y@.len(),
            lex_lt(a@, b@) == lex_lt(x@.skip(i as int), y@.skip(i as int)),
            x@ == a@,
            y@ == b@,
        decreases x@.len() - i,
    {
        proof {
            assert(x@.skip(i as int).skip(1) =~= x@.skip(i + 1));
            assert(y@.skip(i as int).skip(1) =~= y@.skip(i + 1));
        }
        if x[i] != y[i] {
            return x[i] < y[i];
        }
        i = i + 1;
    }
    i < y.len()
}

// ---------------------------------------------------------------------------
// Registry
// ---------------------------------------------------------------------------

/// The agents in strictly increasing order of id.
pub open spec fn agents_sorted(s: Seq<AgentMetadata>) -> bool {
    forall|i: int, j: int| 0 <= i < j < s.len() ==> lex_lt(s[i].id.0@, s[j].id.0@)
}

/// The agents by id.
pub open spec fn agent_map(s: Seq<AgentMetadata>) -> Map<Seq<char>, AgentMetadata>
    decreases s.len(),
{
    if s.len() == 0 {
        Map::empty()
    } else {
        agent_map(s.drop_last()).insert(s.last().id.0@, s.last())
    }
}

/// Agents kept by id, listed in order of id.
#[derive(Clone, Debug)]
pub struct InMemoryAgentRegistry {
    agents: Vec<AgentMetadata>,
}

/// A copy of an agent's metadata.
fn copy_metadata(m: &AgentMetadata) -> (r: AgentMetadata)
    ensures
        r == *m,
{
    AgentMetadata {
        id: AgentId(m.id.0.clone()),
        parent_id: match &m.parent_id {
            Some(p) => Some(AgentId(p.0.clone())),
            None => None,
        },
        task: m.task.clone(),
        status: m.status,
    }
}

/// A sorted sequence holds an id exactly where its map does, with the same
/// metadata.
proof fn lemma_map_of_sorted(s: Seq<AgentMetadata>)
    requires
        agents_sorted(s),
    ensures
        forall|k: Seq<char>|
            #[trigger] agent_map(s).contains_key(k) <==> exists|i: int|
                0 <= i < s.len() && s[i].id.0@ == k,
        forall|i: int| 0 <= i < s.len() ==> #[trigger] agent_map(s)[s[i].id.0@] == s[i],
    decreases s.len(),
{
    if s.len() > 0 {
        let t = s.drop_last();
        assert(agents_sorted(t));
        lemma_map_of_sorted(t);
        assert forall|k: Seq<char>|
            #[trigger] agent_map(s).contains_key(k) <==> exists|i: int|
                0 <= i < s.len() && s[i].id.0@ == k by {
            if agent_map(t).contains_key(k) {
                let i = choose|i: int| 0 <= i < t.len() && t[i].id.0@ == k;
                assert(s[i].id.0@ == k);
            }
            if exists|i: int| 0 <= i < s.len() && s[i].id.0@ == k {
                let i = choose|i: int| 0 <= i < s.len() && s[i].id.0@ == k;
                if i < s.len() - 1 {
                    assert(t[i].id.0@ == k);
                }
            }
        }
        assert forall|i: int| 0 <= i < s.len() implies #[trigger] agent_map(s)[s[i].id.0@]
            == s[i] by {
            if i < s.len() - 1 {
                assert(lex_lt(s[i].id.0@, s.last().id.0@));
                lemma_lex_irreflexive(s[i].id.0@);
                assert(t[i] == s[i]);
                assert(agent_map(t)[t[i].id.0@] == t[i]);
            }
        }
    }
}

impl InMemoryAgentRegistry {
    /// The agents in order of id.
    pub closed spec fn entries(&self) -> Seq<AgentMetadata> {
        self.agents@
    }

    /// The agents by id.
    pub open spec fn view_map(&self) -> Map<Seq<char>, AgentMetadata> {
        agent_map(self.entries())
    }

    /// A registry lists its agents in strictly increasing order of id.
    pub open spec fn wf(&self) -> bool {
        agents_sorted(self.entries())
    }

    pub fn new() -> (r: InMemoryAgentRegistry)
        ensures
            r.wf(),
            r.entries().len() == 0,
    {
        InMemoryAgentRegistry { agents: Vec::new() }
    }

    /// Adds the agent, replacing one with the same id.
    pub fn insert(&mut self, metadata: AgentMetadata) -> (r: Result<(), AgentError>)
        requires
            old(self).wf(),
        ensures
            r is Ok,
            final(self).wf(),
            final(self).view_map() == old(self).view_map().insert(metadata.id.0@, metadata),
    {
        let ghost old_entries = self.agents@;
        let mut i: usize = 0;
        let mut found = false;
        while i < self.agents.len() && !found
            invariant
                i <= self.agents@.len(),
                self.agents@ == old_entries,
                agents_sorted(old_entries),
                forall|j: int| 0 <= j < i ==> lex_lt(#[trigger] old_entries[j].id.0@, metadata.id.0@),
                found ==> i < self.agents@.len() && !lex_lt(
                    old_entries[i as int].id.0@,
                    metadata.id.0@,
                ),
            decreases self.agents@.len() - i + (if found {
                0int
            } else {
                1int
            }),
        {
            if str_lt(self.agents[i].id.0.as_str(), metadata.id.0.as_str()) {
                i = i + 1;
            } else {
                found = true;
            }
        }
        let ghost key = metadata.id.0@;
        if found && str_eq(self.agents[i].id.0.as_str(), metadata.id.0.as_str()) {
            let mut agents: Vec<AgentMetadata> = Vec::new();
            std::mem::swap(&mut agents, &mut self.agents);
            agents.set(i, metadata);
            self.agents = agents;
            proof {
                let s = self.agents@;
                assert(s == old_entries.update(i as int, metadata));
                assert forall|a: int, b: int| 0 <= a < b < s.len() implies lex_lt(
                    s[a].id.0@,
                    s[b].id.0@,
                ) by {
                    assert(old_entries[i as int].id.0@ == key);
                }
                lemma_map_of_sorted(old_entries);
                lemma_map_of_sorted(s);
                assert(self.view_map() =~= agent_map(old_entries).insert(key, metadata)) by {
                    assert forall|k: Seq<char>| #[trigger]
                        self.view_map().contains_key(k) implies agent_map(
                        old_entries,
                    ).insert(key, metadata).contains_key(k) by {
                        let j = choose|j: int| 0 <= j < s.len() && s[j].id.0@ == k;
                        if j != i {
                            assert(old_entries[j].id.0@ == k);
                        }
                    }
                    assert forall|k: Seq<char>| #[trigger]
                        agent_map(old_entries).insert(key, metadata).contains_key(
                            k,
                        ) implies self.view_map().contains_key(k) by {
                        if k != key {
                            let j = choose|j: int|
                                0 <= j < old_entries.len() && old_entries[j].id.0@ == k;
                            assert(s[j].id.0@ == k);
                        } else {
                            assert(s[i as int].id.0@ == k);
                        }
                    }
                    assert forall|k: Seq<char>| #[trigger]
                        self.view_map().contains_key(k) implies self.view_map()[k] == agent_map(
                        old_entries,
                    ).insert(key, metadata)[k] by {
                        let j = choose|j: int| 0 <= j < s.len() && s[j].id.0@ == k;
                        assert(self.view_map()[s[j].id.0@] == s[j]);
                        if j != i {
                            assert(agent_map(old_entries)[old_entries[j].id.0@]
                                == old_entries[j]);
                        }
                    }
                }
            }
        } else {
            proof {
                if found {
                    lemma_lex_total(old_entries[i as int].id.0@, key);
                }
            }
            let mut agents: Vec<AgentMetadata> = Vec::new();
            std::mem::swap(&mut agents, &mut self.agents);
            agents.insert(i, metadata);
            self.agents = agents;
            proof {
                let s = self.agents@;
                assert(s == old_entries.insert(i as int, metadata));
                assert forall|a: int, b: int| 0 <= a < b < s.len() implies lex_lt(
                    s[a].id.0@,
                    s[b].id.0@,
                ) by {
                    if a < i && b == i {
                    } else if a < i && b > i {
                        assert(s[b] == old_entries[b - 1]);
                        if b - 1 > a {
                        }
                    } else if a == i && b > i {
                        assert(s[b] == old_entries[b - 1]);
                        if b - 1 > i {
                            lemma_lex_transitive(key, old_entries[i as int].id.0@, s[b].id.0@);
                        }
                    } else if a > i {
                        assert(s[a] == old_entries[a - 1]);
                        assert(s[b] == old_entries[b - 1]);
                    }
                }
                lemma_map_of_sorted(old_entries);
                lemma_map_of_sorted(s);
                assert forall|j: int| 0 <= j < old_entries.len() implies old_entries[j].id.0@
                    != key by {
                    if j < i {
                        lemma_lex_irreflexive(key);
                    } else {
                        if j > i {
                            lemma_lex_transitive(key, old_entries[i as int].id.0@, old_entries[j].id.0@);
                        }
                        lemma_lex_irreflexive(key);
                    }
                }
                assert(self.view_map() =~= agent_map(old_entries).insert(key, metadata)) by {
                    assert forall|k: Seq<char>| #[trigger]
                        self.view_map().contains_key(k) implies agent_map(
                        old_entries,
                    ).insert(key, metadata).contains_key(k) by {
                        let j = choose|j: int| 0 <= j < s.len() && s[j].id.0@ == k;
                        if j < i {
                            assert(old_entries[j].id.0@ == k);
                        } else if j > i {
                            assert(old_entries[j - 1].id.0@ == k);
                        }
                    }
                    assert forall|k: Seq<char>| #[trigger]
                        agent_map(old_entries).insert(key, metadata).contains_key(
                            k,
                        ) implies self.view_map().contains_key(k) by {
                        if k != key {
                            let j = choose|j: int|
                                0 <= j < old_entries.len() && old_entries[j].id.0@ == k;
                            if j < i {
                                assert(s[j].id.0@ == k);
                            } else {
                                assert(s[j + 1].id.0@ == k);
                            }
                        } else {
                            assert(s[i as int].id.0@ == k);
                        }
                    }
                    assert forall|k: Seq<char>| #[trigger]
                        self.view_map().contains_key(k) implies self.view_map()[k] == agent_map(
                        old_entries,
                    ).insert(key, metadata)[k] by {
                        let j = choose|j: int| 0 <= j < s.len() && s[j].id.0@ == k;
                        assert(self.view_map()[s[j].id.0@] == s[j]);
                        if j < i {
                            assert(agent_map(old_entries)[old_entries[j].id.0@]
                                == old_entries[j]);
                        } else if j > i {
                            assert(agent_map(old_entries)[old_entries[j - 1].id.0@]
                                == old_entries[j - 1]);
                        }
                    }
                }
            }
        }
        Ok(())
    }

    /// Every agent, in order of id.
    pub fn list(&self) -> (r: Result<Vec<AgentMetadata>, AgentError>)
        ensures
            r is Ok,
            r->Ok_0@ == self.entries(),
    {
        let mut out: Vec<AgentMetadata> = Vec::new();
        let mut i: usize = 0;
        while i < self.agents.len()
            invariant
                i <= self.agents@.len(),
                out@ == self.agents@.take(i as int),
            decreases self.agents@.len() - i,
        {
            out.push(copy_metadata(&self.agents[i]));
            proof {
                assert(out@ =~= self.agents@.take(i + 1));
            }
            i = i + 1;
        }
        proof {
            assert(self.agents@.take(i as int) =~= self.agents@);
        }
        Ok(out)
    }

    /// Sets the status of the agent with this id; an unknown id is an error
    /// and changes nothing.
    pub fn set_status(&mut self, id: &AgentId, status: AgentStatus) -> (r: Result<(), AgentError>)
        requires
            old(self).wf(),
        ensures
            final(self).wf(),
            r is Ok <==> old(self).view_map().contains_key(id.0@),
            r is Ok ==> final(self).view_map() == old(self).view_map().insert(
                id.0@,
                AgentMetadata { status, ..old(self).view_map()[id.0@] },
            ),
            r is Err ==> final(self).entries() == old(self).entries(),
            r is Err ==> (r->Err_0 matches AgentError::Execution { message } && message@
                == "agent not found: "@ + id.0@),
    {
        let ghost old_entries = self.agents@;
        proof {
            lemma_map_of_sorted(old_entries);
        }
        let mut i: usize = 0;
        while i < self.agents.len()
            invariant
                i <= self.agents@.len(),
                self.agents@ == old_entries,
                old(self).entries() == old_entries,
                agents_sorted(old_entries),
                forall|j: int| 0 <= j < i ==> (#[trigger] old_entries[j]).id.0@ != id.0@,
            decreases self.agents@.len() - i,
        {
            if str_eq(self.agents[i].id.0.as_str(), id.0.as_str()) {
                let current = copy_metadata(&self.agents[i]);
                let updated = AgentMetadata { status, ..current };
                let mut agents: Vec<AgentMetadata> = Vec::new();
                std::mem::swap(&mut agents, &mut self.agents);
                agents.set(i, updated);
                self.agents = agents;
                proof {
                    let s = self.agents@;
                    let key = id.0@;
                    lemma_map_of_sorted(old_entries);
                    assert(updated.id == old_entries[i as int].id);
                    assert(s == old_entries.update(i as int, updated));
                    assert(agents_sorted(s)) by {
                        assert forall|a: int, b: int| 0 <= a < b < s.len() implies lex_lt(
                            s[a].id.0@,
                            s[b].id.0@,
                        ) by {
                            assert(s[a].id == old_entries[a].id);
                            assert(s[b].id == old_entries[b].id);
                        }
                    }
                    lemma_map_of_sorted(s);
                    assert(agent_map(old_entries)[key] == old_entries[i as int]);
                    assert(self.view_map() =~= agent_map(old_entries).insert(key, updated)) by {
                        assert forall|k: Seq<char>| #[trigger]
                            self.view_map().contains_key(k) implies agent_map(
                            old_entries,
                        ).insert(key, updated).contains_key(k) by {
                            let j = choose|j: int| 0 <= j < s.len() && s[j].id.0@ == k;
                            assert(old_entries[j].id.0@ == k);
                        }
                        assert forall|k: Seq<char>| #[trigger]
                            agent_map(old_entries).insert(key, updated).contains_key(
                                k,
                            ) implies self.view_map().contains_key(k) by {
                            if k != key {
                                let j = choose|j: int|
                                    0 <= j < old_entries.len() && old_entries[j].id.0@ == k;
                                assert(s[j].id.0@ == k);
                            } else {
                                assert(s[i as int].id.0@ == k);
                            }
                        }
                        assert forall|k: Seq<char>| #[trigger]
                            self.view_map().contains_key(k) implies self.view_map()[k]
                            == agent_map(old_entries).insert(key, updated)[k] by {
                            let j = choose|j: int| 0 <= j < s.len() && s[j].id.0@ == k;
                            assert(self.view_map()[s[j].id.0@] == s[j]);
                            if j != i {
                                assert(agent_map(old_entries)[old_entries[j].id.0@]
                                    == old_entries[j]);
                            }
                        }
                    }
                }
                return Ok(());
            }
            i = i + 1;
        }
        let message = concat("agent not found: ", id.0.as_str());
        Err(AgentError::Execution { message })
    }
}

/// The list names every registered agent once, in increasing order of id, each
/// with the metadata registered under its id.
pub proof fn law_listing_is_ordered_by_id(registry: &InMemoryAgentRegistry)
    requires
        registry.wf(),
    ensures
        forall|i: int, j: int|
            0 <= i < j < registry.entries().len() ==> lex_lt(
                registry.entries()[i].id.0@,
                registry.entries()[j].id.0@,
            ),
        forall|k: Seq<char>|
            #[trigger] registry.view_map().contains_key(k) <==> exists|i: int|
                0 <= i < registry.entries().len() && registry.entries()[i].id.0@ == k,
        forall|i: int|
            0 <= i < registry.entries().len() ==> #[trigger] registry.view_map()[registry.entries()[i].id.0@]
                == registry.entries()[i],
{
    lemma_map_of_sorted(registry.entries());
}

/// An agent just inserted is listed, with the metadata it was inserted with.
pub proof fn law_inserted_agent_is_listed(
    before: &InMemoryAgentRegistry,
    after: &InMemoryAgentRegistry,
    metadata: AgentMetadata,
)
    requires
        before.wf(),
        after.wf(),
        after.view_map() == before.view_map().insert(metadata.id.0@, metadata),
    ensures
        exists|i: int| 0 <= i < after.entries().len() && after.entries()[i] == metadata,
{
    lemma_map_of_sorted(after.entries());
    assert(after.view_map().contains_key(metadata.id.0@));
    let i = choose|i: int|
        0 <= i < after.entries().len() && after.entries()[i].id.0@ == metadata.id.0@;
    assert(after.view_map()[after.entries()[i].id.0@] == after.entries()[i]);
}

/// In a registry listed in order of id, an agent is listed exactly when the
/// map holds it under its id.
proof fn lemma_listed_iff_mapped(s: Seq<AgentMetadata>, a: AgentMetadata)
    requires
        agents_sorted(s),
    ensures
        s.contains(a) <==> (agent_map(s).contains_key(a.id.0@) && agent_map(s)[a.id.0@] == a),
{
    lemma_map_of_sorted(s);
    if s.contains(a) {
        let i = choose|i: int| 0 <= i < s.len() && s[i] == a;
        assert(agent_map(s)[s[i].id.0@] == s[i]);
    }
    if agent_map(s).contains_key(a.id.0@) && agent_map(s)[a.id.0@] == a {
        let i = choose|i: int| 0 <= i < s.len() && s[i].id.0@ == a.id.0@;
        assert(agent_map(s)[s[i].id.0@] == s[i]);
        assert(s[i] == a);
    }
}

/// After `insert`, the listing is the old one with any agent of the same id
/// replaced by the new one, still in order of id: the new agent is listed,
/// every old agent with another id stays listed, and nothing else is.
pub proof fn law_insert_replaces_in_listing(
    before: &InMemoryAgentRegistry,
    after: &InMemoryAgentRegistry,
    metadata: AgentMetadata,
)
    requires
        before.wf(),
        after.wf(),
        after.view_map() == before.view_map().insert(metadata.id.0@, metadata),
    ensures
        forall|a: AgentMetadata|
            #[trigger] after.entries().contains(a) <==> (a == metadata || (before.entries().contains(a)
                && a.id.0@ != metadata.id.0@)),
{
    assert forall|a: AgentMetadata|
        #[trigger] after.entries().contains(a) <==> (a == metadata || (before.entries().contains(a)
            && a.id.0@ != metadata.id.0@)) by {
        lemma_listed_iff_mapped(after.entries(), a);
        lemma_listed_iff_mapped(before.entries(), a);
    }
}

/// After a successful `set_status`, the listing is the old one with that
/// agent's status changed and everything else kept, still in order of id.
pub proof fn law_set_status_updates_listing(
    before: &InMemoryAgentRegistry,
    after: &InMemoryAgentRegistry,
    id: AgentId,
    status: AgentStatus,
)
    requires
        before.wf(),
        after.wf(),
        before.view_map().contains_key(id.0@),
        after.view_map() == before.view_map().insert(
            id.0@,
            AgentMetadata { status, ..before.view_map()[id.0@] },
        ),
    ensures
        forall|a: AgentMetadata|
            #[trigger] after.entries().contains(a) <==> ((a.id.0@ == id.0@ && exists|old_a: AgentMetadata|
                before.entries().contains(old_a) && old_a.id.0@ == id.0@ && a == (AgentMetadata {
                    status,
                    ..old_a
                })) || (before.entries().contains(a) && a.id.0@ != id.0@)),
{
    let old_a = before.view_map()[id.0@];
    lemma_map_of_sorted(before.entries());
    let i = choose|i: int| 0 <= i < before.entries().len() && before.entries()[i].id.0@ == id.0@;
    assert(before.view_map()[before.entries()[i].id.0@] == before.entries()[i]);
    assert(before.entries().contains(old_a));
    let updated = AgentMetadata { status, ..old_a };
    law_insert_replaces_in_listing(before, after, updated);
    assert forall|a: AgentMetadata|
        #[trigger] after.entries().contains(a) <==> ((a.id.0@ == id.0@ && exists|o: AgentMetadata|
            before.entries().contains(o) && o.id.0@ == id.0@ && a == (AgentMetadata { status, ..o }))
            || (before.entries().contains(a) && a.id.0@ != id.0@)) by {
        if exists|o: AgentMetadata|
            before.entries().contains(o) && o.id.0@ == id.0@ && a == (AgentMetadata { status, ..o }) {
            let o = choose|o: AgentMetadata|
                before.entries().contains(o) && o.id.0@ == id.0@ && a == (AgentMetadata { status, ..o });
            lemma_listed_iff_mapped(before.entries(), o);
        }
    }
}

impl Default for InMemoryAgentRegistry {
    fn default() -> (r: Self)
        ensures
            r.wf(),
            r.entries().len() == 0,
    {
        InMemoryAgentRegistry::new()
    }
}

} // verus!
