//! The state of an interactive session between turns: the configuration the
//! next turn runs with, the session it continues, and how many turns it has
//! run.
use vstd::prelude::*;
use crate::agent::{opt_text_is, AgentConfig, AgentRunResult};
use crate::cli::commands::{reported_session, session_id_from_result};
use crate::text::{concat, decimal, owned, u64_to_decimal};

verus! {

#[derive(Clone, Debug, PartialEq, Eq)]
pub struct InteractiveSession {
    pub config: AgentConfig,
    pub active_session_id: Option<String>,
    pub turn_count: usize,
}

pub open spec fn turn_title(n: nat) -> Seq<char> {
    "Interactive turn "@ + decimal(n)
}

pub open spec fn new_session_title() -> Seq<char> {
    "YunXi interactive session"@
}

impl InteractiveSession {
    /// A session that continues nothing and has run no turn.
    pub fn new(config: AgentConfig) -> (r: InteractiveSession)
        ensures
            r == (InteractiveSession { config, active_session_id: None, turn_count: 0 }),
    {
        InteractiveSession { config, active_session_id: None, turn_count: 0 }
    }

    /// The configuration of the next turn: one that continues a session names
    /// it as the parent and is titled by its number; a first turn is titled as
    /// a new interactive session.
    pub fn turn_config(&self) -> (r: AgentConfig)
        requires
            self.turn_count < usize::MAX,
        ensures
            match self.active_session_id {
                Some(parent) => {
                    &&& opt_text_is(r.parent_session_id, parent@)
                    &&& opt_text_is(r.session_title, turn_title((self.turn_count + 1) as nat))
                    &&& r == (AgentConfig {
                        parent_session_id: r.parent_session_id,
                        session_title: r.session_title,
                        ..self.config
                    })
                },
                None => {
                    &&& opt_text_is(r.session_title, new_session_title())
                    &&& r == (AgentConfig { session_title: r.session_title, ..self.config })
                },
            },
    {
        let config = self.config.copy();
        match &self.active_session_id {
            Some(parent) => {
                let title = concat("Interactive turn ", u64_to_decimal((self.turn_count + 1) as u64).as_str());
                config.with_parent_session_id(parent.as_str()).with_session_title(title.as_str())
            },
            None => config.with_session_title("YunXi interactive session"),
        }
    }

    /// After a turn: the session it reports becomes the active one (the
    /// active one stays when it reports none), and one more turn is counted,
    /// the count stopping at its largest value.
    pub fn update_session_state(&mut self, result: &AgentRunResult)
        ensures
            final(self).config == old(self).config,
            final(self).active_session_id == match reported_session(result.events@) {
                Some(id) => Some(id),
                None => old(self).active_session_id,
            },
            final(self).turn_count == if old(self).turn_count < usize::MAX {
                old(self).turn_count + 1
            } else {
                old(self).turn_count as int
            },
    {
        if let Some(session_id) = session_id_from_result(result) {
            self.active_session_id = Some(session_id);
        }
        self.turn_count = self.turn_count.saturating_add(1);
    }

    /// `/model name` switches the model; `/model` alone keeps it.
    pub fn set_model(&mut self, model: Option<String>)
        ensures
            final(self).active_session_id == old(self).active_session_id,
            final(self).turn_count == old(self).turn_count,
            final(self).config == match model {
                Some(m) => AgentConfig { model: Some(m), ..old(self).config },
                None => old(self).config,
            },
    {
        if let Some(m) = model {
            self.config.model = Some(m);
        }
    }

    /// `/provider name` switches the provider; `/provider` alone keeps it.
    pub fn set_provider(&mut self, provider: Option<String>)
        ensures
            final(self).active_session_id == old(self).active_session_id,
            final(self).turn_count == old(self).turn_count,
            final(self).config == match provider {
                Some(p) => AgentConfig { provider: Some(p), ..old(self).config },
                None => old(self).config,
            },
    {
        if let Some(p) = provider {
            self.config.provider = Some(p);
        }
    }

    /// Resumes a saved session: its model and provider are taken where the
    /// configuration names none, it becomes the active session, and the turn
    /// count starts again.
    pub fn resume(&mut self, session_id: String, model: Option<String>, provider: Option<String>)
        ensures
            final(self).active_session_id == Some(session_id),
            final(self).turn_count == 0,
            final(self).config == (AgentConfig {
                model: if old(self).config.model is None {
                    model
                } else {
                    old(self).config.model
                },
                provider: if old(self).config.provider is None {
                    provider
                } else {
                    old(self).config.provider
                },
                ..old(self).config
            }),
    {
        if self.config.model.is_none() {
            self.config.model = model;
        }
        if self.config.provider.is_none() {
            self.config.provider = provider;
        }
        self.active_session_id = Some(session_id);
        self.turn_count = 0;
    }

    /// The first lines of `/session`: the active session (or `new`), the turn
    /// count and the working directory.
    pub fn session_summary_lines(&self) -> (r: Vec<String>)
        ensures
            r@.len() == 3,
            r@[0]@ == "session: "@ + match self.active_session_id {
                Some(id) => id@,
                None => "new"@,
            },
            r@[1]@ == "turns: "@ + decimal(self.turn_count as nat),
            r@[2]@ == "cwd: "@ + self.config.cwd@,
    {
        let mut out: Vec<String> = Vec::new();
        out.push(
            concat(
                "session: ",
                match &self.active_session_id {
                    Some(id) => id.as_str(),
                    None => "new",
                },
            ),
        );
        out.push(concat("turns: ", u64_to_decimal(self.turn_count as u64).as_str()));
        out.push(concat("cwd: ", self.config.cwd.as_str()));
        out
    }
}

} // verus!
