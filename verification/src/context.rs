//! What a runner and its agents remember between hooks.

use crate::keys::CellId;
use vstd::prelude::*;

verus! {

/// An open session with an installed app, over a client of type `C`.
#[derive(Debug, PartialEq, Eq)]
pub struct Session<C> {
    pub installed_app_id: String,
    pub cell_id: CellId,
    pub app_client: C,
}

/// An agent, and what it remembers about the app it works with.
#[derive(Debug, PartialEq, Eq)]
pub struct AgentContext<C> {
    pub agent_name: String,
    pub installed_app_id: Option<String>,
    pub cell_id: Option<CellId>,
    pub app_client: Option<C>,
}

/// A run, and what the runner remembers for all its agents.
#[derive(Debug, PartialEq, Eq)]
pub struct RunnerContext {
    /// The URL of the conductor's admin interface.
    pub connection_string: String,
    pub run_id: String,
    /// The URL of the conductor's app interface, once it is configured.
    pub app_ws_url: Option<String>,
}

impl<C> AgentContext<C> {
    /// An agent that has no app yet.
    pub fn new(agent_name: String) -> (ctx: Self)
        ensures
            ctx == (AgentContext::<C> {
                agent_name,
                installed_app_id: None,
                cell_id: None,
                app_client: None,
            }),
    {
        AgentContext { agent_name, installed_app_id: None, cell_id: None, app_client: None }
    }

    /// The agent remembers this session and no other.
    pub open spec fn holds(self, session: Session<C>) -> bool {
        &&& self.installed_app_id == Some(session.installed_app_id)
        &&& self.cell_id == Some(session.cell_id)
        &&& self.app_client == Some(session.app_client)
    }

    /// Remembers a session that was opened, or hands on the reason why none was and remembers what
    /// it did before.
    pub fn record<X>(&mut self, opened: Result<Session<C>, X>) -> (recorded: Result<(), X>)
        ensures
            final(self).agent_name == old(self).agent_name,
            match opened {
                Ok(session) => final(self).holds(session) && recorded == Ok::<(), X>(()),
                Err(error) => *final(self) == *old(self) && recorded == Err::<(), X>(error),
            },
    {
        match opened {
            Ok(session) => {
                self.installed_app_id = Some(session.installed_app_id);
                self.cell_id = Some(session.cell_id);
                self.app_client = Some(session.app_client);
                Ok(())
            },
            Err(error) => Err(error),
        }
    }
}

impl RunnerContext {
    /// A run against a conductor of which only the admin interface is known.
    pub fn new(connection_string: String, run_id: String) -> (ctx: Self)
        ensures
            ctx == (RunnerContext { connection_string, run_id, app_ws_url: None }),
    {
        RunnerContext { connection_string, run_id, app_ws_url: None }
    }

    /// Remembers the app URL that was configured, or hands on the reason why there is none and
    /// remembers what it did before.
    pub fn record<X>(&mut self, configured: Result<String, X>) -> (recorded: Result<(), X>)
        ensures
            match configured {
                Ok(url) => {
                    &&& *final(self) == (RunnerContext { app_ws_url: Some(url), ..*old(self) })
                    &&& recorded == Ok::<(), X>(())
                },
                Err(error) => *final(self) == *old(self) && recorded == Err::<(), X>(error),
            },
    {
        match configured {
            Ok(url) => {
                self.app_ws_url = Some(url);
                Ok(())
            },
            Err(error) => Err(error),
        }
    }
}

} // verus!
