//! Decisions of a Holochain load-test runner, without I/O.
//!
//! What a runner does with a conductor is a flow: a value that says how far it has come. A flow
//! begins with a request; whoever drives it carries the request out and hands back the reply, and
//! the flow answers with the next request or with how it has ended. Clients, credentials and the
//! errors of failed requests pass through as they are.
//!
//! - [`configure`] finds the URL of the app websocket, with [`app_url`].
//! - [`install`] and [`installed`] open a [`session`] with an agent's app, found in what [`app_info`]
//!   holds, and [`context`] remembers it.
//! - [`discovery`] waits for agents, [`peers`] lists them, and [`zome`] calls the agent's own cell.
//! - [`uninstall`] removes an app, and [`teardown`] ends the domino scenario with the metrics of
//!   [`report`].
//! - [`failure`] words what can go wrong.
//! - [`laws`] states what the flows promise together, and [`promises`] what each call promises.

pub mod app_info;
pub mod app_url;
pub mod configure;
pub mod context;
pub mod discovery;
pub mod failure;
pub mod install;
pub mod installed;
pub mod keys;
pub mod laws;
pub mod peers;
pub mod progress;
pub mod promises;
pub mod report;
pub mod session;
pub mod teardown;
pub mod text;
pub mod uninstall;
pub mod zome;
