//! Uninstalling an app.

use crate::context::{AgentContext, RunnerContext};
use crate::progress::Progress;
use vstd::prelude::*;

verus! {

/// What uninstalling an app asks for.
#[derive(Debug, PartialEq, Eq)]
pub enum UninstallRequest {
    /// Connect to the admin interface.
    ConnectAdmin { admin_ws_url: String },
    /// Uninstall the app.
    UninstallApp { installed_app_id: String },
}

/// What comes back. `E` is what a failed request came back with.
#[derive(Debug, PartialEq, Eq)]
pub enum UninstallReply<E> {
    AdminConnected(Result<(), E>),
    AppUninstalled(Result<(), E>),
}

/// Why an app could not be uninstalled.
#[derive(Debug, PartialEq, Eq)]
pub enum UninstallError<E> {
    /// Connecting to the admin interface failed.
    ConnectAdmin(E),
    /// Uninstalling the app failed.
    UninstallApp(E),
}

/// An app that is being uninstalled.
#[derive(Debug, PartialEq, Eq)]
pub enum UninstallFlow {
    ConnectingAdmin { installed_app_id: String },
    Uninstalling,
    Finished,
}

/// What an uninstall flow answers.
pub type UninstallProgress<E> = Progress<UninstallRequest, (), UninstallError<E>>;

/// The app to uninstall: the one given, else the one that the agent remembers.
pub open spec fn app_to_uninstall<C>(
    installed_app_id: Option<String>,
    ctx: AgentContext<C>,
) -> Option<String> {
    if installed_app_id is Some {
        installed_app_id
    } else {
        ctx.installed_app_id
    }
}

impl UninstallFlow {
    /// What follows a reply.
    pub open spec fn next<E>(self, reply: UninstallReply<E>) -> (Self, Option<UninstallProgress<E>>) {
        match (self, reply) {
            (
                UninstallFlow::ConnectingAdmin { installed_app_id },
                UninstallReply::AdminConnected(Ok(_)),
            ) => (
                UninstallFlow::Uninstalling,
                Some(Progress::Ask(UninstallRequest::UninstallApp { installed_app_id })),
            ),
            (
                UninstallFlow::ConnectingAdmin { installed_app_id: _ },
                UninstallReply::AdminConnected(Err(error)),
            ) => (
                UninstallFlow::Finished,
                Some(Progress::Finish(Err(UninstallError::ConnectAdmin(error)))),
            ),
            (UninstallFlow::Uninstalling, UninstallReply::AppUninstalled(Ok(_))) => (
                UninstallFlow::Finished,
                Some(Progress::Finish(Ok(()))),
            ),
            (UninstallFlow::Uninstalling, UninstallReply::AppUninstalled(Err(error))) => (
                UninstallFlow::Finished,
                Some(Progress::Finish(Err(UninstallError::UninstallApp(error)))),
            ),
            _ => (self, None),
        }
    }

    /// Begins to uninstall the app given, or else the one that the agent remembers. Where there is
    /// neither, there is nothing to uninstall and not even a connection to make.
    pub fn begin<C, E>(
        runner: &RunnerContext,
        ctx: &AgentContext<C>,
        installed_app_id: Option<String>,
    ) -> (res: (UninstallFlow, UninstallProgress<E>))
        ensures
            res == (match app_to_uninstall(installed_app_id, *ctx) {
                Some(installed_app_id) => (
                    UninstallFlow::ConnectingAdmin { installed_app_id },
                    Progress::<_, (), UninstallError<E>>::Ask(
                        UninstallRequest::ConnectAdmin { admin_ws_url: runner.connection_string },
                    ),
                ),
                None => (UninstallFlow::Finished, Progress::Finish(Ok(()))),
            }),
    {
        let target = match installed_app_id {
            Some(installed_app_id) => Some(installed_app_id),
            None => match &ctx.installed_app_id {
                Some(installed_app_id) => Some(installed_app_id.clone()),
                None => None,
            },
        };
        match target {
            Some(installed_app_id) => (
                UninstallFlow::ConnectingAdmin { installed_app_id },
                Progress::Ask(
                    UninstallRequest::ConnectAdmin {
                        admin_ws_url: runner.connection_string.clone(),
                    },
                ),
            ),
            None => (UninstallFlow::Finished, Progress::Finish(Ok(()))),
        }
    }
}

/// Takes the uninstallation of an app one reply further.
pub fn uninstall_app<E>(flow: UninstallFlow, reply: UninstallReply<E>) -> (res: (
    UninstallFlow,
    Option<UninstallProgress<E>>,
))
    ensures
        res == flow.next(reply),
{
    match (flow, reply) {
        (
            UninstallFlow::ConnectingAdmin { installed_app_id },
            UninstallReply::AdminConnected(Ok(_)),
        ) => (
            UninstallFlow::Uninstalling,
            Some(Progress::Ask(UninstallRequest::UninstallApp { installed_app_id })),
        ),
        (
            UninstallFlow::ConnectingAdmin { installed_app_id: _ },
            UninstallReply::AdminConnected(Err(error)),
        ) => (
            UninstallFlow::Finished,
            Some(Progress::Finish(Err(UninstallError::ConnectAdmin(error)))),
        ),
        (UninstallFlow::Uninstalling, UninstallReply::AppUninstalled(Ok(_))) => (
            UninstallFlow::Finished,
            Some(Progress::Finish(Ok(()))),
        ),
        (UninstallFlow::Uninstalling, UninstallReply::AppUninstalled(Err(error))) => (
            UninstallFlow::Finished,
            Some(Progress::Finish(Err(UninstallError::UninstallApp(error)))),
        ),
        (flow, _) => (flow, None),
    }
}

impl UninstallFlow {
    /// How many replies the flow still waits for at most.
    pub open spec fn steps_left(self) -> nat {
        match self {
            UninstallFlow::ConnectingAdmin { installed_app_id: _ } => 2,
            UninstallFlow::Uninstalling => 1,
            UninstallFlow::Finished => 0,
        }
    }
}

/// Uninstalling comes to an end: every reply that is answered brings the end closer, and the end is
/// reached with the answer that says so.
pub proof fn law_uninstalling_ends<E>(flow: UninstallFlow, reply: UninstallReply<E>)
    ensures
        flow.next(reply).1 is Some ==> flow.next(reply).0.steps_left() < flow.steps_left(),
        flow.next(reply).1 matches Some(progress) ==> (progress is Finish <==> flow.next(
            reply,
        ).0.steps_left() == 0),
        flow.steps_left() == 0 ==> flow.next(reply).1 is None,
{
}

} // verus!
