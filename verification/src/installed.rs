//! Taking up an app that is already installed, as though it had just been installed.

use crate::app_info::{
    agent_app_id, cell_id_for_role, find_app, find_app_info, get_cell_id_for_role_name,
    installed_app_id_for_agent, AppInfo, AppInfoStatus, AppStatusFilter,
};
use crate::context::{AgentContext, RunnerContext, Session};
use crate::keys::CellId;
use crate::progress::Progress;
use crate::session::{
    open_session, SessionFlow, SessionProgress, SessionReply, SessionRequest, SessionStep, SetupError,
};
use vstd::prelude::*;

verus! {

/// What taking up an installed app asks for.
#[derive(Debug, PartialEq, Eq)]
pub enum InstalledRequest<K> {
    /// Connect to the admin interface.
    ConnectAdmin { admin_ws_url: String },
    /// List the installed apps: those that pass the filter, or all.
    ListApps { status_filter: Option<AppStatusFilter> },
    /// Open a session with the app.
    Session(SessionRequest<K>),
}

/// What comes back.
#[derive(Debug, PartialEq, Eq)]
pub enum InstalledReply<K, C, E> {
    AdminConnected(Result<(), E>),
    AppsListed(Result<Vec<AppInfo>, E>),
    Session(SessionReply<K, C, E>),
}

/// How far taking up the app has come.
#[derive(Debug, PartialEq, Eq)]
pub enum InstalledStep<K> {
    ConnectingAdmin,
    ListingApps,
    OpeningSession(SessionFlow<K>),
    Finished,
}

/// An installed app that is being taken up.
#[derive(Debug, PartialEq, Eq)]
pub struct InstalledFlow<K> {
    pub app_ws_url: String,
    pub installed_app_id: String,
    pub role_name: String,
    pub step: InstalledStep<K>,
}

/// What such a flow answers.
pub type InstalledProgress<K, C, E> = Progress<InstalledRequest<K>, Session<C>, SetupError<E>>;

/// The cell to call: under the role, in the app that is installed under the id, which must be
/// running.
pub open spec fn running_cell<E>(
    app_infos: Seq<AppInfo>,
    installed_app_id: String,
    role_name: Seq<char>,
) -> Result<CellId, SetupError<E>> {
    match find_app(app_infos, installed_app_id@) {
        None => Err(SetupError::AppNotFound(installed_app_id)),
        Some(app_info) => if app_info.status != AppInfoStatus::Running {
            Err(SetupError::AppNotRunning(installed_app_id))
        } else {
            match cell_id_for_role(app_info, role_name) {
                Ok(cell_id) => Ok(cell_id),
                Err(error) => Err(SetupError::Role(error)),
            }
        },
    }
}

/// Finds the cell to call among the installed apps.
pub fn find_running_cell<E>(
    app_infos: &Vec<AppInfo>,
    installed_app_id: &String,
    role_name: &String,
) -> (cell_id: Result<CellId, SetupError<E>>)
    ensures
        cell_id == running_cell::<E>(app_infos@, *installed_app_id, role_name@),
{
    match find_app_info(app_infos, installed_app_id) {
        None => Err(SetupError::AppNotFound(installed_app_id.clone())),
        Some(app_info) => match app_info.status {
            AppInfoStatus::Running => match get_cell_id_for_role_name(app_info, role_name) {
                Ok(cell_id) => Ok(cell_id),
                Err(error) => Err(SetupError::Role(error)),
            },
            _ => Err(SetupError::AppNotRunning(installed_app_id.clone())),
        },
    }
}

impl<K> InstalledFlow<K> {
    pub open spec fn at(self, step: InstalledStep<K>) -> Self {
        InstalledFlow { step, ..self }
    }

    /// Goes on to `step` with a request.
    pub open spec fn asking<C, E>(self, step: InstalledStep<K>, request: InstalledRequest<K>) -> (
        Self,
        Option<InstalledProgress<K, C, E>>,
    ) {
        (self.at(step), Some(Progress::Ask(request)))
    }

    /// Ends with an error.
    pub open spec fn failing<C, E>(self, error: SetupError<E>) -> (
        Self,
        Option<InstalledProgress<K, C, E>>,
    ) {
        (self.at(InstalledStep::Finished), Some(Progress::Finish(Err(error))))
    }

    /// The session to open with a cell of the app.
    pub open spec fn session_flow(self, cell_id: CellId) -> SessionFlow<K> {
        SessionFlow {
            app_ws_url: self.app_ws_url,
            installed_app_id: self.installed_app_id,
            cell_id,
            step: SessionStep::Authorizing,
        }
    }

    /// What follows a reply.
    pub open spec fn next<C, E>(self, reply: InstalledReply<K, C, E>) -> (
        Self,
        Option<InstalledProgress<K, C, E>>,
    ) {
        match (self.step, reply) {
            (InstalledStep::ConnectingAdmin, InstalledReply::AdminConnected(Ok(_))) => self.asking(
                InstalledStep::ListingApps,
                InstalledRequest::ListApps { status_filter: None },
            ),
            (InstalledStep::ConnectingAdmin, InstalledReply::AdminConnected(Err(error))) =>
                self.failing(SetupError::ConnectAdmin(error)),
            (InstalledStep::ListingApps, InstalledReply::AppsListed(Ok(app_infos))) =>
                match running_cell(app_infos@, self.installed_app_id, self.role_name@) {
                    Ok(cell_id) => self.asking(
                        InstalledStep::OpeningSession(self.session_flow(cell_id)),
                        InstalledRequest::Session(SessionFlow::first_request(cell_id)),
                    ),
                    Err(error) => self.failing(error),
                },
            (InstalledStep::ListingApps, InstalledReply::AppsListed(Err(error))) => self.failing(
                SetupError::ListApps(error),
            ),
            (InstalledStep::OpeningSession(session), InstalledReply::Session(reply)) => {
                let (session, progress) = session.next(reply);
                (self.at(InstalledStep::OpeningSession(session)), from_session(progress))
            },
            _ => (self, None),
        }
    }

    /// Begins to take up an agent's installed app.
    pub fn begin<C>(runner: &RunnerContext, ctx: &AgentContext<C>, role_name: String) -> (res: (
        InstalledFlow<K>,
        InstalledRequest<K>,
    ))
        requires
            runner.app_ws_url is Some,
        ensures
            res.0.installed_app_id@ == agent_app_id(ctx.agent_name@),
            res.0 == (InstalledFlow {
                app_ws_url: runner.app_ws_url->0,
                installed_app_id: res.0.installed_app_id,
                role_name,
                step: InstalledStep::<K>::ConnectingAdmin,
            }),
            res.1 == (InstalledRequest::<K>::ConnectAdmin {
                admin_ws_url: runner.connection_string,
            }),
    {
        let app_ws_url = runner.app_ws_url.clone().unwrap();
        let flow = InstalledFlow {
            app_ws_url,
            installed_app_id: installed_app_id_for_agent(ctx.agent_name.as_str()),
            role_name,
            step: InstalledStep::ConnectingAdmin,
        };
        (flow, InstalledRequest::ConnectAdmin { admin_ws_url: runner.connection_string.clone() })
    }
}

/// What the flow answers where opening the session answers `progress`.
pub open spec fn from_session<K, C, E>(progress: Option<SessionProgress<K, C, E>>) -> Option<
    InstalledProgress<K, C, E>,
> {
    match progress {
        Some(Progress::Ask(request)) => Some(Progress::Ask(InstalledRequest::Session(request))),
        Some(Progress::Finish(outcome)) => Some(Progress::Finish(outcome)),
        None => None,
    }
}

/// Takes the taking up of an installed app one reply further.
pub fn use_installed_app<K, C, E>(flow: InstalledFlow<K>, reply: InstalledReply<K, C, E>) -> (res: (
    InstalledFlow<K>,
    Option<InstalledProgress<K, C, E>>,
))
    ensures
        res == flow.next(reply),
{
    let InstalledFlow { app_ws_url, installed_app_id, role_name, step } = flow;
    let (step, progress) = match (step, reply) {
        (InstalledStep::ConnectingAdmin, InstalledReply::AdminConnected(Ok(_))) => (
            InstalledStep::ListingApps,
            Some(Progress::Ask(InstalledRequest::ListApps { status_filter: None })),
        ),
        (InstalledStep::ConnectingAdmin, InstalledReply::AdminConnected(Err(error))) => (
            InstalledStep::Finished,
            Some(Progress::Finish(Err(SetupError::ConnectAdmin(error)))),
        ),
        (InstalledStep::ListingApps, InstalledReply::AppsListed(Ok(app_infos))) => {
            match find_running_cell(&app_infos, &installed_app_id, &role_name) {
                Ok(cell_id) => {
                    let session = SessionFlow {
                        app_ws_url: app_ws_url.clone(),
                        installed_app_id: installed_app_id.clone(),
                        cell_id,
                        step: SessionStep::Authorizing,
                    };
                    let request = SessionRequest::AuthorizeSigning { cell_id, functions: None };
                    (
                        InstalledStep::OpeningSession(session),
                        Some(Progress::Ask(InstalledRequest::Session(request))),
                    )
                },
                Err(error) => (InstalledStep::Finished, Some(Progress::Finish(Err(error)))),
            }
        },
        (InstalledStep::ListingApps, InstalledReply::AppsListed(Err(error))) => (
            InstalledStep::Finished,
            Some(Progress::Finish(Err(SetupError::ListApps(error)))),
        ),
        (InstalledStep::OpeningSession(session), InstalledReply::Session(reply)) => {
            let (session, progress) = open_session(session, reply);
            let progress = match progress {
                Some(Progress::Ask(request)) => Some(
                    Progress::Ask(InstalledRequest::Session(request)),
                ),
                Some(Progress::Finish(outcome)) => Some(Progress::Finish(outcome)),
                None => None,
            };
            (InstalledStep::OpeningSession(session), progress)
        },
        (step, _) => (step, None),
    };
    (InstalledFlow { app_ws_url, installed_app_id, role_name, step }, progress)
}

impl<K> InstalledFlow<K> {
    /// How many replies the flow still waits for at most.
    pub open spec fn steps_left(self) -> nat {
        match self.step {
            InstalledStep::ConnectingAdmin => 5,
            InstalledStep::ListingApps => 4,
            InstalledStep::OpeningSession(session) => session.steps_left(),
            InstalledStep::Finished => 0,
        }
    }
}

/// Taking up an installed app comes to an end: every reply that is answered brings the end closer,
/// and the end is reached with the answer that says so.
pub proof fn law_taking_up_ends<K, C, E>(flow: InstalledFlow<K>, reply: InstalledReply<K, C, E>)
    ensures
        flow.next(reply).1 is Some ==> flow.next(reply).0.steps_left() < flow.steps_left(),
        flow.next(reply).1 matches Some(progress) ==> (progress is Finish <==> flow.next(
            reply,
        ).0.steps_left() == 0),
        flow.steps_left() == 0 ==> flow.next(reply).1 is None,
{
}

/// Only a running app is taken up: where the agent's app is not installed, or not running, taking it
/// up fails and says which.
pub proof fn law_only_running_apps_are_taken_up<K, C, E>(
    flow: InstalledFlow<K>,
    app_infos: Vec<AppInfo>,
)
    requires
        flow.step is ListingApps,
    ensures
        ({
            let found = find_app(app_infos@, flow.installed_app_id@);
            let progress = flow.next::<C, E>(InstalledReply::AppsListed(Ok(app_infos))).1;
            &&& found is None ==> progress == Some(
                InstalledProgress::<K, C, E>::Finish(
                    Err(SetupError::AppNotFound(flow.installed_app_id)),
                ),
            )
            &&& found is Some && !(found->0.status is Running) ==> progress == Some(
                InstalledProgress::<K, C, E>::Finish(
                    Err(SetupError::AppNotRunning(flow.installed_app_id)),
                ),
            )
            &&& progress matches Some(Progress::Ask(_)) ==> found is Some
                && found->0.status is Running
        }),
{
}

} // verus!
