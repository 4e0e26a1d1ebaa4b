//! Installing an app for an agent and opening a session with it.

use crate::app_info::{
    agent_app_id, cell_id_for_role, get_cell_id_for_role_name, installed_app_id_for_agent, AppInfo,
    RoleError,
};
use crate::context::{AgentContext, RunnerContext, Session};
use crate::keys::{AgentPubKey, CellId};
use crate::progress::Progress;
use crate::session::{
    open_session, SessionFlow, SessionProgress, SessionReply, SessionRequest, SessionStep, SetupError,
};
use vstd::prelude::*;

verus! {

/// The path of a file; its value is only passed on.
#[verifier::external_type_specification]
#[verifier::external_body]
pub struct ExPathBuf(std::path::PathBuf);

/// The settings of an app's roles.
#[derive(Debug, Clone, Copy, PartialEq, Eq)]
pub enum RolesSettings {
    /// Every role keeps the settings that the bundle gives it.
    AsInBundle,
}

/// The app to install.
#[derive(Debug, PartialEq, Eq)]
pub struct InstallAppPayload {
    /// The bytes of the app bundle.
    pub source: Vec<u8>,
    pub agent_key: Option<AgentPubKey>,
    pub installed_app_id: Option<String>,
    pub roles_settings: RolesSettings,
    /// Agents share a network where their seeds agree.
    pub network_seed: Option<String>,
    pub ignore_genesis_failure: bool,
    pub allow_throwaway_random_agent_key: bool,
}

/// What installing an app asks for.
#[derive(Debug, PartialEq, Eq)]
pub enum InstallRequest<K> {
    /// Connect to the admin interface.
    ConnectAdmin { admin_ws_url: String },
    /// Generate a key for the agent.
    GenerateKey,
    /// Read the app bundle.
    ReadBundle { app_path: std::path::PathBuf },
    /// Install the app.
    InstallApp(InstallAppPayload),
    /// Enable the app.
    EnableApp { installed_app_id: String },
    /// Open a session with the app.
    Session(SessionRequest<K>),
}

/// What comes back.
#[derive(Debug, PartialEq, Eq)]
pub enum InstallReply<K, C, E> {
    AdminConnected(Result<(), E>),
    KeyGenerated(Result<AgentPubKey, E>),
    BundleRead(Result<Vec<u8>, E>),
    AppInstalled(Result<AppInfo, E>),
    AppEnabled(Result<(), E>),
    Session(SessionReply<K, C, E>),
}

/// How far installing the app has come.
#[derive(Debug, PartialEq, Eq)]
pub enum InstallStep<K> {
    ConnectingAdmin { app_path: std::path::PathBuf },
    GeneratingKey { app_path: std::path::PathBuf },
    ReadingBundle { agent_key: AgentPubKey },
    Installing,
    Enabling { app_info: AppInfo },
    OpeningSession(SessionFlow<K>),
    Finished,
}

/// An app that is being installed.
#[derive(Debug, PartialEq, Eq)]
pub struct InstallFlow<K> {
    pub app_ws_url: String,
    pub installed_app_id: String,
    pub role_name: String,
    pub run_id: String,
    pub step: InstallStep<K>,
}

/// What an install flow answers.
pub type InstallProgress<K, C, E> = Progress<InstallRequest<K>, Session<C>, SetupError<E>>;

impl<K> InstallFlow<K> {
    pub open spec fn at(self, step: InstallStep<K>) -> Self {
        InstallFlow { step, ..self }
    }

    /// Goes on to `step` with a request.
    pub open spec fn asking<C, E>(self, step: InstallStep<K>, request: InstallRequest<K>) -> (
        Self,
        Option<InstallProgress<K, C, E>>,
    ) {
        (self.at(step), Some(Progress::Ask(request)))
    }

    /// Ends with an error.
    pub open spec fn failing<C, E>(self, error: SetupError<E>) -> (
        Self,
        Option<InstallProgress<K, C, E>>,
    ) {
        (self.at(InstallStep::Finished), Some(Progress::Finish(Err(error))))
    }

    /// The app to install: for the key that was generated, under the agent's app id, in the network
    /// of the run.
    pub open spec fn payload(self, agent_key: AgentPubKey, bundle: Vec<u8>) -> InstallAppPayload {
        InstallAppPayload {
            source: bundle,
            agent_key: Some(agent_key),
            installed_app_id: Some(self.installed_app_id),
            roles_settings: RolesSettings::AsInBundle,
            network_seed: Some(self.run_id),
            ignore_genesis_failure: false,
            allow_throwaway_random_agent_key: false,
        }
    }

    /// The session to open with a cell of the app.
    pub open spec fn session_flow(self, cell_id: CellId) -> SessionFlow<K> {
        SessionFlow {
            app_ws_url: self.app_ws_url,
            installed_app_id: self.installed_app_id,
            cell_id,
            step: SessionStep::Authorizing,
        }
    }

    /// What follows a reply.
    pub open spec fn next<C, E>(self, reply: InstallReply<K, C, E>) -> (
        Self,
        Option<InstallProgress<K, C, E>>,
    ) {
        match (self.step, reply) {
            (InstallStep::ConnectingAdmin { app_path }, InstallReply::AdminConnected(connected)) =>
                match connected {
                    Ok(_) => self.asking(
                        InstallStep::GeneratingKey { app_path },
                        InstallRequest::GenerateKey,
                    ),
                    Err(error) => self.failing(SetupError::ConnectAdmin(error)),
                },
            (InstallStep::GeneratingKey { app_path }, InstallReply::KeyGenerated(generated)) =>
                match generated {
                    Ok(agent_key) => self.asking(
                        InstallStep::ReadingBundle { agent_key },
                        InstallRequest::ReadBundle { app_path },
                    ),
                    Err(error) => self.failing(SetupError::GenerateKey(error)),
                },
            (InstallStep::ReadingBundle { agent_key }, InstallReply::BundleRead(read)) => match read {
                Ok(bundle) => self.asking(
                    InstallStep::Installing,
                    InstallRequest::InstallApp(self.payload(agent_key, bundle)),
                ),
                Err(error) => self.failing(SetupError::ReadBundle(error)),
            },
            (InstallStep::Installing, InstallReply::AppInstalled(installed)) => match installed {
                Ok(app_info) => self.asking(
                    InstallStep::Enabling { app_info },
                    InstallRequest::EnableApp { installed_app_id: self.installed_app_id },
                ),
                Err(error) => self.failing(SetupError::InstallApp(error)),
            },
            (InstallStep::Enabling { app_info }, InstallReply::AppEnabled(enabled)) => match enabled {
                Ok(_) => match cell_id_for_role(app_info, self.role_name@) {
                    Ok(cell_id) => self.asking(
                        InstallStep::OpeningSession(self.session_flow(cell_id)),
                        InstallRequest::Session(SessionFlow::first_request(cell_id)),
                    ),
                    Err(error) => self.failing(SetupError::Role(error)),
                },
                Err(error) => self.failing(SetupError::EnableApp(error)),
            },
            (InstallStep::OpeningSession(session), InstallReply::Session(reply)) => {
                let (session, progress) = session.next(reply);
                (self.at(InstallStep::OpeningSession(session)), from_session(progress))
            },
            _ => (self, None),
        }
    }

    /// Begins to install an app for an agent.
    pub fn begin<C>(
        runner: &RunnerContext,
        ctx: &AgentContext<C>,
        app_path: std::path::PathBuf,
        role_name: String,
    ) -> (res: (InstallFlow<K>, InstallRequest<K>))
        requires
            runner.app_ws_url is Some,
        ensures
            res.0.installed_app_id@ == agent_app_id(ctx.agent_name@),
            res.0 == (InstallFlow {
                app_ws_url: runner.app_ws_url->0,
                installed_app_id: res.0.installed_app_id,
                role_name,
                run_id: runner.run_id,
                step: InstallStep::<K>::ConnectingAdmin { app_path },
            }),
            res.1 == (InstallRequest::<K>::ConnectAdmin { admin_ws_url: runner.connection_string }),
    {
        let app_ws_url = runner.app_ws_url.clone().unwrap();
        let flow = InstallFlow {
            app_ws_url,
            installed_app_id: installed_app_id_for_agent(ctx.agent_name.as_str()),
            role_name,
            run_id: runner.run_id.clone(),
            step: InstallStep::ConnectingAdmin { app_path },
        };
        (flow, InstallRequest::ConnectAdmin { admin_ws_url: runner.connection_string.clone() })
    }
}

/// What the flow answers where opening the session answers `progress`.
pub open spec fn from_session<K, C, E>(progress: Option<SessionProgress<K, C, E>>) -> Option<
    InstallProgress<K, C, E>,
> {
    match progress {
        Some(Progress::Ask(request)) => Some(Progress::Ask(InstallRequest::Session(request))),
        Some(Progress::Finish(outcome)) => Some(Progress::Finish(outcome)),
        None => None,
    }
}

/// Takes the installation of an app one reply further.
///
/// The app is installed, enabled and only then searched for the cell to call, so that a role it
/// does not have leaves it installed.
pub fn install_app<K, C, E>(flow: InstallFlow<K>, reply: InstallReply<K, C, E>) -> (res: (
    InstallFlow<K>,
    Option<InstallProgress<K, C, E>>,
))
    ensures
        res == flow.next(reply),
{
    let InstallFlow { app_ws_url, installed_app_id, role_name, run_id, step } = flow;
    let (step, progress) = match (step, reply) {
        (InstallStep::ConnectingAdmin { app_path }, InstallReply::AdminConnected(connected)) =>
            match connected {
                Ok(_) => (
                    InstallStep::GeneratingKey { app_path },
                    Some(Progress::Ask(InstallRequest::GenerateKey)),
                ),
                Err(error) => failure(SetupError::ConnectAdmin(error)),
            },
        (InstallStep::GeneratingKey { app_path }, InstallReply::KeyGenerated(generated)) =>
            match generated {
                Ok(agent_key) => (
                    InstallStep::ReadingBundle { agent_key },
                    Some(Progress::Ask(InstallRequest::ReadBundle { app_path })),
                ),
                Err(error) => failure(SetupError::GenerateKey(error)),
            },
        (InstallStep::ReadingBundle { agent_key }, InstallReply::BundleRead(read)) => match read {
            Ok(bundle) => {
                let payload = InstallAppPayload {
                    source: bundle,
                    agent_key: Some(agent_key),
                    installed_app_id: Some(installed_app_id.clone()),
                    roles_settings: RolesSettings::AsInBundle,
                    network_seed: Some(run_id.clone()),
                    ignore_genesis_failure: false,
                    allow_throwaway_random_agent_key: false,
                };
                (InstallStep::Installing, Some(Progress::Ask(InstallRequest::InstallApp(payload))))
            },
            Err(error) => failure(SetupError::ReadBundle(error)),
        },
        (InstallStep::Installing, InstallReply::AppInstalled(installed)) => match installed {
            Ok(app_info) => (
                InstallStep::Enabling { app_info },
                Some(
                    Progress::Ask(
                        InstallRequest::EnableApp { installed_app_id: installed_app_id.clone() },
                    ),
                ),
            ),
            Err(error) => failure(SetupError::InstallApp(error)),
        },
        (InstallStep::Enabling { app_info }, InstallReply::AppEnabled(enabled)) => match enabled {
            Ok(_) => match get_cell_id_for_role_name(&app_info, &role_name) {
                Ok(cell_id) => {
                    let session = SessionFlow {
                        app_ws_url: app_ws_url.clone(),
                        installed_app_id: installed_app_id.clone(),
                        cell_id,
                        step: SessionStep::Authorizing,
                    };
                    let request = SessionRequest::AuthorizeSigning { cell_id, functions: None };
                    (
                        InstallStep::OpeningSession(session),
                        Some(Progress::Ask(InstallRequest::Session(request))),
                    )
                },
                Err(error) => failure(SetupError::Role(error)),
            },
            Err(error) => failure(SetupError::EnableApp(error)),
        },
        (InstallStep::OpeningSession(session), InstallReply::Session(reply)) => {
            let (session, progress) = open_session(session, reply);
            let progress = match progress {
                Some(Progress::Ask(request)) => Some(
                    Progress::Ask(InstallRequest::Session(request)),
                ),
                Some(Progress::Finish(outcome)) => Some(Progress::Finish(outcome)),
                None => None,
            };
            (InstallStep::OpeningSession(session), progress)
        },
        (step, _) => (step, None),
    };
    (InstallFlow { app_ws_url, installed_app_id, role_name, run_id, step }, progress)
}

/// Ends an install flow with an error.
fn failure<K, C, E>(error: SetupError<E>) -> (res: (
    InstallStep<K>,
    Option<InstallProgress<K, C, E>>,
))
    ensures
        res == (
            InstallStep::<K>::Finished,
            Some(Progress::<InstallRequest<K>, Session<C>, SetupError<E>>::Finish(Err(error))),
        ),
{
    (InstallStep::Finished, Some(Progress::Finish(Err(error))))
}

impl<K> InstallFlow<K> {
    /// How many replies the flow still waits for at most.
    pub open spec fn steps_left(self) -> nat {
        match self.step {
            InstallStep::ConnectingAdmin { app_path: _ } => 8,
            InstallStep::GeneratingKey { app_path: _ } => 7,
            InstallStep::ReadingBundle { agent_key: _ } => 6,
            InstallStep::Installing => 5,
            InstallStep::Enabling { app_info: _ } => 4,
            InstallStep::OpeningSession(session) => session.steps_left(),
            InstallStep::Finished => 0,
        }
    }
}

/// Installing an app comes to an end: every reply that is answered brings the end closer, and the
/// end is reached with the answer that says so.
pub proof fn law_installing_ends<K, C, E>(flow: InstallFlow<K>, reply: InstallReply<K, C, E>)
    ensures
        flow.next(reply).1 is Some ==> flow.next(reply).0.steps_left() < flow.steps_left(),
        flow.next(reply).1 matches Some(progress) ==> (progress is Finish <==> flow.next(
            reply,
        ).0.steps_left() == 0),
        flow.steps_left() == 0 ==> flow.next(reply).1 is None,
{
}

/// Where nothing fails, an app is installed from the bundle at the path, for the key that was generated, in the
/// network of the run, is enabled, and a session is begun with the cell that it has under the role.
pub proof fn law_app_is_installed<K, C, E>(
    flow: InstallFlow<K>,
    agent_key: AgentPubKey,
    bundle: Vec<u8>,
    app_info: AppInfo,
    cell_id: CellId,
)
    requires
        flow.step is ConnectingAdmin,
        cell_id_for_role(app_info, flow.role_name@) == Ok::<CellId, RoleError>(cell_id),
    ensures
        ({
            let (generating, first) = flow.next::<C, E>(InstallReply::AdminConnected(Ok(())));
            let (reading, second) = generating.next::<C, E>(
                InstallReply::KeyGenerated(Ok(agent_key)),
            );
            let (installing, third) = reading.next::<C, E>(InstallReply::BundleRead(Ok(bundle)));
            let (enabling, fourth) = installing.next::<C, E>(
                InstallReply::AppInstalled(Ok(app_info)),
            );
            let (opening, fifth) = enabling.next::<C, E>(InstallReply::AppEnabled(Ok(())));
            &&& first == Some(InstallProgress::<K, C, E>::Ask(InstallRequest::GenerateKey))
            &&& second == Some(
                InstallProgress::<K, C, E>::Ask(
                    InstallRequest::ReadBundle { app_path: flow.step->ConnectingAdmin_app_path },
                ),
            )
            &&& third == Some(
                InstallProgress::<K, C, E>::Ask(
                    InstallRequest::InstallApp(flow.payload(agent_key, bundle)),
                ),
            )
            &&& fourth == Some(
                InstallProgress::<K, C, E>::Ask(
                    InstallRequest::EnableApp { installed_app_id: flow.installed_app_id },
                ),
            )
            &&& fifth == Some(
                InstallProgress::<K, C, E>::Ask(
                    InstallRequest::Session(SessionFlow::first_request(cell_id)),
                ),
            )
            &&& opening.step == InstallStep::OpeningSession(flow.session_flow(cell_id))
        }),
{
}

/// An app that lacks the role is found out only once it is installed and enabled.
pub proof fn law_missing_role_is_found_last<K, C, E>(
    flow: InstallFlow<K>,
    app_info: AppInfo,
    error: RoleError,
)
    requires
        flow.step is Installing,
        cell_id_for_role(app_info, flow.role_name@) == Err::<CellId, RoleError>(error),
    ensures
        ({
            let (enabling, first) = flow.next::<C, E>(InstallReply::AppInstalled(Ok(app_info)));
            let (ended, second) = enabling.next::<C, E>(InstallReply::AppEnabled(Ok(())));
            &&& first == Some(
                InstallProgress::<K, C, E>::Ask(
                    InstallRequest::EnableApp { installed_app_id: flow.installed_app_id },
                ),
            )
            &&& second == Some(InstallProgress::<K, C, E>::Finish(Err(SetupError::Role(error))))
            &&& ended.step is Finished
        }),
{
}

} // verus!
