//! Opening a session with an installed app: the part that installing an app and taking up an
//! installed one have in common.

use crate::app_info::RoleError;
use crate::context::Session;
use crate::keys::CellId;
use crate::progress::Progress;
use vstd::prelude::*;

verus! {

/// Why no session with an app could be opened. `E` is what a failed request came back with.
#[derive(Debug, PartialEq, Eq)]
pub enum SetupError<E> {
    /// Connecting to the admin interface failed.
    ConnectAdmin(E),
    /// Generating the agent's key failed.
    GenerateKey(E),
    /// Reading the app bundle failed.
    ReadBundle(E),
    /// Installing the app failed.
    InstallApp(E),
    /// Enabling the app failed.
    EnableApp(E),
    /// Listing the installed apps failed.
    ListApps(E),
    /// No app is installed under this id.
    AppNotFound(String),
    /// The app installed under this id is not running.
    AppNotRunning(String),
    /// The app has no cell to call under the role.
    Role(RoleError),
    /// Authorizing credentials to sign zome calls failed.
    AuthorizeSigning(E),
    /// Issuing a token for the app interface failed.
    IssueToken(E),
    /// Connecting to the app interface failed.
    ConnectApp(E),
}

/// What opening a session asks for. `K` are the credentials that sign zome calls.
#[derive(Debug, PartialEq, Eq)]
pub enum SessionRequest<K> {
    /// Authorize credentials to sign calls of zome functions of a cell: of those given as zome and
    /// function names, or of all.
    AuthorizeSigning { cell_id: CellId, functions: Option<Vec<(String, String)>> },
    /// Issue a token for the app interface.
    IssueToken { installed_app_id: String },
    /// Connect to the app interface, with a signer that holds these credentials for this cell.
    ConnectApp { app_ws_url: String, token: Vec<u8>, cell_id: CellId, credentials: K },
}

/// What comes back. `C` is a connected app client.
#[derive(Debug, PartialEq, Eq)]
pub enum SessionReply<K, C, E> {
    Authorized(Result<K, E>),
    TokenIssued(Result<Vec<u8>, E>),
    Connected(Result<C, E>),
}

/// How far opening the session has come.
#[derive(Debug, PartialEq, Eq)]
pub enum SessionStep<K> {
    Authorizing,
    IssuingToken { credentials: K },
    ConnectingApp,
    Finished,
}

/// A session with an installed app that is being opened.
#[derive(Debug, PartialEq, Eq)]
pub struct SessionFlow<K> {
    pub app_ws_url: String,
    pub installed_app_id: String,
    pub cell_id: CellId,
    pub step: SessionStep<K>,
}

/// What a session flow answers.
pub type SessionProgress<K, C, E> = Progress<SessionRequest<K>, Session<C>, SetupError<E>>;

impl<K> SessionFlow<K> {
    pub open spec fn at(self, step: SessionStep<K>) -> Self {
        SessionFlow { step, ..self }
    }

    /// The request with which opening a session begins: credentials for every zome function.
    pub open spec fn first_request(cell_id: CellId) -> SessionRequest<K> {
        SessionRequest::AuthorizeSigning { cell_id, functions: None }
    }

    /// The session that this flow opens, once its client is connected.
    pub open spec fn session<C>(self, app_client: C) -> Session<C> {
        Session { installed_app_id: self.installed_app_id, cell_id: self.cell_id, app_client }
    }

    /// What follows a reply.
    pub open spec fn next<C, E>(self, reply: SessionReply<K, C, E>) -> (
        Self,
        Option<SessionProgress<K, C, E>>,
    ) {
        match (self.step, reply) {
            (SessionStep::Authorizing, SessionReply::Authorized(Ok(credentials))) => (
                self.at(SessionStep::IssuingToken { credentials }),
                Some(
                    Progress::Ask(
                        SessionRequest::IssueToken { installed_app_id: self.installed_app_id },
                    ),
                ),
            ),
            (SessionStep::Authorizing, SessionReply::Authorized(Err(error))) => (
                self.at(SessionStep::Finished),
                Some(Progress::Finish(Err(SetupError::AuthorizeSigning(error)))),
            ),
            (SessionStep::IssuingToken { credentials }, SessionReply::TokenIssued(Ok(token))) => (
                self.at(SessionStep::ConnectingApp),
                Some(
                    Progress::Ask(
                        SessionRequest::ConnectApp {
                            app_ws_url: self.app_ws_url,
                            token,
                            cell_id: self.cell_id,
                            credentials,
                        },
                    ),
                ),
            ),
            (SessionStep::IssuingToken { credentials: _ }, SessionReply::TokenIssued(Err(error)))
            => (
                self.at(SessionStep::Finished),
                Some(Progress::Finish(Err(SetupError::IssueToken(error)))),
            ),
            (SessionStep::ConnectingApp, SessionReply::Connected(Ok(app_client))) => (
                self.at(SessionStep::Finished),
                Some(Progress::Finish(Ok(self.session(app_client)))),
            ),
            (SessionStep::ConnectingApp, SessionReply::Connected(Err(error))) => (
                self.at(SessionStep::Finished),
                Some(Progress::Finish(Err(SetupError::ConnectApp(error)))),
            ),
            _ => (self, None),
        }
    }
}

/// Takes the opening of a session one reply further.
pub fn open_session<K, C, E>(flow: SessionFlow<K>, reply: SessionReply<K, C, E>) -> (res: (
    SessionFlow<K>,
    Option<SessionProgress<K, C, E>>,
))
    ensures
        res == flow.next(reply),
{
    let SessionFlow { app_ws_url, installed_app_id, cell_id, step } = flow;
    let (step, progress) = match (step, reply) {
        (SessionStep::Authorizing, SessionReply::Authorized(Ok(credentials))) => (
            SessionStep::IssuingToken { credentials },
            Some(
                Progress::Ask(
                    SessionRequest::IssueToken { installed_app_id: installed_app_id.clone() },
                ),
            ),
        ),
        (SessionStep::Authorizing, SessionReply::Authorized(Err(error))) => (
            SessionStep::Finished,
            Some(Progress::Finish(Err(SetupError::AuthorizeSigning(error)))),
        ),
        (SessionStep::IssuingToken { credentials }, SessionReply::TokenIssued(Ok(token))) => (
            SessionStep::ConnectingApp,
            Some(
                Progress::Ask(
                    SessionRequest::ConnectApp {
                        app_ws_url: app_ws_url.clone(),
                        token,
                        cell_id,
                        credentials,
                    },
                ),
            ),
        ),
        (SessionStep::IssuingToken { credentials: _ }, SessionReply::TokenIssued(Err(error))) => (
            SessionStep::Finished,
            Some(Progress::Finish(Err(SetupError::IssueToken(error)))),
        ),
        (SessionStep::ConnectingApp, SessionReply::Connected(Ok(app_client))) => (
            SessionStep::Finished,
            Some(
                Progress::Finish(
                    Ok(Session { installed_app_id: installed_app_id.clone(), cell_id, app_client }),
                ),
            ),
        ),
        (SessionStep::ConnectingApp, SessionReply::Connected(Err(error))) => (
            SessionStep::Finished,
            Some(Progress::Finish(Err(SetupError::ConnectApp(error)))),
        ),
        (step, _) => (step, None),
    };
    (SessionFlow { app_ws_url, installed_app_id, cell_id, step }, progress)
}

impl<K> SessionFlow<K> {
    /// How many replies the flow still waits for at most.
    pub open spec fn steps_left(self) -> nat {
        match self.step {
            SessionStep::Authorizing => 3,
            SessionStep::IssuingToken { credentials: _ } => 2,
            SessionStep::ConnectingApp => 1,
            SessionStep::Finished => 0,
        }
    }
}

/// Opening a session comes to an end: every reply that is answered brings the end closer, and the
/// end is reached with the answer that says so.
pub proof fn law_opening_ends<K, C, E>(flow: SessionFlow<K>, reply: SessionReply<K, C, E>)
    ensures
        flow.next(reply).1 is Some ==> flow.next(reply).0.steps_left() < flow.steps_left(),
        flow.next(reply).1 matches Some(progress) ==> (progress is Finish <==> flow.next(
            reply,
        ).0.steps_left() == 0),
        flow.steps_left() == 0 ==> flow.next(reply).1 is None,
{
}

/// Where nothing fails, a session is opened with the cell asked for: its credentials sign, its app's
/// token is presented, and the session holds that app, that cell and the client that was connected.
pub proof fn law_session_opens<K, C, E>(
    flow: SessionFlow<K>,
    credentials: K,
    token: Vec<u8>,
    app_client: C,
)
    requires
        flow.step is Authorizing,
    ensures
        ({
            let (issuing, first) = flow.next::<C, E>(SessionReply::Authorized(Ok(credentials)));
            let (connecting, second) = issuing.next::<C, E>(SessionReply::TokenIssued(Ok(token)));
            let (_, third) = connecting.next::<C, E>(SessionReply::Connected(Ok(app_client)));
            &&& first == Some(
                SessionProgress::<K, C, E>::Ask(
                    SessionRequest::IssueToken { installed_app_id: flow.installed_app_id },
                ),
            )
            &&& second == Some(
                SessionProgress::<K, C, E>::Ask(
                    SessionRequest::ConnectApp {
                        app_ws_url: flow.app_ws_url,
                        token,
                        cell_id: flow.cell_id,
                        credentials,
                    },
                ),
            )
            &&& third == Some(SessionProgress::<K, C, E>::Finish(Ok(flow.session(app_client))))
        }),
{
}

} // verus!
