//! How failures are worded.

use crate::app_info::RoleError;
use crate::app_url::AppUrlError;
use crate::configure::{
    ConfigureError, ConfigureFlow, ConfigureProgress, ConfigureReply, ConfigureStep,
};
use crate::install::{InstallFlow, InstallProgress, InstallReply};
use crate::peers::{InvalidAgentInfo, PeersError};
use crate::progress::Progress;
use crate::session::SetupError;
use crate::zome::ZomeError;
use vstd::pervasive::unreached;
use vstd::prelude::*;
use vstd::string::*;

verus! {

/// What a failure comes from. `E` is what a failed request came back with.
#[derive(Debug)]
pub enum Cause<E> {
    /// The error of the request, as it is.
    Request(E),
    /// A label, followed by the error of the request.
    LabelledRequest { label: String, error: E },
    /// A label, followed by the error in a URL.
    LabelledUrl { label: String, error: url::ParseError },
    /// The error in the information about an agent, as it is.
    AgentInfo(kitsune2_api::K2Error),
    /// A message of its own.
    Message(String),
}

/// A failure: what it comes from, and what was being done, outermost first.
#[derive(Debug)]
pub struct Failure<E> {
    pub contexts: Vec<String>,
    pub cause: Cause<E>,
}

/// What a failure comes from, as text.
pub enum CauseText<E> {
    Request(E),
    LabelledRequest { label: Seq<char>, error: E },
    LabelledUrl { label: Seq<char>, error: url::ParseError },
    AgentInfo(kitsune2_api::K2Error),
    Message(Seq<char>),
}

/// A failure, as text.
pub struct FailureText<E> {
    pub contexts: Seq<Seq<char>>,
    pub cause: CauseText<E>,
}

impl<E> View for Cause<E> {
    type V = CauseText<E>;

    open spec fn view(&self) -> CauseText<E> {
        match *self {
            Cause::Request(error) => CauseText::Request(error),
            Cause::LabelledRequest { label, error } => CauseText::LabelledRequest {
                label: label@,
                error,
            },
            Cause::LabelledUrl { label, error } => CauseText::LabelledUrl { label: label@, error },
            Cause::AgentInfo(error) => CauseText::AgentInfo(error),
            Cause::Message(message) => CauseText::Message(message@),
        }
    }
}

impl<E> View for Failure<E> {
    type V = FailureText<E>;

    open spec fn view(&self) -> FailureText<E> {
        FailureText {
            contexts: self.contexts@.map_values(|context: String| context@),
            cause: self.cause@,
        }
    }
}

impl<E> FailureText<E> {
    /// The failure begins with this message.
    pub open spec fn says_first(self, message: Seq<char>) -> bool {
        self.contexts.len() > 0 && self.contexts[0] == message
    }
}

impl<E> Failure<E> {
    /// A failure of which nothing more is said.
    fn bare(cause: Cause<E>) -> (failure: Self)
        ensures
            failure@ == (FailureText { contexts: Seq::empty(), cause: cause@ }),
    {
        let failure = Failure { contexts: Vec::new(), cause };
        assert(failure@.contexts =~= Seq::empty());
        failure
    }

    /// A failure of which it is said what was being done.
    fn within(context: &str, cause: Cause<E>) -> (failure: Self)
        ensures
            failure@ == (FailureText { contexts: seq![context@], cause: cause@ }),
    {
        let failure = Failure { contexts: vec![context.to_owned()], cause };
        assert(failure@.contexts =~= seq![context@]);
        failure
    }
}

/// A text in quotes, with what cannot be shown escaped: what [`format!`] makes of a string with
/// `{:?}`.
pub uninterp spec fn quoted_text(text: Seq<char>) -> Seq<char>;

/// Formats a string with `{:?}`, as [`std::fmt::Debug`] does for [`str`]. The contract names the
/// result, which depends on the string alone.
#[verifier::external_body]
fn quote(text: &str) -> (quoted: String)
    ensures
        quoted@ == quoted_text(text@),
{
    format!("{:?}", text)
}

/// How it is worded that an app has no cell to call under a role.
pub open spec fn role_text(error: RoleError) -> Seq<char> {
    match error {
        RoleError::RoleNotFound => "Role not found"@,
        RoleError::CellNotFound => "Cell not found"@,
        RoleError::CellNotProvisioned => "Cell not provisioned"@,
    }
}

/// Words that an app has no cell to call under a role.
pub fn role_error_text(error: &RoleError) -> (text: String)
    ensures
        text@ == role_text(*error),
{
    match error {
        RoleError::RoleNotFound => "Role not found".to_owned(),
        RoleError::CellNotFound => "Cell not found".to_owned(),
        RoleError::CellNotProvisioned => "Cell not provisioned".to_owned(),
    }
}

/// What it comes from that no session could be opened.
pub open spec fn setup_cause_text<E>(error: SetupError<E>) -> CauseText<E> {
    match error {
        SetupError::ConnectAdmin(error) => CauseText::Request(error),
        SetupError::GenerateKey(error) => CauseText::Request(error),
        SetupError::ReadBundle(error) => CauseText::Request(error),
        SetupError::InstallApp(error) => CauseText::Request(error),
        SetupError::EnableApp(error) => CauseText::Request(error),
        SetupError::ListApps(error) => CauseText::Request(error),
        SetupError::AppNotFound(installed_app_id) => CauseText::Message(
            "App not found: "@ + quoted_text(installed_app_id@),
        ),
        SetupError::AppNotRunning(installed_app_id) => CauseText::Message(
            "App is not running: "@ + quoted_text(installed_app_id@),
        ),
        SetupError::Role(error) => CauseText::Message(role_text(error)),
        SetupError::AuthorizeSigning(error) => CauseText::Request(error),
        SetupError::IssueToken(error) => CauseText::LabelledRequest {
            label: "Could not issue auth token for app client: "@,
            error,
        },
        SetupError::ConnectApp(error) => CauseText::Request(error),
    }
}

/// Tells what it comes from that no session could be opened.
fn setup_cause<E>(error: SetupError<E>) -> (cause: Cause<E>)
    ensures
        cause@ == setup_cause_text(error),
{
    match error {
        SetupError::ConnectAdmin(error) => Cause::Request(error),
        SetupError::GenerateKey(error) => Cause::Request(error),
        SetupError::ReadBundle(error) => Cause::Request(error),
        SetupError::InstallApp(error) => Cause::Request(error),
        SetupError::EnableApp(error) => Cause::Request(error),
        SetupError::ListApps(error) => Cause::Request(error),
        SetupError::AppNotFound(installed_app_id) => Cause::Message(
            "App not found: ".to_owned().concat(quote(installed_app_id.as_str()).as_str()),
        ),
        SetupError::AppNotRunning(installed_app_id) => Cause::Message(
            "App is not running: ".to_owned().concat(quote(installed_app_id.as_str()).as_str()),
        ),
        SetupError::Role(error) => Cause::Message(role_error_text(&error)),
        SetupError::AuthorizeSigning(error) => Cause::Request(error),
        SetupError::IssueToken(error) => Cause::LabelledRequest {
            label: "Could not issue auth token for app client: ".to_owned(),
            error,
        },
        SetupError::ConnectApp(error) => Cause::Request(error),
    }
}

/// How it is worded that an app could not be installed.
pub open spec fn install_failure_text<E>(error: SetupError<E>) -> FailureText<E> {
    FailureText { contexts: seq!["Failed to install app"@], cause: setup_cause_text(error) }
}

/// Words that an app could not be installed.
pub fn install_failure<E>(error: SetupError<E>) -> (failure: Failure<E>)
    ensures
        failure@ == install_failure_text(error),
{
    Failure::within("Failed to install app", setup_cause(error))
}

/// How it is worded that an installed app could not be taken up.
pub open spec fn installed_failure_text<E>(error: SetupError<E>) -> FailureText<E> {
    FailureText { contexts: Seq::empty(), cause: setup_cause_text(error) }
}

/// Words that an installed app could not be taken up.
pub fn installed_failure<E>(error: SetupError<E>) -> (failure: Failure<E>)
    ensures
        failure@ == installed_failure_text(error),
{
    Failure::bare(setup_cause(error))
}

/// How it is worded that no app URL could be configured. That the admin URL is too long is not
/// worded.
pub open spec fn configure_failure_text<E>(error: ConfigureError<E>) -> FailureText<E>
    recommends
        !(error is AdminUrlTooLong),
{
    match error {
        ConfigureError::ConnectAdmin(error) => FailureText {
            contexts: seq!["Failed to set up app port"@, "Unable to connect admin client"@],
            cause: CauseText::Request(error),
        },
        ConfigureError::ListAppInterfaces(error) => FailureText {
            contexts: seq!["Failed to set up app port"@],
            cause: CauseText::Request(error),
        },
        ConfigureError::AttachAppInterface(error) => FailureText {
            contexts: seq!["Failed to set up app port"@],
            cause: CauseText::Request(error),
        },
        ConfigureError::AppUrl(AppUrlError::Parse(error)) => FailureText {
            contexts: Seq::empty(),
            cause: CauseText::LabelledUrl { label: "Failed to parse admin URL: "@, error },
        },
        ConfigureError::AppUrl(AppUrlError::PortRefused) => FailureText {
            contexts: Seq::empty(),
            cause: CauseText::Message("Failed to set app port on admin URL"@),
        },
        ConfigureError::AdminUrlTooLong => arbitrary(),
    }
}

/// Words that no app URL could be configured.
pub fn configure_failure<E>(error: ConfigureError<E>) -> (failure: Failure<E>)
    requires
        !(error is AdminUrlTooLong),
    ensures
        failure@ == configure_failure_text(error),
{
    match error {
        ConfigureError::ConnectAdmin(error) => {
            let failure = Failure {
                contexts: vec![
                    "Failed to set up app port".to_owned(),
                    "Unable to connect admin client".to_owned(),
                ],
                cause: Cause::Request(error),
            };
            assert(failure@.contexts =~= seq![
                "Failed to set up app port"@,
                "Unable to connect admin client"@,
            ]);
            failure
        },
        ConfigureError::ListAppInterfaces(error) => Failure::within(
            "Failed to set up app port",
            Cause::Request(error),
        ),
        ConfigureError::AttachAppInterface(error) => Failure::within(
            "Failed to set up app port",
            Cause::Request(error),
        ),
        ConfigureError::AppUrl(AppUrlError::Parse(error)) => Failure::bare(
            Cause::LabelledUrl { label: "Failed to parse admin URL: ".to_owned(), error },
        ),
        ConfigureError::AppUrl(AppUrlError::PortRefused) => Failure::bare(
            Cause::Message("Failed to set app port on admin URL".to_owned()),
        ),
        ConfigureError::AdminUrlTooLong => unreached(),
    }
}

/// How it is worded that a zome call failed.
pub open spec fn zome_failure_text<E>(error: ZomeError<E>) -> FailureText<E> {
    match error {
        ZomeError::EncodePayload(error) => FailureText {
            contexts: seq!["Encoding failure"@],
            cause: CauseText::Request(error),
        },
        ZomeError::CallZome(error) => FailureText {
            contexts: Seq::empty(),
            cause: CauseText::Request(error),
        },
        ZomeError::DecodeResponse(error) => FailureText {
            contexts: Seq::empty(),
            cause: CauseText::LabelledRequest { label: "Decoding failure: "@, error },
        },
    }
}

/// Words that a zome call failed.
pub fn zome_failure<E>(error: ZomeError<E>) -> (failure: Failure<E>)
    ensures
        failure@ == zome_failure_text(error),
{
    match error {
        ZomeError::EncodePayload(error) => Failure::within(
            "Encoding failure",
            Cause::Request(error),
        ),
        ZomeError::CallZome(error) => Failure::bare(Cause::Request(error)),
        ZomeError::DecodeResponse(error) => Failure::bare(
            Cause::LabelledRequest { label: "Decoding failure: ".to_owned(), error },
        ),
    }
}

/// The information about an agent was too long to be decoded.
pub open spec fn is_too_long<E>(error: PeersError<E>) -> bool {
    error matches PeersError::InvalidAgentInfo(invalid) && invalid is TooLong
}

/// How it is worded that the peers could not be listed. That the information about an agent is too
/// long is not worded.
pub open spec fn peers_failure_text<E>(error: PeersError<E>) -> FailureText<E>
    recommends
        !is_too_long(error),
{
    match error {
        PeersError::ConnectAdmin(error) => FailureText {
            contexts: Seq::empty(),
            cause: CauseText::Request(error),
        },
        PeersError::ListAgents(error) => FailureText {
            contexts: seq!["Failed to get agent info"@],
            cause: CauseText::Request(error),
        },
        PeersError::InvalidAgentInfo(InvalidAgentInfo::Decode(error)) => FailureText {
            contexts: Seq::empty(),
            cause: CauseText::AgentInfo(error),
        },
        PeersError::InvalidAgentInfo(InvalidAgentInfo::TooLong) => arbitrary(),
    }
}

/// Words that the peers could not be listed.
pub fn peers_failure<E>(error: PeersError<E>) -> (failure: Failure<E>)
    requires
        !is_too_long(error),
    ensures
        failure@ == peers_failure_text(error),
{
    match error {
        PeersError::ConnectAdmin(error) => Failure::bare(Cause::Request(error)),
        PeersError::ListAgents(error) => Failure::within(
            "Failed to get agent info",
            Cause::Request(error),
        ),
        PeersError::InvalidAgentInfo(InvalidAgentInfo::Decode(error)) => Failure::bare(
            Cause::AgentInfo(error),
        ),
        PeersError::InvalidAgentInfo(InvalidAgentInfo::TooLong) => unreached(),
    }
}

/// However installing an app fails, the failure begins by saying that the app was not installed.
pub proof fn law_install_failures_say_so<K, C, E>(
    flow: InstallFlow<K>,
    reply: InstallReply<K, C, E>,
    error: SetupError<E>,
)
    requires
        flow.next(reply).1 == Some(InstallProgress::<K, C, E>::Finish(Err(error))),
    ensures
        install_failure_text(error).says_first("Failed to install app"@),
        install_failure_text(error).cause == setup_cause_text(error),
{
}

/// Where a request fails, configuring fails with it, and the failure begins by saying that no app
/// port was set up.
pub proof fn law_failed_requests_set_up_no_port<E>(
    before: ConfigureFlow,
    reply: ConfigureReply<E>,
    after: ConfigureFlow,
    progress: Option<ConfigureProgress<E>>,
    error: E,
)
    requires
        before.steps_to(reply, after, progress),
        match before.step {
            ConfigureStep::ConnectingAdmin => reply == ConfigureReply::<E>::AdminConnected(
                Err(error),
            ),
            ConfigureStep::ListingInterfaces => reply == ConfigureReply::<E>::InterfacesListed(
                Err(error),
            ),
            ConfigureStep::AttachingInterface => reply == ConfigureReply::<E>::InterfaceAttached(
                Err(error),
            ),
            ConfigureStep::Finished => false,
        },
    ensures
        progress matches Some(Progress::Finish(Err(failed))) && {
            &&& !(failed is AdminUrlTooLong)
            &&& configure_failure_text(failed).says_first("Failed to set up app port"@)
            &&& configure_failure_text(failed).cause == CauseText::Request(error)
        },
{
}

} // verus!
