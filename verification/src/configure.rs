//! Configuring the URL of the app websocket.

use crate::app_url::{checked_app_ws_url, has_room_for_port, is_app_url_outcome, AppUrlError};
use crate::context::RunnerContext;
use crate::progress::Progress;
use vstd::prelude::*;

verus! {

/// Who may connect to an app interface.
#[derive(Debug, PartialEq, Eq)]
pub enum AllowedOrigins {
    Any,
    Origins(Vec<String>),
}

/// An app interface that is attached to a conductor.
#[derive(Debug, PartialEq, Eq)]
pub struct AppInterface {
    pub port: u16,
    pub allowed_origins: AllowedOrigins,
    /// The only app that may be reached through the interface, if it is bound to one.
    pub installed_app_id: Option<String>,
}

/// Every client may use the interface for every app.
pub open spec fn is_open_to_all(interface: AppInterface) -> bool {
    interface.allowed_origins is Any && interface.installed_app_id is None
}

/// The port of the first interface, if there is any.
pub open spec fn first_port(interfaces: Seq<AppInterface>) -> Option<u16> {
    if interfaces.len() == 0 {
        None
    } else {
        Some(interfaces[0].port)
    }
}

/// Picks the port of the first interface, if there is any.
pub fn pick_app_port(interfaces: &Vec<AppInterface>) -> (port: Option<u16>)
    ensures
        port == first_port(interfaces@),
{
    if interfaces.len() == 0 {
        None
    } else {
        Some(interfaces[0].port)
    }
}

/// What configuring the app URL asks for.
#[derive(Debug, PartialEq, Eq)]
pub enum ConfigureRequest {
    /// Connect to the admin interface.
    ConnectAdmin { admin_ws_url: String },
    /// List the app interfaces.
    ListAppInterfaces,
    /// Attach an app interface; the conductor picks the port where it is 0.
    AttachAppInterface(AppInterface),
}

/// What comes back. `E` is what a failed request came back with.
#[derive(Debug, PartialEq, Eq)]
pub enum ConfigureReply<E> {
    AdminConnected(Result<(), E>),
    InterfacesListed(Result<Vec<AppInterface>, E>),
    InterfaceAttached(Result<u16, E>),
}

/// Why no app URL could be configured.
#[derive(Debug, PartialEq, Eq)]
pub enum ConfigureError<E> {
    /// Connecting to the admin interface failed.
    ConnectAdmin(E),
    /// Listing the app interfaces failed.
    ListAppInterfaces(E),
    /// Attaching an app interface failed.
    AttachAppInterface(E),
    /// No app URL can be derived from the admin URL.
    AppUrl(AppUrlError),
    /// The admin URL is too long to be given a port.
    AdminUrlTooLong,
}

/// How far configuring the app URL has come.
#[derive(Debug, Clone, Copy, PartialEq, Eq)]
pub enum ConfigureStep {
    ConnectingAdmin,
    ListingInterfaces,
    AttachingInterface,
    Finished,
}

/// An app URL that is being configured.
#[derive(Debug, PartialEq, Eq)]
pub struct ConfigureFlow {
    pub admin_ws_url: String,
    pub step: ConfigureStep,
}

/// What a configure flow answers.
pub type ConfigureProgress<E> = Progress<ConfigureRequest, String, ConfigureError<E>>;

/// Whether `outcome` is what configuring must give, once the app port is known.
pub open spec fn is_configured<E>(
    admin_ws_url: Seq<char>,
    app_port: u16,
    outcome: Result<String, ConfigureError<E>>,
) -> bool {
    match outcome {
        Ok(url) => has_room_for_port(admin_ws_url, app_port) && is_app_url_outcome(
            admin_ws_url,
            app_port,
            Ok(url),
        ),
        Err(ConfigureError::AppUrl(error)) => has_room_for_port(admin_ws_url, app_port)
            && is_app_url_outcome(admin_ws_url, app_port, Err(error)),
        Err(ConfigureError::AdminUrlTooLong) => !has_room_for_port(admin_ws_url, app_port),
        _ => false,
    }
}

/// What to do next.
pub enum ConfigureNext<E> {
    /// Nothing: the reply is not the one that was waited for.
    Ignore,
    /// Go on to a step with a request.
    Ask(ConfigureStep, ConfigureRequest),
    /// End with an error.
    Fail(ConfigureError<E>),
    /// End with the URL for this port.
    UsePort(u16),
}

impl ConfigureFlow {
    /// What follows a reply.
    pub open spec fn next<E>(self, reply: ConfigureReply<E>) -> ConfigureNext<E> {
        match (self.step, reply) {
            (ConfigureStep::ConnectingAdmin, ConfigureReply::AdminConnected(Ok(_))) =>
                ConfigureNext::Ask(
                    ConfigureStep::ListingInterfaces,
                    ConfigureRequest::ListAppInterfaces,
                ),
            (ConfigureStep::ConnectingAdmin, ConfigureReply::AdminConnected(Err(error))) =>
                ConfigureNext::Fail(ConfigureError::ConnectAdmin(error)),
            (ConfigureStep::ListingInterfaces, ConfigureReply::InterfacesListed(Ok(interfaces))) =>
                match first_port(interfaces@) {
                    Some(port) => ConfigureNext::UsePort(port),
                    None => ConfigureNext::Ask(
                        ConfigureStep::AttachingInterface,
                        ConfigureRequest::AttachAppInterface(
                            AppInterface {
                                port: 0,
                                allowed_origins: AllowedOrigins::Any,
                                installed_app_id: None,
                            },
                        ),
                    ),
                },
            (ConfigureStep::ListingInterfaces, ConfigureReply::InterfacesListed(Err(error))) =>
                ConfigureNext::Fail(ConfigureError::ListAppInterfaces(error)),
            (ConfigureStep::AttachingInterface, ConfigureReply::InterfaceAttached(Ok(port))) =>
                ConfigureNext::UsePort(port),
            (ConfigureStep::AttachingInterface, ConfigureReply::InterfaceAttached(Err(error))) =>
                ConfigureNext::Fail(ConfigureError::AttachAppInterface(error)),
            _ => ConfigureNext::Ignore,
        }
    }

    /// Whether a reply may take this flow to `flow` with the answer `progress`.
    pub open spec fn steps_to<E>(
        self,
        reply: ConfigureReply<E>,
        flow: ConfigureFlow,
        progress: Option<ConfigureProgress<E>>,
    ) -> bool {
        &&& flow.admin_ws_url == self.admin_ws_url
        &&& match self.next(reply) {
            ConfigureNext::Ignore => flow.step == self.step && progress is None,
            ConfigureNext::Ask(step, request) => flow.step == step && progress == Some(
                Progress::<_, String, ConfigureError<E>>::Ask(request),
            ),
            ConfigureNext::Fail(error) => flow.step is Finished && progress == Some(
                Progress::<ConfigureRequest, String, _>::Finish(Err(error)),
            ),
            ConfigureNext::UsePort(port) => {
                &&& flow.step is Finished
                &&& progress matches Some(Progress::Finish(outcome))
                &&& is_configured(self.admin_ws_url@, port, outcome)
            },
        }
    }

    /// Begins to configure the app URL of the runner's conductor.
    pub fn begin(runner: &RunnerContext) -> (res: (ConfigureFlow, ConfigureRequest))
        ensures
            res.0 == (ConfigureFlow {
                admin_ws_url: runner.connection_string,
                step: ConfigureStep::ConnectingAdmin,
            }),
            res.1 == (ConfigureRequest::ConnectAdmin { admin_ws_url: runner.connection_string }),
    {
        (
            ConfigureFlow {
                admin_ws_url: runner.connection_string.clone(),
                step: ConfigureStep::ConnectingAdmin,
            },
            ConfigureRequest::ConnectAdmin { admin_ws_url: runner.connection_string.clone() },
        )
    }

    /// Ends with the URL for the app port.
    fn use_port<E>(&self, app_port: u16) -> (outcome: Result<String, ConfigureError<E>>)
        ensures
            is_configured(self.admin_ws_url@, app_port, outcome),
    {
        match checked_app_ws_url(self.admin_ws_url.as_str(), app_port) {
            Some(Ok(url)) => Ok(url),
            Some(Err(error)) => Err(ConfigureError::AppUrl(error)),
            None => Err(ConfigureError::AdminUrlTooLong),
        }
    }
}

/// Takes the configuration of the app URL one reply further.
///
/// The first app interface is used where there are any; otherwise one is attached. The app URL is
/// the admin URL with the port of that interface.
pub fn configure_app_ws_url<E>(flow: ConfigureFlow, reply: ConfigureReply<E>) -> (res: (
    ConfigureFlow,
    Option<ConfigureProgress<E>>,
))
    ensures
        flow.steps_to(reply, res.0, res.1),
{
    let (step, progress) = match (flow.step, reply) {
        (ConfigureStep::ConnectingAdmin, ConfigureReply::AdminConnected(Ok(_))) => (
            ConfigureStep::ListingInterfaces,
            Some(Progress::Ask(ConfigureRequest::ListAppInterfaces)),
        ),
        (ConfigureStep::ConnectingAdmin, ConfigureReply::AdminConnected(Err(error))) => (
            ConfigureStep::Finished,
            Some(Progress::Finish(Err(ConfigureError::ConnectAdmin(error)))),
        ),
        (ConfigureStep::ListingInterfaces, ConfigureReply::InterfacesListed(Ok(interfaces))) => {
            match pick_app_port(&interfaces) {
                Some(port) => (
                    ConfigureStep::Finished,
                    Some(Progress::Finish(flow.use_port(port))),
                ),
                None => {
                    let interface = AppInterface {
                        port: 0,
                        allowed_origins: AllowedOrigins::Any,
                        installed_app_id: None,
                    };
                    (
                        ConfigureStep::AttachingInterface,
                        Some(Progress::Ask(ConfigureRequest::AttachAppInterface(interface))),
                    )
                },
            }
        },
        (ConfigureStep::ListingInterfaces, ConfigureReply::InterfacesListed(Err(error))) => (
            ConfigureStep::Finished,
            Some(Progress::Finish(Err(ConfigureError::ListAppInterfaces(error)))),
        ),
        (ConfigureStep::AttachingInterface, ConfigureReply::InterfaceAttached(Ok(port))) => (
            ConfigureStep::Finished,
            Some(Progress::Finish(flow.use_port(port))),
        ),
        (ConfigureStep::AttachingInterface, ConfigureReply::InterfaceAttached(Err(error))) => (
            ConfigureStep::Finished,
            Some(Progress::Finish(Err(ConfigureError::AttachAppInterface(error)))),
        ),
        (step, _) => (step, None),
    };
    (ConfigureFlow { admin_ws_url: flow.admin_ws_url, step }, progress)
}

impl ConfigureFlow {
    /// How many replies the flow still waits for at most.
    pub open spec fn steps_left(self) -> nat {
        match self.step {
            ConfigureStep::ConnectingAdmin => 3,
            ConfigureStep::ListingInterfaces => 2,
            ConfigureStep::AttachingInterface => 1,
            ConfigureStep::Finished => 0,
        }
    }
}

/// Configuring comes to an end: every reply that is answered brings the end closer, and the end is
/// reached with the answer that says so.
pub proof fn law_configuring_ends<E>(
    before: ConfigureFlow,
    reply: ConfigureReply<E>,
    after: ConfigureFlow,
    progress: Option<ConfigureProgress<E>>,
)
    requires
        before.steps_to(reply, after, progress),
    ensures
        progress is Some ==> after.steps_left() < before.steps_left(),
        progress is Some ==> (progress->0 is Finish <==> after.steps_left() == 0),
        before.steps_left() == 0 ==> progress is None,
{
}

/// Where there are app interfaces, the first of them is used, whoever it is open to, and none is
/// attached.
pub proof fn law_first_interface_is_used<E>(
    listing: ConfigureFlow,
    interfaces: Vec<AppInterface>,
    after: ConfigureFlow,
    progress: Option<ConfigureProgress<E>>,
)
    requires
        listing.step is ListingInterfaces,
        listing.steps_to(ConfigureReply::InterfacesListed(Ok(interfaces)), after, progress),
        interfaces@.len() > 0,
    ensures
        progress matches Some(Progress::Finish(outcome)) && is_configured(
            listing.admin_ws_url@,
            interfaces@[0].port,
            outcome,
        ),
        after.step is Finished,
{
}

/// Where there are no app interfaces, one is attached that is open to all, on a port of the
/// conductor's choosing, and that port is used.
pub proof fn law_an_open_interface_is_attached<E>(
    listing: ConfigureFlow,
    interfaces: Vec<AppInterface>,
    attaching: ConfigureFlow,
    first: Option<ConfigureProgress<E>>,
    port: u16,
    after: ConfigureFlow,
    second: Option<ConfigureProgress<E>>,
)
    requires
        listing.step is ListingInterfaces,
        listing.steps_to(ConfigureReply::InterfacesListed(Ok(interfaces)), attaching, first),
        attaching.steps_to(ConfigureReply::InterfaceAttached(Ok(port)), after, second),
        interfaces@.len() == 0,
    ensures
        first matches Some(Progress::Ask(ConfigureRequest::AttachAppInterface(interface)))
            && is_open_to_all(interface) && interface.port == 0,
        second matches Some(Progress::Finish(outcome)) && is_configured(
            listing.admin_ws_url@,
            port,
            outcome,
        ),
{
}

} // verus!
