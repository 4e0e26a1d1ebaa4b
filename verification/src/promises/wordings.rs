//! Promises about how failures are worded.

use crate::app_info::RoleError;
use crate::app_url::AppUrlError;
use crate::configure::ConfigureError;
use crate::failure::{
    configure_failure, install_failure, installed_failure, peers_failure, quoted_text,
    role_error_text, zome_failure, Cause, Failure,
};
use crate::peers::{InvalidAgentInfo, PeersError};
use crate::session::SetupError;
use crate::zome::ZomeError;
use vstd::prelude::*;

verus! {

/// A failure says nothing but what it comes from.
pub open spec fn says_nothing_more<E>(failure: Failure<E>) -> bool {
    failure.contexts@.len() == 0
}

/// A failure says one thing more than what it comes from.
pub open spec fn says<E>(failure: Failure<E>, message: Seq<char>) -> bool {
    failure.contexts@.len() == 1 && failure.contexts@[0]@ == message
}

/// The error of a request that failed while a session was set up, where it is passed on as it is.
pub open spec fn request_error<E>(error: SetupError<E>) -> Option<E> {
    match error {
        SetupError::ConnectAdmin(e) => Some(e),
        SetupError::GenerateKey(e) => Some(e),
        SetupError::ReadBundle(e) => Some(e),
        SetupError::InstallApp(e) => Some(e),
        SetupError::EnableApp(e) => Some(e),
        SetupError::ListApps(e) => Some(e),
        SetupError::AuthorizeSigning(e) => Some(e),
        SetupError::ConnectApp(e) => Some(e),
        _ => None,
    }
}

/// A cause tells why no session was set up: the error of the request as it is, or with a label for
/// the token, or a message on the app or the role.
pub open spec fn tells_why<E>(cause: Cause<E>, error: SetupError<E>) -> bool {
    &&& request_error(error) is Some ==> (cause matches Cause::Request(e) && e == request_error(
        error,
    )->0)
    &&& error matches SetupError::IssueToken(e) ==> (cause matches Cause::LabelledRequest {
        label,
        error: shown,
    } && label@ == "Could not issue auth token for app client: "@ && shown == e)
    &&& error matches SetupError::AppNotFound(id) ==> (cause matches Cause::Message(message)
        && message@ == "App not found: "@ + quoted_text(id@))
    &&& error matches SetupError::AppNotRunning(id) ==> (cause matches Cause::Message(message)
        && message@ == "App is not running: "@ + quoted_text(id@))
    &&& error matches SetupError::Role(role) ==> (cause matches Cause::Message(message)
        && names_role_error(message@, role))
}

/// A message names what is wrong with a role.
pub open spec fn names_role_error(message: Seq<char>, error: RoleError) -> bool {
    &&& error is RoleNotFound ==> message == "Role not found"@
    &&& error is CellNotFound ==> message == "Cell not found"@
    &&& error is CellNotProvisioned ==> message == "Cell not provisioned"@
}

proof fn lemma_contexts<E>(failure: Failure<E>)
    ensures
        failure@.contexts.len() == failure.contexts@.len(),
        forall|i: int|
            0 <= i < failure.contexts@.len() ==> #[trigger] failure.contexts@[i]@
                == failure@.contexts[i],
{
}

/// What is wrong with a role is named.
pub proof fn law_role_error_is_named(error: &RoleError, text: String)
    requires
        call_ensures(role_error_text, (error,), text),
    ensures
        names_role_error(text@, *error),
{
}

/// However installing fails, it is said first that the app was not installed, and then why.
pub proof fn law_install_failure_is_worded<E>(error: SetupError<E>, failure: Failure<E>)
    requires
        call_ensures(install_failure::<E>, (error,), failure),
    ensures
        says(failure, "Failed to install app"@),
        tells_why(failure.cause, error),
{
    lemma_contexts(failure);
}

/// However taking up an app fails, only the reason is said, and it is the reason that installing
/// would give.
pub proof fn law_taking_up_failure_is_worded<E>(error: SetupError<E>, failure: Failure<E>)
    requires
        call_ensures(installed_failure::<E>, (error,), failure),
    ensures
        says_nothing_more(failure),
        tells_why(failure.cause, error),
{
    lemma_contexts(failure);
}

/// Where a request fails while the app URL is configured, it is said first that no port was set up.
pub proof fn law_failed_request_of_configuring_is_worded<E>(
    error: ConfigureError<E>,
    request: E,
    failure: Failure<E>,
)
    requires
        error == ConfigureError::ConnectAdmin(request) || error == ConfigureError::ListAppInterfaces(
            request,
        ) || error == ConfigureError::AttachAppInterface(request),
        call_ensures(configure_failure::<E>, (error,), failure),
    ensures
        failure.cause matches Cause::Request(e) && e == request,
        failure.contexts@.len() == (if error is ConnectAdmin {
            2int
        } else {
            1int
        }),
        failure.contexts@[0]@ == "Failed to set up app port"@,
        error is ConnectAdmin ==> failure.contexts@[1]@ == "Unable to connect admin client"@,
{
    lemma_contexts(failure);
}

/// Where no app URL can be derived, only the reason is said.
pub proof fn law_unusable_admin_url_is_worded<E>(error: AppUrlError, failure: Failure<E>)
    requires
        call_ensures(configure_failure::<E>, (ConfigureError::<E>::AppUrl(error),), failure),
    ensures
        says_nothing_more(failure),
        error matches AppUrlError::Parse(e) ==> (failure.cause matches Cause::LabelledUrl {
            label,
            error: shown,
        } && label@ == "Failed to parse admin URL: "@ && shown == e),
        error is PortRefused ==> (failure.cause matches Cause::Message(message) && message@
            == "Failed to set app port on admin URL"@),
{
    lemma_contexts(failure);
}

/// Where a call fails, it is said whether encoding or decoding did.
pub proof fn law_failed_call_is_worded<E>(error: ZomeError<E>, request: E, failure: Failure<E>)
    requires
        error == ZomeError::EncodePayload(request) || error == ZomeError::CallZome(request) || error
            == ZomeError::DecodeResponse(request),
        call_ensures(zome_failure::<E>, (error,), failure),
    ensures
        error is EncodePayload ==> says(failure, "Encoding failure"@),
        !(error is EncodePayload) ==> says_nothing_more(failure),
        !(error is DecodeResponse) ==> (failure.cause matches Cause::Request(e) && e == request),
        error is DecodeResponse ==> (failure.cause matches Cause::LabelledRequest {
            label,
            error: shown,
        } && label@ == "Decoding failure: "@ && shown == request),
{
    lemma_contexts(failure);
}

/// Where a request fails while peers are listed, it is said whether it was for the agents.
pub proof fn law_failed_request_for_peers_is_worded<E>(
    error: PeersError<E>,
    request: E,
    failure: Failure<E>,
)
    requires
        error == PeersError::ConnectAdmin(request) || error == PeersError::ListAgents(request),
        call_ensures(peers_failure::<E>, (error,), failure),
    ensures
        failure.cause matches Cause::Request(e) && e == request,
        error is ListAgents ==> says(failure, "Failed to get agent info"@),
        error is ConnectAdmin ==> says_nothing_more(failure),
{
    lemma_contexts(failure);
}

/// Where information about an agent is malformed or not signed by it, only the reason is said.
pub proof fn law_invalid_info_is_worded<E>(why: kitsune2_api::K2Error, failure: Failure<E>)
    requires
        call_ensures(
            peers_failure::<E>,
            (PeersError::<E>::InvalidAgentInfo(InvalidAgentInfo::Decode(why)),),
            failure,
        ),
    ensures
        says_nothing_more(failure),
        failure.cause matches Cause::AgentInfo(e) && e == why,
{
    lemma_contexts(failure);
}

} // verus!
