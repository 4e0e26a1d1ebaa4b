//! Promises about opening sessions, by installing an app or taking one up.

use crate::app_info::{get_cell_id_for_role_name, AppInfo, RoleError};
use crate::context::{AgentContext, RunnerContext};
use crate::install::{
    install_app, InstallFlow, InstallProgress, InstallReply, InstallRequest,
    InstallStep, RolesSettings,
};
use crate::installed::{
    find_running_cell, use_installed_app, InstalledFlow, InstalledProgress, InstalledReply,
    InstalledRequest, InstalledStep,
};
use crate::keys::{AgentPubKey, CellId};
use crate::progress::Progress;
use crate::session::{
    open_session, SessionFlow, SessionProgress, SessionReply, SessionRequest, SessionStep, SetupError,
};
use vstd::prelude::*;

verus! {

/// What a call of [`open_session`] gives.
pub type SessionAnswer<K, C, E> = (SessionFlow<K>, Option<SessionProgress<K, C, E>>);

/// What a call of [`install_app`] gives.
pub type InstallAnswer<K, C, E> = (InstallFlow<K>, Option<InstallProgress<K, C, E>>);

/// What a call of [`use_installed_app`] gives.
pub type InstalledAnswer<K, C, E> = (InstalledFlow<K>, Option<InstalledProgress<K, C, E>>);

/// A session flow never changes its mind about which app it opens, where, and on which cell.
pub proof fn law_session_keeps_its_aim<K, C, E>(
    flow: SessionFlow<K>,
    reply: SessionReply<K, C, E>,
    res: SessionAnswer<K, C, E>,
)
    requires
        call_ensures(open_session::<K, C, E>, (flow, reply), res),
    ensures
        res.0.app_ws_url == flow.app_ws_url,
        res.0.installed_app_id == flow.installed_app_id,
        res.0.cell_id == flow.cell_id,
{
}

/// The credentials that were authorized are kept, and a token is asked for the flow's own app.
pub proof fn law_token_is_asked_for_the_app<K, C, E>(
    flow: SessionFlow<K>,
    credentials: K,
    res: SessionAnswer<K, C, E>,
)
    requires
        flow.step is Authorizing,
        call_ensures(
            open_session::<K, C, E>,
            (flow, SessionReply::<K, C, E>::Authorized(Ok(credentials))),
            res,
        ),
    ensures
        res.0.step == (SessionStep::IssuingToken { credentials }),
        res.1 matches Some(Progress::Ask(SessionRequest::IssueToken { installed_app_id }))
            && installed_app_id == flow.installed_app_id,
{
}

/// The client is connected to the flow's app URL, with the token that was issued, and with a signer
/// that holds the credentials for the flow's cell.
pub proof fn law_client_is_connected_with_token_and_credentials<K, C, E>(
    flow: SessionFlow<K>,
    held: K,
    issued: Vec<u8>,
    res: SessionAnswer<K, C, E>,
)
    requires
        flow.step == (SessionStep::IssuingToken { credentials: held }),
        call_ensures(
            open_session::<K, C, E>,
            (flow, SessionReply::<K, C, E>::TokenIssued(Ok(issued))),
            res,
        ),
    ensures
        res.0.step is ConnectingApp,
        res.1 matches Some(
            Progress::Ask(SessionRequest::ConnectApp { app_ws_url, token, cell_id, credentials }),
        ) && app_ws_url == flow.app_ws_url && token == issued && cell_id == flow.cell_id
            && credentials == held,
{
}

/// A session holds the flow's app and cell and the client that was connected.
pub proof fn law_session_holds_the_connected_client<K, C, E>(
    flow: SessionFlow<K>,
    client: C,
    res: SessionAnswer<K, C, E>,
)
    requires
        flow.step is ConnectingApp,
        call_ensures(
            open_session::<K, C, E>,
            (flow, SessionReply::<K, C, E>::Connected(Ok(client))),
            res,
        ),
    ensures
        res.0.step is Finished,
        res.1 matches Some(Progress::Finish(Ok(session))) && session.installed_app_id
            == flow.installed_app_id && session.cell_id == flow.cell_id && session.app_client
            == client,
{
}

/// Where a request of a session flow fails, the flow ends with that failure.
pub proof fn law_session_fails_with_its_request<K, C, E>(
    flow: SessionFlow<K>,
    reply: SessionReply<K, C, E>,
    error: E,
    res: SessionAnswer<K, C, E>,
)
    requires
        call_ensures(open_session::<K, C, E>, (flow, reply), res),
        match flow.step {
            SessionStep::Authorizing => reply == SessionReply::<K, C, E>::Authorized(Err(error)),
            SessionStep::IssuingToken { credentials: _ } => reply
                == SessionReply::<K, C, E>::TokenIssued(Err(error)),
            SessionStep::ConnectingApp => reply == SessionReply::<K, C, E>::Connected(Err(error)),
            SessionStep::Finished => false,
        },
    ensures
        res.0.step is Finished,
        res.1 matches Some(Progress::Finish(Err(failed))) && {
            &&& flow.step is Authorizing ==> failed == SetupError::AuthorizeSigning(error)
            &&& flow.step is IssuingToken ==> failed == SetupError::IssueToken(error)
            &&& flow.step is ConnectingApp ==> failed == SetupError::ConnectApp(error)
        },
{
}

/// A reply that a session flow does not wait for leaves it as it is and is not answered.
pub proof fn law_session_ignores_other_replies<K, C, E>(
    flow: SessionFlow<K>,
    reply: SessionReply<K, C, E>,
    res: SessionAnswer<K, C, E>,
)
    requires
        call_ensures(open_session::<K, C, E>, (flow, reply), res),
        flow.step is Authorizing ==> !(reply is Authorized),
        flow.step is IssuingToken ==> !(reply is TokenIssued),
        flow.step is ConnectingApp ==> !(reply is Connected),
    ensures
        res.0 == flow,
        res.1 is None,
{
}

/// An install flow begins with the agent's app id, the runner's app URL and run, the path and the
/// role, and connects to the runner's admin interface.
pub proof fn law_install_begins<K, C>(
    runner: &RunnerContext,
    ctx: &AgentContext<C>,
    path: std::path::PathBuf,
    role_name: String,
    res: (InstallFlow<K>, InstallRequest<K>),
)
    requires
        runner.app_ws_url is Some,
        call_ensures(InstallFlow::<K>::begin::<C>, (runner, ctx, path, role_name), res),
    ensures
        res.0.installed_app_id@ == ctx.agent_name@ + "-app"@,
        Some(res.0.app_ws_url) == runner.app_ws_url,
        res.0.run_id == runner.run_id,
        res.0.role_name == role_name,
        res.0.step matches InstallStep::ConnectingAdmin { app_path } && app_path == path,
        res.1 matches InstallRequest::ConnectAdmin { admin_ws_url } && admin_ws_url
            == runner.connection_string,
{
}

/// An install flow never changes its mind about its app, its role, its run and its app URL.
pub proof fn law_install_keeps_its_aim<K, C, E>(
    flow: InstallFlow<K>,
    reply: InstallReply<K, C, E>,
    res: InstallAnswer<K, C, E>,
)
    requires
        call_ensures(install_app::<K, C, E>, (flow, reply), res),
    ensures
        res.0.app_ws_url == flow.app_ws_url,
        res.0.installed_app_id == flow.installed_app_id,
        res.0.role_name == flow.role_name,
        res.0.run_id == flow.run_id,
{
}

/// Once connected, an install flow has a key generated for the agent.
pub proof fn law_install_generates_a_key<K, C, E>(
    flow: InstallFlow<K>,
    path: std::path::PathBuf,
    res: InstallAnswer<K, C, E>,
)
    requires
        flow.step == (InstallStep::<K>::ConnectingAdmin { app_path: path }),
        call_ensures(
            install_app::<K, C, E>,
            (flow, InstallReply::<K, C, E>::AdminConnected(Ok(()))),
            res,
        ),
    ensures
        res.0.step matches InstallStep::GeneratingKey { app_path } && app_path == path,
        res.1 matches Some(Progress::Ask(InstallRequest::GenerateKey)),
{
}

/// Once there is a key, it is kept, and the bundle is read from the path that was given.
pub proof fn law_install_reads_the_bundle<K, C, E>(
    flow: InstallFlow<K>,
    path: std::path::PathBuf,
    key: AgentPubKey,
    res: InstallAnswer<K, C, E>,
)
    requires
        flow.step == (InstallStep::<K>::GeneratingKey { app_path: path }),
        call_ensures(
            install_app::<K, C, E>,
            (flow, InstallReply::<K, C, E>::KeyGenerated(Ok(key))),
            res,
        ),
    ensures
        res.0.step matches InstallStep::ReadingBundle { agent_key } && agent_key == key,
        res.1 matches Some(Progress::Ask(InstallRequest::ReadBundle { app_path })) && app_path
            == path,
{
}

/// The app is installed from the bundle that was read, for the key that was generated, under the
/// agent's app id, in the network of the run, with the roles as the bundle has them and no leniency.
pub proof fn law_bundle_is_installed_in_the_network_of_the_run<K, C, E>(
    flow: InstallFlow<K>,
    key: AgentPubKey,
    bundle: Vec<u8>,
    res: InstallAnswer<K, C, E>,
)
    requires
        flow.step == (InstallStep::<K>::ReadingBundle { agent_key: key }),
        call_ensures(
            install_app::<K, C, E>,
            (flow, InstallReply::<K, C, E>::BundleRead(Ok(bundle))),
            res,
        ),
    ensures
        res.0.step is Installing,
        res.1 matches Some(Progress::Ask(InstallRequest::InstallApp(payload))) && {
            &&& payload.source == bundle
            &&& payload.agent_key == Some(key)
            &&& payload.installed_app_id == Some(flow.installed_app_id)
            &&& payload.roles_settings == RolesSettings::AsInBundle
            &&& payload.network_seed == Some(flow.run_id)
            &&& !payload.ignore_genesis_failure
            &&& !payload.allow_throwaway_random_agent_key
        },
{
}

/// Agents share a network exactly where they take part in the same run, whatever their apps,
/// bundles and keys.
pub proof fn law_agents_of_a_run_share_a_network<K, C, E>(
    a: InstallFlow<K>,
    a_bundle: Vec<u8>,
    a_res: InstallAnswer<K, C, E>,
    b: InstallFlow<K>,
    b_bundle: Vec<u8>,
    b_res: InstallAnswer<K, C, E>,
)
    requires
        a.step is ReadingBundle,
        b.step is ReadingBundle,
        call_ensures(
            install_app::<K, C, E>,
            (a, InstallReply::<K, C, E>::BundleRead(Ok(a_bundle))),
            a_res,
        ),
        call_ensures(
            install_app::<K, C, E>,
            (b, InstallReply::<K, C, E>::BundleRead(Ok(b_bundle))),
            b_res,
        ),
    ensures
        a_res.1 matches Some(Progress::Ask(InstallRequest::InstallApp(in_a))) && b_res.1 matches Some(
            Progress::Ask(InstallRequest::InstallApp(in_b)),
        ) && (in_a.network_seed == in_b.network_seed <==> a.run_id == b.run_id),
{
}

/// Once installed, the app is kept in mind and enabled.
pub proof fn law_installed_app_is_enabled<K, C, E>(
    flow: InstallFlow<K>,
    info: AppInfo,
    res: InstallAnswer<K, C, E>,
)
    requires
        flow.step is Installing,
        call_ensures(
            install_app::<K, C, E>,
            (flow, InstallReply::<K, C, E>::AppInstalled(Ok(info))),
            res,
        ),
    ensures
        res.0.step matches InstallStep::Enabling { app_info } && app_info == info,
        res.1 matches Some(Progress::Ask(InstallRequest::EnableApp { installed_app_id }))
            && installed_app_id == flow.installed_app_id,
{
}

/// Once enabled, the app's cell under the role is what a session is opened with, by credentials for
/// every function; or the flow ends because there is no such cell.
pub proof fn law_enabled_app_is_searched_for_the_role<K, C, E>(
    flow: InstallFlow<K>,
    info: AppInfo,
    of_role: Result<CellId, RoleError>,
    res: InstallAnswer<K, C, E>,
)
    requires
        flow.step == (InstallStep::<K>::Enabling { app_info: info }),
        call_ensures(get_cell_id_for_role_name, (&info, &flow.role_name), of_role),
        call_ensures(
            install_app::<K, C, E>,
            (flow, InstallReply::<K, C, E>::AppEnabled(Ok(()))),
            res,
        ),
    ensures
        of_role is Ok ==> (res.0.step matches InstallStep::OpeningSession(session) && {
            &&& session.app_ws_url == flow.app_ws_url
            &&& session.installed_app_id == flow.installed_app_id
            &&& session.cell_id == of_role->Ok_0
            &&& session.step is Authorizing
        }),
        of_role is Ok ==> (res.1 matches Some(
            Progress::Ask(
                InstallRequest::Session(SessionRequest::AuthorizeSigning { cell_id, functions }),
            ),
        ) && cell_id == of_role->Ok_0 && functions is None),
        of_role is Err ==> res.0.step is Finished,
        of_role is Err ==> (res.1 matches Some(Progress::Finish(Err(failed))) && failed
            == SetupError::<E>::Role(of_role->Err_0)),
{
}

/// Where a request of an install flow fails, the flow ends with that failure.
pub proof fn law_install_fails_with_its_request<K, C, E>(
    flow: InstallFlow<K>,
    reply: InstallReply<K, C, E>,
    error: E,
    res: InstallAnswer<K, C, E>,
)
    requires
        call_ensures(install_app::<K, C, E>, (flow, reply), res),
        match flow.step {
            InstallStep::ConnectingAdmin { app_path: _ } => reply
                == InstallReply::<K, C, E>::AdminConnected(Err(error)),
            InstallStep::GeneratingKey { app_path: _ } => reply
                == InstallReply::<K, C, E>::KeyGenerated(Err(error)),
            InstallStep::ReadingBundle { agent_key: _ } => reply
                == InstallReply::<K, C, E>::BundleRead(Err(error)),
            InstallStep::Installing => reply == InstallReply::<K, C, E>::AppInstalled(Err(error)),
            InstallStep::Enabling { app_info: _ } => reply == InstallReply::<K, C, E>::AppEnabled(
                Err(error),
            ),
            _ => false,
        },
    ensures
        res.0.step is Finished,
        res.1 matches Some(Progress::Finish(Err(failed))) && {
            &&& flow.step is ConnectingAdmin ==> failed == SetupError::ConnectAdmin(error)
            &&& flow.step is GeneratingKey ==> failed == SetupError::GenerateKey(error)
            &&& flow.step is ReadingBundle ==> failed == SetupError::ReadBundle(error)
            &&& flow.step is Installing ==> failed == SetupError::InstallApp(error)
            &&& flow.step is Enabling ==> failed == SetupError::EnableApp(error)
        },
{
}

/// While its session is opened, an install flow does what opening the session does.
pub proof fn law_install_opens_the_session<K, C, E>(
    flow: InstallFlow<K>,
    session: SessionFlow<K>,
    reply: SessionReply<K, C, E>,
    opened: SessionAnswer<K, C, E>,
    res: InstallAnswer<K, C, E>,
)
    requires
        flow.step == InstallStep::OpeningSession(session),
        call_ensures(open_session::<K, C, E>, (session, reply), opened),
        call_ensures(install_app::<K, C, E>, (flow, InstallReply::Session(reply)), res),
    ensures
        res.0.step == InstallStep::OpeningSession(opened.0),
        opened.1 is None <==> res.1 is None,
        opened.1 matches Some(Progress::Ask(request)) ==> res.1 == Some(
            InstallProgress::<K, C, E>::Ask(InstallRequest::Session(request)),
        ),
        opened.1 matches Some(Progress::Finish(outcome)) ==> res.1 == Some(
            InstallProgress::<K, C, E>::Finish(outcome),
        ),
{
}

/// A reply that an install flow does not wait for leaves it as it is and is not answered.
pub proof fn law_install_ignores_other_replies<K, C, E>(
    flow: InstallFlow<K>,
    reply: InstallReply<K, C, E>,
    res: InstallAnswer<K, C, E>,
)
    requires
        call_ensures(install_app::<K, C, E>, (flow, reply), res),
        flow.step is ConnectingAdmin ==> !(reply is AdminConnected),
        flow.step is GeneratingKey ==> !(reply is KeyGenerated),
        flow.step is ReadingBundle ==> !(reply is BundleRead),
        flow.step is Installing ==> !(reply is AppInstalled),
        flow.step is Enabling ==> !(reply is AppEnabled),
        flow.step is OpeningSession ==> !(reply is Session),
    ensures
        res.0 == flow,
        res.1 is None,
{
}

/// Taking up an app begins with the agent's app id, the runner's app URL and the role, and connects
/// to the runner's admin interface.
pub proof fn law_taking_up_begins<K, C>(
    runner: &RunnerContext,
    ctx: &AgentContext<C>,
    role_name: String,
    res: (InstalledFlow<K>, InstalledRequest<K>),
)
    requires
        runner.app_ws_url is Some,
        call_ensures(InstalledFlow::<K>::begin::<C>, (runner, ctx, role_name), res),
    ensures
        res.0.installed_app_id@ == ctx.agent_name@ + "-app"@,
        Some(res.0.app_ws_url) == runner.app_ws_url,
        res.0.role_name == role_name,
        res.0.step is ConnectingAdmin,
        res.1 matches InstalledRequest::ConnectAdmin { admin_ws_url } && admin_ws_url
            == runner.connection_string,
{
}

/// An agent's app is looked for under the same id under which it is installed.
pub proof fn law_installed_and_taken_up_under_one_id<K, C>(
    runner: &RunnerContext,
    ctx: &AgentContext<C>,
    path: std::path::PathBuf,
    role_name: String,
    installing: (InstallFlow<K>, InstallRequest<K>),
    taking_up: (InstalledFlow<K>, InstalledRequest<K>),
)
    requires
        runner.app_ws_url is Some,
        call_ensures(InstallFlow::<K>::begin::<C>, (runner, ctx, path, role_name), installing),
        call_ensures(InstalledFlow::<K>::begin::<C>, (runner, ctx, role_name), taking_up),
    ensures
        installing.0.installed_app_id@ == taking_up.0.installed_app_id@,
        installing.0.app_ws_url == taking_up.0.app_ws_url,
{
}

/// A flow that takes up an app never changes its mind about its app, its role and its app URL.
pub proof fn law_taking_up_keeps_its_aim<K, C, E>(
    flow: InstalledFlow<K>,
    reply: InstalledReply<K, C, E>,
    res: InstalledAnswer<K, C, E>,
)
    requires
        call_ensures(use_installed_app::<K, C, E>, (flow, reply), res),
    ensures
        res.0.app_ws_url == flow.app_ws_url,
        res.0.installed_app_id == flow.installed_app_id,
        res.0.role_name == flow.role_name,
{
}

/// Once connected, all the apps are listed, whatever their status.
pub proof fn law_taking_up_lists_all_apps<K, C, E>(
    flow: InstalledFlow<K>,
    res: InstalledAnswer<K, C, E>,
)
    requires
        flow.step is ConnectingAdmin,
        call_ensures(
            use_installed_app::<K, C, E>,
            (flow, InstalledReply::<K, C, E>::AdminConnected(Ok(()))),
            res,
        ),
    ensures
        res.0.step is ListingApps,
        res.1 matches Some(Progress::Ask(InstalledRequest::ListApps { status_filter }))
            && status_filter is None,
{
}

/// Among the listed apps the flow's running cell is what a session is opened with, by credentials
/// for every function; or the flow ends because there is none.
pub proof fn law_listed_apps_are_searched<K, C, E>(
    flow: InstalledFlow<K>,
    app_infos: Vec<AppInfo>,
    found: Result<CellId, SetupError<E>>,
    res: InstalledAnswer<K, C, E>,
)
    requires
        flow.step is ListingApps,
        call_ensures(
            find_running_cell::<E>,
            (&app_infos, &flow.installed_app_id, &flow.role_name),
            found,
        ),
        call_ensures(
            use_installed_app::<K, C, E>,
            (flow, InstalledReply::<K, C, E>::AppsListed(Ok(app_infos))),
            res,
        ),
    ensures
        found is Ok ==> (res.0.step matches InstalledStep::OpeningSession(session) && {
            &&& session.app_ws_url == flow.app_ws_url
            &&& session.installed_app_id == flow.installed_app_id
            &&& session.cell_id == found->Ok_0
            &&& session.step is Authorizing
        }),
        found is Ok ==> (res.1 matches Some(
            Progress::Ask(
                InstalledRequest::Session(SessionRequest::AuthorizeSigning { cell_id, functions }),
            ),
        ) && cell_id == found->Ok_0 && functions is None),
        found is Err ==> res.0.step is Finished,
        found is Err ==> (res.1 matches Some(Progress::Finish(Err(failed))) && failed
            == found->Err_0),
{
}

/// Where a request fails, taking up the app ends with that failure.
pub proof fn law_taking_up_fails_with_its_request<K, C, E>(
    flow: InstalledFlow<K>,
    reply: InstalledReply<K, C, E>,
    error: E,
    res: InstalledAnswer<K, C, E>,
)
    requires
        call_ensures(use_installed_app::<K, C, E>, (flow, reply), res),
        match flow.step {
            InstalledStep::ConnectingAdmin => reply == InstalledReply::<K, C, E>::AdminConnected(
                Err(error),
            ),
            InstalledStep::ListingApps => reply == InstalledReply::<K, C, E>::AppsListed(Err(error)),
            _ => false,
        },
    ensures
        res.0.step is Finished,
        res.1 matches Some(Progress::Finish(Err(failed))) && {
            &&& flow.step is ConnectingAdmin ==> failed == SetupError::ConnectAdmin(error)
            &&& flow.step is ListingApps ==> failed == SetupError::ListApps(error)
        },
{
}

/// While its session is opened, a flow that takes up an app does what opening the session does.
pub proof fn law_taking_up_opens_the_session<K, C, E>(
    flow: InstalledFlow<K>,
    session: SessionFlow<K>,
    reply: SessionReply<K, C, E>,
    opened: SessionAnswer<K, C, E>,
    res: InstalledAnswer<K, C, E>,
)
    requires
        flow.step == InstalledStep::OpeningSession(session),
        call_ensures(open_session::<K, C, E>, (session, reply), opened),
        call_ensures(use_installed_app::<K, C, E>, (flow, InstalledReply::Session(reply)), res),
    ensures
        res.0.step == InstalledStep::OpeningSession(opened.0),
        opened.1 is None <==> res.1 is None,
        opened.1 matches Some(Progress::Ask(request)) ==> res.1 == Some(
            InstalledProgress::<K, C, E>::Ask(InstalledRequest::Session(request)),
        ),
        opened.1 matches Some(Progress::Finish(outcome)) ==> res.1 == Some(
            InstalledProgress::<K, C, E>::Finish(outcome),
        ),
{
}

/// A reply that a flow that takes up an app does not wait for leaves it as it is and is not
/// answered.
pub proof fn law_taking_up_ignores_other_replies<K, C, E>(
    flow: InstalledFlow<K>,
    reply: InstalledReply<K, C, E>,
    res: InstalledAnswer<K, C, E>,
)
    requires
        call_ensures(use_installed_app::<K, C, E>, (flow, reply), res),
        flow.step is ConnectingAdmin ==> !(reply is AdminConnected),
        flow.step is ListingApps ==> !(reply is AppsListed),
        flow.step is OpeningSession ==> !(reply is Session),
    ensures
        res.0 == flow,
        res.1 is None,
{
}

} // verus!
