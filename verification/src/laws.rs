//! What the flows promise together.

use crate::app_info::{agent_app_id, cell_id_for_role, find_app, AppInfo, RoleError};
use crate::context::{AgentContext, Session};
use crate::install::{InstallFlow, InstallProgress, InstallReply};
use crate::installed::{running_cell, InstalledFlow, InstalledProgress, InstalledReply};
use crate::keys::{AgentPubKey, CellId};
use crate::progress::Progress;
use crate::session::SessionReply;
use crate::uninstall::{
    app_to_uninstall, UninstallFlow, UninstallProgress, UninstallReply, UninstallRequest,
};
use crate::zome::{ZomeFlow, ZomeProgress, ZomeReply, ZomeRequest};
use vstd::prelude::*;

verus! {

/// What comes back to an install flow in which nothing fails.
pub struct InstallReplies<K, C> {
    pub agent_key: AgentPubKey,
    pub bundle: Vec<u8>,
    pub app_info: AppInfo,
    pub credentials: K,
    pub token: Vec<u8>,
    pub app_client: C,
}

/// What comes back where an installed app is taken up and nothing fails.
pub struct InstalledReplies<K, C> {
    pub app_infos: Vec<AppInfo>,
    pub credentials: K,
    pub token: Vec<u8>,
    pub app_client: C,
}

/// The last answer of an install flow in which nothing fails.
pub open spec fn install_outcome<K, C, E>(
    flow: InstallFlow<K>,
    replies: InstallReplies<K, C>,
) -> Option<InstallProgress<K, C, E>> {
    let generating = flow.next::<C, E>(InstallReply::AdminConnected(Ok(()))).0;
    let reading = generating.next::<C, E>(InstallReply::KeyGenerated(Ok(replies.agent_key))).0;
    let installing = reading.next::<C, E>(InstallReply::BundleRead(Ok(replies.bundle))).0;
    let enabling = installing.next::<C, E>(InstallReply::AppInstalled(Ok(replies.app_info))).0;
    let opening = enabling.next::<C, E>(InstallReply::AppEnabled(Ok(()))).0;
    let issuing = opening.next::<C, E>(
        InstallReply::Session(SessionReply::Authorized(Ok(replies.credentials))),
    ).0;
    let connecting = issuing.next::<C, E>(
        InstallReply::Session(SessionReply::TokenIssued(Ok(replies.token))),
    ).0;
    connecting.next::<C, E>(
        InstallReply::Session(SessionReply::Connected(Ok(replies.app_client))),
    ).1
}

/// The last answer where an installed app is taken up and nothing fails.
pub open spec fn installed_outcome<K, C, E>(
    flow: InstalledFlow<K>,
    replies: InstalledReplies<K, C>,
) -> Option<InstalledProgress<K, C, E>> {
    let listing = flow.next::<C, E>(InstalledReply::AdminConnected(Ok(()))).0;
    let opening = listing.next::<C, E>(InstalledReply::AppsListed(Ok(replies.app_infos))).0;
    let issuing = opening.next::<C, E>(
        InstalledReply::Session(SessionReply::Authorized(Ok(replies.credentials))),
    ).0;
    let connecting = issuing.next::<C, E>(
        InstalledReply::Session(SessionReply::TokenIssued(Ok(replies.token))),
    ).0;
    connecting.next::<C, E>(
        InstalledReply::Session(SessionReply::Connected(Ok(replies.app_client))),
    ).1
}

/// Installing an app ends with a session that holds the agent's app, the cell that the app has under
/// the role, and the client that was connected.
pub proof fn law_install_opens_session<K, C, E>(
    flow: InstallFlow<K>,
    replies: InstallReplies<K, C>,
    cell_id: CellId,
)
    requires
        flow.step is ConnectingAdmin,
        cell_id_for_role(replies.app_info, flow.role_name@) == Ok::<CellId, RoleError>(cell_id),
    ensures
        install_outcome::<K, C, E>(flow, replies) == Some(
            InstallProgress::<K, C, E>::Finish(
                Ok(
                    Session {
                        installed_app_id: flow.installed_app_id,
                        cell_id,
                        app_client: replies.app_client,
                    },
                ),
            ),
        ),
{
}

/// An installed app can be taken up in place of installing it: where an agent's app is listed as
/// running, with the cells that it had when it was installed, taking it up ends with a session with
/// the same app and the same cell.
pub proof fn law_installed_app_is_a_drop_in<K, C, E>(
    agent_name: Seq<char>,
    install: InstallFlow<K>,
    install_replies: InstallReplies<K, C>,
    taking_up: InstalledFlow<K>,
    replies: InstalledReplies<K, C>,
    cell_id: CellId,
)
    requires
        install.step is ConnectingAdmin,
        install.installed_app_id@ == agent_app_id(agent_name),
        cell_id_for_role(install_replies.app_info, install.role_name@) == Ok::<CellId, RoleError>(
            cell_id,
        ),
        taking_up.step is ConnectingAdmin,
        taking_up.installed_app_id@ == agent_app_id(agent_name),
        taking_up.role_name@ == install.role_name@,
        ({
            let listed = find_app(replies.app_infos@, agent_app_id(agent_name));
            &&& listed is Some
            &&& listed->0.status is Running
            &&& listed->0.cell_info@ == install_replies.app_info.cell_info@
        }),
    ensures
        install_outcome::<K, C, E>(install, install_replies) matches Some(
            Progress::Finish(Ok(installed)),
        ) && installed_outcome::<K, C, E>(taking_up, replies) matches Some(
            Progress::Finish(Ok(taken_up)),
        ) && {
            &&& taken_up.installed_app_id@ == installed.installed_app_id@
            &&& taken_up.cell_id == installed.cell_id
            &&& taken_up.app_client == replies.app_client
        },
{
    law_install_opens_session::<K, C, E>(install, install_replies, cell_id);
}

/// An agent that remembers a session uninstalls the app of that session, unless it is told of
/// another one.
pub proof fn law_last_installed_app_is_uninstalled<C, E>(
    ctx: AgentContext<C>,
    session: Session<C>,
    other: String,
)
    requires
        ctx.holds(session),
    ensures
        app_to_uninstall(None, ctx) == Some(session.installed_app_id),
        app_to_uninstall(Some(other), ctx) == Some(other),
        ({
            let connecting = UninstallFlow::ConnectingAdmin {
                installed_app_id: session.installed_app_id,
            };
            let (uninstalling, first) = connecting.next::<E>(
                UninstallReply::AdminConnected(Ok(())),
            );
            let (_, second) = uninstalling.next::<E>(UninstallReply::AppUninstalled(Ok(())));
            &&& first == Some(
                UninstallProgress::<E>::Ask(
                    UninstallRequest::UninstallApp { installed_app_id: session.installed_app_id },
                ),
            )
            &&& second == Some(UninstallProgress::<E>::Finish(Ok(())))
        }),
{
}

/// A call of a zome function.
pub struct Call {
    pub zome_name: String,
    pub fn_name: String,
    pub payload: Vec<u8>,
}

/// What an agent asks for when it makes a call whose payload has been encoded.
pub open spec fn call_answer<'a, C, O, E>(ctx: &'a AgentContext<C>, call: Call) -> Option<
    ZomeProgress<'a, C, O, E>,
> {
    ZomeFlow::first(ctx, call.zome_name, call.fn_name).next::<O, E>(
        ZomeReply::PayloadEncoded(Ok(call.payload)),
    ).1
}

/// The request for a call on a cell through a client.
pub open spec fn call_request<'a, C>(app_client: &'a C, cell_id: CellId, call: Call) -> ZomeRequest<
    'a,
    C,
> {
    ZomeRequest::CallZome {
        app_client,
        cell_id,
        zome_name: call.zome_name,
        fn_name: call.fn_name,
        payload: call.payload,
    }
}

/// An agent that remembers a session can call zome functions, any number of times, and calls them
/// all on the cell of that session and through its client. A call is begun with the agent's context
/// shared, so that none changes what the agent remembers.
pub proof fn law_session_takes_calls<'a, C, O, E>(
    ctx: &'a AgentContext<C>,
    session: Session<C>,
    calls: Seq<Call>,
)
    requires
        ctx.holds(session),
    ensures
        ctx.cell_id is Some,
        ctx.app_client is Some,
        forall|i: int|
            0 <= i < calls.len() ==> call_answer::<C, O, E>(ctx, #[trigger] calls[i]) == Some(
                ZomeProgress::<C, O, E>::Ask(
                    call_request(&session.app_client, session.cell_id, calls[i]),
                ),
            ),
{
}

/// Once an app is installed, every call goes to the cell that the app has under the role, through
/// the client that was connected when it was installed.
pub proof fn law_installed_app_takes_calls<'a, K, C, O, E>(
    flow: InstallFlow<K>,
    replies: InstallReplies<K, C>,
    cell_id: CellId,
    session: Session<C>,
    ctx: &'a AgentContext<C>,
    calls: Seq<Call>,
)
    requires
        flow.step is ConnectingAdmin,
        cell_id_for_role(replies.app_info, flow.role_name@) == Ok::<CellId, RoleError>(cell_id),
        install_outcome::<K, C, E>(flow, replies) == Some(
            InstallProgress::<K, C, E>::Finish(Ok(session)),
        ),
        ctx.holds(session),
    ensures
        forall|i: int|
            0 <= i < calls.len() ==> call_answer::<C, O, E>(ctx, #[trigger] calls[i]) == Some(
                ZomeProgress::<C, O, E>::Ask(call_request(&replies.app_client, cell_id, calls[i])),
            ),
{
    law_install_opens_session::<K, C, E>(flow, replies, cell_id);
    law_session_takes_calls::<C, O, E>(ctx, session, calls);
}

/// Once an installed app is taken up, every call goes to the cell that the running app has under
/// the role, through the client that was connected when it was taken up.
pub proof fn law_taken_up_app_takes_calls<'a, K, C, O, E>(
    flow: InstalledFlow<K>,
    replies: InstalledReplies<K, C>,
    session: Session<C>,
    ctx: &'a AgentContext<C>,
    calls: Seq<Call>,
)
    requires
        flow.step is ConnectingAdmin,
        installed_outcome::<K, C, E>(flow, replies) == Some(
            InstalledProgress::<K, C, E>::Finish(Ok(session)),
        ),
        ctx.holds(session),
    ensures
        running_cell::<E>(replies.app_infos@, flow.installed_app_id, flow.role_name@) is Ok,
        forall|i: int|
            0 <= i < calls.len() ==> call_answer::<C, O, E>(ctx, #[trigger] calls[i]) == Some(
                ZomeProgress::<C, O, E>::Ask(
                    call_request(
                        &replies.app_client,
                        running_cell::<E>(
                            replies.app_infos@,
                            flow.installed_app_id,
                            flow.role_name@,
                        )->Ok_0,
                        calls[i],
                    ),
                ),
            ),
{
    law_session_takes_calls::<C, O, E>(ctx, session, calls);
}

} // verus!
