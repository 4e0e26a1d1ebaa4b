//! Promises about configuring the app URL, waiting for agents, uninstalling an app and calling a
//! zome function.

use crate::app_url::{checked_app_ws_url, parsed_url, AppUrlError};
use crate::configure::{
    configure_app_ws_url, pick_app_port, AppInterface, ConfigureError, ConfigureFlow,
    ConfigureProgress, ConfigureReply, ConfigureRequest, ConfigureStep,
};
use crate::context::{AgentContext, RunnerContext, Session};
use crate::discovery::{
    try_wait_for_min_agents, WaitError, WaitFlow, WaitProgress, WaitReply, WaitRequest, WaitStep,
};
use crate::progress::Progress;
use crate::promises::urls::{
    can_carry_port, is_too_long, is_url_on_port, lemma_farthest_offset, lemma_shown_port,
};
use crate::uninstall::{
    uninstall_app, UninstallError, UninstallFlow, UninstallProgress, UninstallReply,
    UninstallRequest,
};
use crate::zome::{
    call_zome, ZomeError, ZomeFlow, ZomeProgress, ZomeReply, ZomeRequest, ZomeStep,
};
use vstd::prelude::*;

verus! {

/// What a call of [`configure_app_ws_url`] gives.
pub type ConfigureAnswer<E> = (ConfigureFlow, Option<ConfigureProgress<E>>);

/// What a call of [`try_wait_for_min_agents`] gives.
pub type WaitAnswer<E> = (WaitFlow, Option<WaitProgress<E>>);

/// What a call of [`uninstall_app`] gives.
pub type UninstallAnswer<E> = (UninstallFlow, Option<UninstallProgress<E>>);

/// What a call of [`call_zome`] gives.
pub type ZomeAnswer<'a, C, O, E> = (ZomeFlow<'a, C>, Option<ZomeProgress<'a, C, O, E>>);

/// What configuring gives once it knows the app port: the admin URL on that port, the reason why
/// there is none, or that the admin URL is too long.
pub open spec fn ends_on_port<E>(
    admin_ws_url: Seq<char>,
    port: u16,
    progress: Option<ConfigureProgress<E>>,
) -> bool {
    &&& progress matches Some(Progress::Finish(outcome))
    &&& is_too_long(admin_ws_url, port) <==> outcome == Err::<String, ConfigureError<E>>(
        ConfigureError::AdminUrlTooLong,
    )
    &&& !is_too_long(admin_ws_url, port) ==> match parsed_url(admin_ws_url) {
        Ok(pieces) => if can_carry_port(pieces) {
            outcome is Ok && is_url_on_port(outcome->Ok_0@, pieces, port)
        } else {
            outcome == Err::<String, ConfigureError<E>>(
                ConfigureError::AppUrl(AppUrlError::PortRefused),
            )
        },
        Err(error) => outcome == Err::<String, ConfigureError<E>>(
            ConfigureError::AppUrl(AppUrlError::Parse(error)),
        ),
    }
}

/// Of the app interfaces that are listed, the first one's port is picked, and none only where none
/// is listed.
pub proof fn law_first_listed_port_is_picked(interfaces: &Vec<AppInterface>, port: Option<u16>)
    requires
        call_ensures(pick_app_port, (interfaces,), port),
    ensures
        port is None <==> interfaces@.len() == 0,
        interfaces@.len() > 0 ==> port == Some(interfaces@[0].port),
{
}

/// Configuring begins by connecting to the runner's admin interface, whose URL it will change.
pub proof fn law_configuring_begins(runner: &RunnerContext, res: (ConfigureFlow, ConfigureRequest))
    requires
        call_ensures(ConfigureFlow::begin, (runner,), res),
    ensures
        res.0.admin_ws_url == runner.connection_string,
        res.0.step is ConnectingAdmin,
        res.1 matches ConfigureRequest::ConnectAdmin { admin_ws_url } && admin_ws_url
            == runner.connection_string,
{
}

/// Configuring never changes its mind about the admin URL.
pub proof fn law_configuring_keeps_its_url<E>(
    flow: ConfigureFlow,
    reply: ConfigureReply<E>,
    res: ConfigureAnswer<E>,
)
    requires
        call_ensures(configure_app_ws_url::<E>, (flow, reply), res),
    ensures
        res.0.admin_ws_url == flow.admin_ws_url,
{
}

/// Once connected, the app interfaces are listed.
pub proof fn law_interfaces_are_listed<E>(flow: ConfigureFlow, res: ConfigureAnswer<E>)
    requires
        flow.step is ConnectingAdmin,
        call_ensures(
            configure_app_ws_url::<E>,
            (flow, ConfigureReply::<E>::AdminConnected(Ok(()))),
            res,
        ),
    ensures
        res.0.step is ListingInterfaces,
        res.1 matches Some(Progress::Ask(ConfigureRequest::ListAppInterfaces)),
{
}

/// Where interfaces are listed, configuring ends on the port of the first.
pub proof fn law_configuring_ends_on_the_listed_port<E>(
    flow: ConfigureFlow,
    interfaces: Vec<AppInterface>,
    res: ConfigureAnswer<E>,
)
    requires
        flow.step is ListingInterfaces,
        interfaces@.len() > 0,
        call_ensures(
            configure_app_ws_url::<E>,
            (flow, ConfigureReply::<E>::InterfacesListed(Ok(interfaces))),
            res,
        ),
    ensures
        res.0.step is Finished,
        ends_on_port(flow.admin_ws_url@, interfaces@[0].port, res.1),
{
    lemma_ends_on_port(flow.admin_ws_url@, interfaces@[0].port, res.1);
}

/// Where no interface is listed, one is attached that is open to every client and every app, on a
/// port that the conductor picks.
pub proof fn law_interface_is_attached_where_none_is_listed<E>(
    flow: ConfigureFlow,
    interfaces: Vec<AppInterface>,
    res: ConfigureAnswer<E>,
)
    requires
        flow.step is ListingInterfaces,
        interfaces@.len() == 0,
        call_ensures(
            configure_app_ws_url::<E>,
            (flow, ConfigureReply::<E>::InterfacesListed(Ok(interfaces))),
            res,
        ),
    ensures
        res.0.step is AttachingInterface,
        res.1 matches Some(Progress::Ask(ConfigureRequest::AttachAppInterface(interface))) && {
            &&& interface.port == 0
            &&& interface.allowed_origins is Any
            &&& interface.installed_app_id is None
        },
{
}

/// Where an interface was attached, configuring ends on the port that the conductor picked.
pub proof fn law_configuring_ends_on_the_attached_port<E>(
    flow: ConfigureFlow,
    port: u16,
    res: ConfigureAnswer<E>,
)
    requires
        flow.step is AttachingInterface,
        call_ensures(
            configure_app_ws_url::<E>,
            (flow, ConfigureReply::<E>::InterfaceAttached(Ok(port))),
            res,
        ),
    ensures
        res.0.step is Finished,
        ends_on_port(flow.admin_ws_url@, port, res.1),
{
    lemma_ends_on_port(flow.admin_ws_url@, port, res.1);
}

/// The URL that configuring ends with is the one that is derived for the port, however the port
/// was found.
pub proof fn law_configured_url_is_the_derived_one<E>(
    flow: ConfigureFlow,
    admin_ws_url: &str,
    port: u16,
    derived: Option<Result<String, AppUrlError>>,
    res: ConfigureAnswer<E>,
)
    requires
        flow.step is AttachingInterface,
        admin_ws_url@ == flow.admin_ws_url@,
        call_ensures(checked_app_ws_url, (admin_ws_url, port), derived),
        call_ensures(
            configure_app_ws_url::<E>,
            (flow, ConfigureReply::<E>::InterfaceAttached(Ok(port))),
            res,
        ),
    ensures
        res.1 matches Some(Progress::Finish(outcome)) && {
            &&& outcome is Ok <==> derived is Some && derived->0 is Ok
            &&& outcome is Ok ==> outcome->Ok_0@ == derived->0->Ok_0@
        },
{
}

proof fn lemma_ends_on_port<E>(
    admin_ws_url: Seq<char>,
    port: u16,
    progress: Option<ConfigureProgress<E>>,
)
    requires
        progress matches Some(Progress::Finish(outcome)) && crate::configure::is_configured(
            admin_ws_url,
            port,
            outcome,
        ),
    ensures
        ends_on_port(admin_ws_url, port, progress),
{
    if let Ok(pieces) = parsed_url(admin_ws_url) {
        lemma_shown_port(pieces, port);
        lemma_farthest_offset(pieces, port);
    }
}

/// Where a request fails, configuring ends with that failure.
pub proof fn law_configuring_fails_with_its_request<E>(
    flow: ConfigureFlow,
    reply: ConfigureReply<E>,
    error: E,
    res: ConfigureAnswer<E>,
)
    requires
        call_ensures(configure_app_ws_url::<E>, (flow, reply), res),
        match flow.step {
            ConfigureStep::ConnectingAdmin => reply == ConfigureReply::<E>::AdminConnected(
                Err(error),
            ),
            ConfigureStep::ListingInterfaces => reply == ConfigureReply::<E>::InterfacesListed(
                Err(error),
            ),
            ConfigureStep::AttachingInterface => reply == ConfigureReply::<E>::InterfaceAttached(
                Err(error),
            ),
            ConfigureStep::Finished => false,
        },
    ensures
        res.0.step is Finished,
        res.1 matches Some(Progress::Finish(Err(failed))) && {
            &&& flow.step is ConnectingAdmin ==> failed == ConfigureError::ConnectAdmin(error)
            &&& flow.step is ListingInterfaces ==> failed == ConfigureError::ListAppInterfaces(error)
            &&& flow.step is AttachingInterface ==> failed == ConfigureError::AttachAppInterface(
                error,
            )
        },
{
}

/// A reply that configuring does not wait for leaves it as it is and is not answered.
pub proof fn law_configuring_ignores_other_replies<E>(
    flow: ConfigureFlow,
    reply: ConfigureReply<E>,
    res: ConfigureAnswer<E>,
)
    requires
        call_ensures(configure_app_ws_url::<E>, (flow, reply), res),
        flow.step is ConnectingAdmin ==> !(reply is AdminConnected),
        flow.step is ListingInterfaces ==> !(reply is InterfacesListed),
        flow.step is AttachingInterface ==> !(reply is InterfaceAttached),
    ensures
        res.0 == flow,
        res.1 is None,
{
}

/// Waiting begins by connecting to the runner's admin interface, for as many agents as wanted and
/// with one question to ask for each second that it may take.
pub proof fn law_waiting_begins(
    runner: &RunnerContext,
    min_agents: usize,
    wait_for: u64,
    res: (WaitFlow, WaitRequest),
)
    requires
        call_ensures(WaitFlow::begin, (runner, min_agents, wait_for), res),
    ensures
        res.0.min_agents == min_agents,
        res.0.step matches WaitStep::ConnectingAdmin { polls } && polls == wait_for,
        res.1 matches WaitRequest::ConnectAdmin { admin_ws_url } && admin_ws_url
            == runner.connection_string,
{
}

/// Waiting never changes its mind about how many agents are wanted.
pub proof fn law_waiting_keeps_its_aim<E>(flow: WaitFlow, reply: WaitReply<E>, res: WaitAnswer<E>)
    requires
        call_ensures(try_wait_for_min_agents::<E>, (flow, reply), res),
    ensures
        res.0.min_agents == flow.min_agents,
{
}

/// While questions are left, the agents of every cell are asked for, first once connected and then
/// after each second slept; with none left, waiting is over without an error.
pub proof fn law_waiting_asks_while_it_may<E>(
    flow: WaitFlow,
    reply: WaitReply<E>,
    left: int,
    res: WaitAnswer<E>,
)
    requires
        call_ensures(try_wait_for_min_agents::<E>, (flow, reply), res),
        match flow.step {
            WaitStep::ConnectingAdmin { polls } => reply == WaitReply::<E>::AdminConnected(Ok(()))
                && left == polls,
            WaitStep::Sleeping { polls } => reply is Slept && left == (if polls > 0 {
                polls - 1
            } else {
                0
            }),
            _ => false,
        },
    ensures
        left > 0 ==> (res.0.step matches WaitStep::ListingAgents { polls } && polls == left),
        left > 0 ==> (res.1 matches Some(Progress::Ask(WaitRequest::ListAgents { cell_id }))
            && cell_id is None),
        left == 0 ==> res.0.step is Finished,
        left == 0 ==> (res.1 matches Some(Progress::Finish(Ok(_)))),
{
}

/// Enough agents end the waiting, and too few are waited for another second.
pub proof fn law_waiting_is_for_enough_agents<E>(
    flow: WaitFlow,
    left: u64,
    agents: usize,
    res: WaitAnswer<E>,
)
    requires
        flow.step == (WaitStep::ListingAgents { polls: left }),
        call_ensures(
            try_wait_for_min_agents::<E>,
            (flow, WaitReply::<E>::AgentsListed(Ok(agents))),
            res,
        ),
    ensures
        agents >= flow.min_agents ==> res.0.step is Finished,
        agents >= flow.min_agents ==> (res.1 matches Some(Progress::Finish(Ok(_)))),
        agents < flow.min_agents ==> (res.0.step matches WaitStep::Sleeping { polls } && polls
            == left),
        agents < flow.min_agents ==> (res.1 matches Some(
            Progress::Ask(WaitRequest::Sleep { seconds }),
        ) && seconds == 1),
{
}

/// Where a request fails, waiting ends with that failure.
pub proof fn law_waiting_fails_with_its_request<E>(
    flow: WaitFlow,
    reply: WaitReply<E>,
    error: E,
    res: WaitAnswer<E>,
)
    requires
        call_ensures(try_wait_for_min_agents::<E>, (flow, reply), res),
        match flow.step {
            WaitStep::ConnectingAdmin { polls: _ } => reply == WaitReply::<E>::AdminConnected(
                Err(error),
            ),
            WaitStep::ListingAgents { polls: _ } => reply == WaitReply::<E>::AgentsListed(
                Err(error),
            ),
            _ => false,
        },
    ensures
        res.0.step is Finished,
        res.1 matches Some(Progress::Finish(Err(failed))) && {
            &&& flow.step is ConnectingAdmin ==> failed == WaitError::ConnectAdmin(error)
            &&& flow.step is ListingAgents ==> failed == WaitError::ListAgents(error)
        },
{
}

/// A reply that waiting does not wait for leaves it as it is and is not answered.
pub proof fn law_waiting_ignores_other_replies<E>(
    flow: WaitFlow,
    reply: WaitReply<E>,
    res: WaitAnswer<E>,
)
    requires
        call_ensures(try_wait_for_min_agents::<E>, (flow, reply), res),
        flow.step is ConnectingAdmin ==> !(reply is AdminConnected),
        flow.step is ListingAgents ==> !(reply is AgentsListed),
        flow.step is Sleeping ==> !(reply is Slept),
    ensures
        res.0 == flow,
        res.1 is None,
{
}

/// An app that is named is uninstalled, whatever the agent remembers.
pub proof fn law_named_app_is_uninstalled<C, E>(
    runner: &RunnerContext,
    ctx: &AgentContext<C>,
    named: String,
    res: (UninstallFlow, UninstallProgress<E>),
)
    requires
        call_ensures(UninstallFlow::begin::<C, E>, (runner, ctx, Some(named)), res),
    ensures
        res.0 matches UninstallFlow::ConnectingAdmin { installed_app_id } && installed_app_id
            == named,
        res.1 matches Progress::Ask(UninstallRequest::ConnectAdmin { admin_ws_url }) && admin_ws_url
            == runner.connection_string,
{
}

/// Where none is named, the app that the agent remembers is uninstalled; and where it remembers
/// none, there is nothing to do.
pub proof fn law_remembered_app_is_uninstalled<C, E>(
    runner: &RunnerContext,
    ctx: &AgentContext<C>,
    res: (UninstallFlow, UninstallProgress<E>),
)
    requires
        call_ensures(UninstallFlow::begin::<C, E>, (runner, ctx, None::<String>), res),
    ensures
        ctx.installed_app_id is Some ==> (res.0 matches UninstallFlow::ConnectingAdmin {
            installed_app_id,
        } && installed_app_id == ctx.installed_app_id->0),
        ctx.installed_app_id is Some ==> (res.1 matches Progress::Ask(
            UninstallRequest::ConnectAdmin { admin_ws_url },
        ) && admin_ws_url == runner.connection_string),
        ctx.installed_app_id is None ==> res.0 is Finished,
        ctx.installed_app_id is None ==> (res.1 matches Progress::Finish(Ok(_))),
{
}

/// Once connected, the very app with which uninstalling began is uninstalled; once that is done,
/// uninstalling is over.
pub proof fn law_uninstalling_goes_on<E>(
    app: String,
    first: UninstallAnswer<E>,
    second: UninstallAnswer<E>,
)
    requires
        call_ensures(
            uninstall_app::<E>,
            (
                UninstallFlow::ConnectingAdmin { installed_app_id: app },
                UninstallReply::<E>::AdminConnected(Ok(())),
            ),
            first,
        ),
        call_ensures(
            uninstall_app::<E>,
            (first.0, UninstallReply::<E>::AppUninstalled(Ok(()))),
            second,
        ),
    ensures
        first.0 is Uninstalling,
        first.1 matches Some(Progress::Ask(UninstallRequest::UninstallApp { installed_app_id }))
            && installed_app_id == app,
        second.0 is Finished,
        second.1 matches Some(Progress::Finish(Ok(_))),
{
}

/// Where a request fails, uninstalling ends with that failure.
pub proof fn law_uninstalling_fails_with_its_request<E>(
    flow: UninstallFlow,
    reply: UninstallReply<E>,
    error: E,
    res: UninstallAnswer<E>,
)
    requires
        call_ensures(uninstall_app::<E>, (flow, reply), res),
        match flow {
            UninstallFlow::ConnectingAdmin { installed_app_id: _ } => reply
                == UninstallReply::<E>::AdminConnected(Err(error)),
            UninstallFlow::Uninstalling => reply == UninstallReply::<E>::AppUninstalled(Err(error)),
            UninstallFlow::Finished => false,
        },
    ensures
        res.0 is Finished,
        res.1 matches Some(Progress::Finish(Err(failed))) && {
            &&& flow is ConnectingAdmin ==> failed == UninstallError::ConnectAdmin(error)
            &&& flow is Uninstalling ==> failed == UninstallError::UninstallApp(error)
        },
{
}

/// A reply that uninstalling does not wait for leaves it as it is and is not answered.
pub proof fn law_uninstalling_ignores_other_replies<E>(
    flow: UninstallFlow,
    reply: UninstallReply<E>,
    res: UninstallAnswer<E>,
)
    requires
        call_ensures(uninstall_app::<E>, (flow, reply), res),
        flow is ConnectingAdmin ==> !(reply is AdminConnected),
        flow is Uninstalling ==> !(reply is AppUninstalled),
    ensures
        res.0 == flow,
        res.1 is None,
{
}

/// A call begins with the cell and the client that the agent remembers, and with the names given.
pub proof fn law_call_begins<'a, C>(
    ctx: &'a AgentContext<C>,
    zome_name: String,
    fn_name: String,
    res: (ZomeFlow<'a, C>, ZomeRequest<'a, C>),
)
    requires
        ctx.cell_id is Some,
        ctx.app_client is Some,
        call_ensures(ZomeFlow::<'a, C>::begin, (ctx, zome_name, fn_name), res),
    ensures
        Some(*res.0.app_client) == ctx.app_client,
        Some(res.0.cell_id) == ctx.cell_id,
        res.0.zome_name == zome_name,
        res.0.fn_name == fn_name,
        res.0.step is Encoding,
        res.1 is EncodePayload,
{
}

/// The payload as it was encoded goes to the named function on the flow's cell, through its client.
pub proof fn law_encoded_payload_is_sent<'a, C, O, E>(
    flow: ZomeFlow<'a, C>,
    encoded: Vec<u8>,
    res: ZomeAnswer<'a, C, O, E>,
)
    requires
        flow.step is Encoding,
        call_ensures(
            call_zome::<C, O, E>,
            (flow, ZomeReply::<O, E>::PayloadEncoded(Ok(encoded))),
            res,
        ),
    ensures
        res.0.step is Calling,
        res.1 matches Some(
            Progress::Ask(
                ZomeRequest::CallZome { app_client, cell_id, zome_name, fn_name, payload },
            ),
        ) && {
            &&& *app_client == *flow.app_client
            &&& cell_id == flow.cell_id
            &&& zome_name == flow.zome_name
            &&& fn_name == flow.fn_name
            &&& payload == encoded
        },
{
}

/// The response as it came is decoded.
pub proof fn law_response_is_decoded<'a, C, O, E>(
    flow: ZomeFlow<'a, C>,
    came: Vec<u8>,
    res: ZomeAnswer<'a, C, O, E>,
)
    requires
        flow.step is Calling,
        call_ensures(
            call_zome::<C, O, E>,
            (flow, ZomeReply::<O, E>::ZomeCalled(Ok(came))),
            res,
        ),
    ensures
        res.0.step is Decoding,
        res.1 matches Some(Progress::Ask(ZomeRequest::DecodeResponse { response })) && response
            == came,
{
}

/// What was decoded is what the call gives.
pub proof fn law_decoded_response_is_given<'a, C, O, E>(
    flow: ZomeFlow<'a, C>,
    decoded: O,
    res: ZomeAnswer<'a, C, O, E>,
)
    requires
        flow.step is Decoding,
        call_ensures(
            call_zome::<C, O, E>,
            (flow, ZomeReply::<O, E>::ResponseDecoded(Ok(decoded))),
            res,
        ),
    ensures
        res.0.step is Finished,
        res.1 matches Some(Progress::Finish(Ok(output))) && output == decoded,
{
}

/// A call never changes its mind about its client, its cell and the function.
pub proof fn law_call_keeps_its_aim<'a, C, O, E>(
    flow: ZomeFlow<'a, C>,
    reply: ZomeReply<O, E>,
    res: ZomeAnswer<'a, C, O, E>,
)
    requires
        call_ensures(call_zome::<C, O, E>, (flow, reply), res),
    ensures
        *res.0.app_client == *flow.app_client,
        res.0.cell_id == flow.cell_id,
        res.0.zome_name == flow.zome_name,
        res.0.fn_name == flow.fn_name,
{
}

/// Where a request fails, the call ends with that failure.
pub proof fn law_call_fails_with_its_request<'a, C, O, E>(
    flow: ZomeFlow<'a, C>,
    reply: ZomeReply<O, E>,
    error: E,
    res: ZomeAnswer<'a, C, O, E>,
)
    requires
        call_ensures(call_zome::<C, O, E>, (flow, reply), res),
        match flow.step {
            ZomeStep::Encoding => reply == ZomeReply::<O, E>::PayloadEncoded(Err(error)),
            ZomeStep::Calling => reply == ZomeReply::<O, E>::ZomeCalled(Err(error)),
            ZomeStep::Decoding => reply == ZomeReply::<O, E>::ResponseDecoded(Err(error)),
            ZomeStep::Finished => false,
        },
    ensures
        res.0.step is Finished,
        res.1 matches Some(Progress::Finish(Err(failed))) && {
            &&& flow.step is Encoding ==> failed == ZomeError::EncodePayload(error)
            &&& flow.step is Calling ==> failed == ZomeError::CallZome(error)
            &&& flow.step is Decoding ==> failed == ZomeError::DecodeResponse(error)
        },
{
}

/// A reply that a call does not wait for leaves it as it is and is not answered.
pub proof fn law_call_ignores_other_replies<'a, C, O, E>(
    flow: ZomeFlow<'a, C>,
    reply: ZomeReply<O, E>,
    res: ZomeAnswer<'a, C, O, E>,
)
    requires
        call_ensures(call_zome::<C, O, E>, (flow, reply), res),
        flow.step is Encoding ==> !(reply is PayloadEncoded),
        flow.step is Calling ==> !(reply is ZomeCalled),
        flow.step is Decoding ==> !(reply is ResponseDecoded),
    ensures
        res.0 == flow,
        res.1 is None,
{
}

/// A new agent has a name, and no app, no cell and no client.
pub proof fn law_new_agent_remembers_nothing<C>(agent_name: String, ctx: AgentContext<C>)
    requires
        call_ensures(AgentContext::<C>::new, (agent_name,), ctx),
    ensures
        ctx.agent_name == agent_name,
        ctx.installed_app_id is None,
        ctx.cell_id is None,
        ctx.app_client is None,
{
}

/// A new run has the admin interface and the id given, and no app URL.
pub proof fn law_new_run_has_no_app_url(
    connection_string: String,
    run_id: String,
    runner: RunnerContext,
)
    requires
        call_ensures(RunnerContext::new, (connection_string, run_id), runner),
    ensures
        runner.connection_string == connection_string,
        runner.run_id == run_id,
        runner.app_ws_url is None,
{
}

/// An agent that holds a session has its app, its cell and its client, and so holds no other.
pub proof fn law_agent_holds_one_session<C>(
    ctx: AgentContext<C>,
    session: Session<C>,
    other: Session<C>,
)
    requires
        ctx.holds(session),
    ensures
        ctx.installed_app_id == Some(session.installed_app_id),
        ctx.cell_id == Some(session.cell_id),
        ctx.app_client == Some(session.app_client),
        ctx.holds(other) <==> other == session,
{
}

/// A session that was opened is what an agent remembers from then on: its app, its cell and its
/// client. Where none was opened, it remembers what it did, and the reason is handed on. Its name
/// stays in any case.
pub proof fn law_opened_session_is_remembered<C, X>(
    opened: Result<Session<C>, X>,
    recorded: Result<(), X>,
)
    ensures
        forall|ctx: &mut AgentContext<C>| #[trigger]
            call_ensures(AgentContext::<C>::record::<X>, (ctx, opened), recorded) ==> {
                &&& final(ctx).agent_name == ctx.agent_name
                &&& opened is Ok ==> recorded is Ok
                &&& opened is Ok ==> final(ctx).installed_app_id == Some(
                    opened->Ok_0.installed_app_id,
                )
                &&& opened is Ok ==> final(ctx).cell_id == Some(opened->Ok_0.cell_id)
                &&& opened is Ok ==> final(ctx).app_client == Some(opened->Ok_0.app_client)
                &&& opened is Err ==> recorded is Err && recorded->Err_0 == opened->Err_0
                &&& opened is Err ==> *final(ctx) == *ctx
            },
{
}

/// An app URL that was configured is what a runner has from then on. Where none was configured, it
/// has what it had, and the reason is handed on. Its admin interface and its run stay in any case.
pub proof fn law_configured_url_is_remembered<X>(
    configured: Result<String, X>,
    recorded: Result<(), X>,
)
    ensures
        forall|ctx: &mut RunnerContext| #[trigger]
            call_ensures(RunnerContext::record::<X>, (ctx, configured), recorded) ==> {
                &&& final(ctx).connection_string == ctx.connection_string
                &&& final(ctx).run_id == ctx.run_id
                &&& configured is Ok ==> recorded is Ok
                &&& configured is Ok ==> final(ctx).app_ws_url == Some(configured->Ok_0)
                &&& configured is Err ==> recorded is Err && recorded->Err_0 == configured->Err_0
                &&& configured is Err ==> final(ctx).app_ws_url == ctx.app_ws_url
            },
{
}

} // verus!
