use holochain_runner::context::{AgentContext, RunnerContext, Session};
use holochain_runner::keys::{AgentPubKey, CellId, DnaHash};
use holochain_runner::progress::Progress;
use holochain_runner::uninstall::{
    uninstall_app, UninstallError, UninstallFlow, UninstallProgress, UninstallReply,
    UninstallRequest,
};
use holochain_runner::zome::{
    call_zome, ZomeError, ZomeFlow, ZomeReply, ZomeRequest, ZomeStep,
};

const CELL: CellId = CellId {
    dna_hash: DnaHash { raw: [1; 39] },
    agent_pubkey: AgentPubKey { raw: [2; 39] },
};

fn agent_with_session() -> AgentContext<u8> {
    let mut ctx = AgentContext::new("alice".to_string());
    ctx.record(Ok::<_, ()>(Session {
        installed_app_id: "alice-app".to_string(),
        cell_id: CELL,
        app_client: 1,
    }))
    .unwrap();
    ctx
}

fn begin_uninstall(
    ctx: &AgentContext<u8>,
    installed_app_id: Option<&str>,
) -> (UninstallFlow, UninstallProgress<&'static str>) {
    let runner = RunnerContext::new("ws://localhost:8888".to_string(), "run".to_string());
    UninstallFlow::begin(&runner, ctx, installed_app_id.map(str::to_string))
}

fn begin_call(ctx: &AgentContext<u8>) -> ZomeFlow<'_, u8> {
    let (flow, request) = ZomeFlow::begin(ctx, "crud".to_string(), "create".to_string());
    assert_eq!(request, ZomeRequest::EncodePayload);
    flow
}

#[test]
fn uninstalls_the_app_of_the_session() {
    let (flow, progress) = begin_uninstall(&agent_with_session(), None);
    assert_eq!(
        progress,
        Progress::Ask(UninstallRequest::ConnectAdmin {
            admin_ws_url: "ws://localhost:8888".to_string()
        })
    );
    let (flow, progress) = uninstall_app::<&str>(flow, UninstallReply::AdminConnected(Ok(())));
    assert_eq!(
        progress,
        Some(Progress::Ask(UninstallRequest::UninstallApp {
            installed_app_id: "alice-app".to_string()
        }))
    );
    let (flow, progress) = uninstall_app::<&str>(flow, UninstallReply::AppUninstalled(Ok(())));
    assert_eq!(progress, Some(Progress::Finish(Ok(()))));
    assert_eq!(flow, UninstallFlow::Finished);
}

#[test]
fn uninstalls_the_app_it_is_told_of() {
    let (flow, _) = begin_uninstall(&agent_with_session(), Some("other-app"));
    assert_eq!(
        flow,
        UninstallFlow::ConnectingAdmin { installed_app_id: "other-app".to_string() }
    );
}

#[test]
fn uninstalls_nothing_where_there_is_nothing_to_uninstall() {
    let (flow, progress) = begin_uninstall(&AgentContext::new("alice".to_string()), None);
    assert_eq!(flow, UninstallFlow::Finished);
    assert_eq!(progress, Progress::Finish(Ok(())));
}

#[test]
fn uninstalling_fails_as_its_requests_do() {
    let (flow, _) = begin_uninstall(&agent_with_session(), None);
    let (flow, progress) = uninstall_app(flow, UninstallReply::AdminConnected(Err("down")));
    assert_eq!(progress, Some(Progress::Finish(Err(UninstallError::ConnectAdmin("down")))));
    assert_eq!(flow, UninstallFlow::Finished);
    let (flow, progress) =
        uninstall_app(UninstallFlow::Uninstalling, UninstallReply::AppUninstalled(Err("no")));
    assert_eq!(progress, Some(Progress::Finish(Err(UninstallError::UninstallApp("no")))));
    assert_eq!(flow, UninstallFlow::Finished);
}

#[test]
fn replies_out_of_turn_are_ignored_while_uninstalling() {
    assert_eq!(
        uninstall_app::<u8>(UninstallFlow::Uninstalling, UninstallReply::AdminConnected(Ok(()))),
        (UninstallFlow::Uninstalling, None)
    );
    assert_eq!(
        uninstall_app::<u8>(UninstallFlow::Finished, UninstallReply::AppUninstalled(Ok(()))),
        (UninstallFlow::Finished, None)
    );
}

#[test]
fn calls_a_zome_function_on_the_cell_of_the_session() {
    let ctx = agent_with_session();
    let (flow, progress) =
        call_zome::<u8, i32, &str>(begin_call(&ctx), ZomeReply::PayloadEncoded(Ok(vec![1, 2])));
    assert_eq!(
        progress,
        Some(Progress::Ask(ZomeRequest::CallZome {
            app_client: &1,
            cell_id: CELL,
            zome_name: "crud".to_string(),
            fn_name: "create".to_string(),
            payload: vec![1, 2],
        }))
    );
    let (flow, progress) = call_zome::<u8, i32, &str>(flow, ZomeReply::ZomeCalled(Ok(vec![3])));
    assert_eq!(progress, Some(Progress::Ask(ZomeRequest::DecodeResponse { response: vec![3] })));
    let (flow, progress) = call_zome::<u8, i32, &str>(flow, ZomeReply::ResponseDecoded(Ok(42)));
    assert_eq!(progress, Some(Progress::Finish(Ok(42))));
    assert_eq!(flow.step, ZomeStep::Finished);
}

#[test]
fn every_call_goes_through_the_client_of_the_session() {
    let ctx = agent_with_session();
    for payload in [vec![], vec![7], vec![8, 9]] {
        let encoded = ZomeReply::PayloadEncoded(Ok(payload.clone()));
        let (_, progress) = call_zome::<u8, i32, &str>(begin_call(&ctx), encoded);
        match progress {
            Some(Progress::Ask(ZomeRequest::CallZome { app_client, cell_id, payload: sent, .. })) => {
                assert_eq!((*app_client, cell_id, sent), (1, CELL, payload));
            }
            other => panic!("{:?}", other),
        }
    }
    assert_eq!(ctx, agent_with_session());
}

#[test]
fn calling_fails_as_its_requests_do() {
    let failures = vec![
        (ZomeStep::Encoding, ZomeReply::PayloadEncoded(Err("e")), ZomeError::EncodePayload("e")),
        (ZomeStep::Calling, ZomeReply::ZomeCalled(Err("c")), ZomeError::CallZome("c")),
        (ZomeStep::Decoding, ZomeReply::ResponseDecoded(Err("d")), ZomeError::DecodeResponse("d")),
    ];
    let ctx = agent_with_session();
    for (step, reply, error) in failures {
        let flow = ZomeFlow { step, ..begin_call(&ctx) };
        let (flow, progress) = call_zome::<u8, i32, &str>(flow, reply);
        assert_eq!(progress, Some(Progress::Finish(Err(error))));
        assert_eq!(flow.step, ZomeStep::Finished);
    }
}

#[test]
fn replies_out_of_turn_are_ignored_while_calling() {
    let ctx = agent_with_session();
    let (flow, progress) =
        call_zome::<u8, i32, &str>(begin_call(&ctx), ZomeReply::ResponseDecoded(Ok(1)));
    assert_eq!(progress, None);
    assert_eq!(flow, begin_call(&ctx));
}
