use holochain_runner::context::{AgentContext, RunnerContext};
use holochain_runner::keys::{AgentPubKey, CellId, DnaHash};
use holochain_runner::peers::{
    agent_keys, get_peer_list_randomized, randomized_peers, without_own_key, InvalidAgentInfo,
    PeersError, PeersFlow, PeersReply, PeersRequest, PeersStep,
};
use holochain_runner::progress::Progress;
use kitsune2_api::LocalAgent;

fn local_agent(seed: u8) -> kitsune2_core::Ed25519LocalAgent {
    kitsune2_core::Ed25519LocalAgent::from_seed(&[seed; 32])
}

fn signed_info(seed: u8) -> String {
    let agent = local_agent(seed);
    let info = kitsune2_api::AgentInfo {
        agent: agent.agent().clone(),
        space: kitsune2_api::SpaceId(kitsune2_api::Id(vec![9u8; 32].into())),
        created_at: kitsune2_api::Timestamp::from_micros(1),
        expires_at: kitsune2_api::Timestamp::from_micros(2),
        is_tombstone: false,
        url: None,
        storage_arc: kitsune2_api::DhtArc::Empty,
    };
    let runtime = tokio::runtime::Builder::new_current_thread().build().unwrap();
    let signed = runtime.block_on(kitsune2_api::AgentInfoSigned::sign(&agent, info)).unwrap();
    signed.encode().unwrap()
}

fn key(seed: u8) -> AgentPubKey {
    let key = holo_hash::AgentPubKey::from_k2_agent(local_agent(seed).agent());
    AgentPubKey { raw: key.get_raw_39().try_into().unwrap() }
}

fn cell_of(seed: u8) -> CellId {
    CellId { dna_hash: DnaHash { raw: [0; 39] }, agent_pubkey: key(seed) }
}

fn error_text(error: InvalidAgentInfo) -> String {
    match error {
        InvalidAgentInfo::Decode(error) => error.to_string(),
        InvalidAgentInfo::TooLong => panic!("too long"),
    }
}

fn sorted(keys: &[AgentPubKey]) -> Vec<[u8; 39]> {
    let mut raw: Vec<[u8; 39]> = keys.iter().map(|key| key.raw).collect();
    raw.sort();
    raw
}

#[test]
fn reads_keys_off_signed_information() {
    let keys = agent_keys(&vec![signed_info(1), signed_info(2)]).unwrap();
    assert_eq!(keys, vec![key(1), key(2)]);
    let raw = keys[0].raw;
    let agent = local_agent(1);
    let id: &[u8] = &agent.agent().0 .0;
    assert_eq!(&raw[..3], &[0x84, 0x20, 0x24]);
    assert_eq!(&raw[3..35], id);
    assert_eq!(&raw[35..], &holo_hash::encode::holo_dht_location_bytes(id)[..]);
}

#[test]
fn rejects_information_that_is_malformed() {
    let error = agent_keys(&vec![signed_info(1), "{}".to_string()]).unwrap_err();
    assert!(error_text(error).contains("decoding agent_info"));
    assert!(agent_keys(&vec!["".to_string()]).is_err());
}

#[test]
fn rejects_information_signed_by_another_agent() {
    let a = signed_info(1);
    let b = signed_info(2);
    let start = a.find("\"signature\"").unwrap();
    let start_b = b.find("\"signature\"").unwrap();
    let forged = format!("{}{}", &a[..start], &b[start_b..]);
    let error = agent_keys(&vec![forged]).unwrap_err();
    assert!(error_text(error).contains("InvalidSignature"));
}

#[test]
fn the_first_invalid_piece_of_information_says_why() {
    let a = signed_info(1);
    let b = signed_info(2);
    let forged = format!(
        "{}{}",
        &a[..a.find("\"signature\"").unwrap()],
        &b[b.find("\"signature\"").unwrap()..]
    );
    let malformed = "{}".to_string();
    let why = |infos: Vec<String>| error_text(randomized_peers(&infos, &key(9)).unwrap_err());
    let first = why(vec![a.clone(), malformed.clone(), forged.clone()]);
    assert!(first.contains("decoding agent_info"));
    let first = why(vec![a, forged, malformed]);
    assert!(first.contains("InvalidSignature"));
}

#[test]
fn one_invalid_piece_of_information_spoils_the_list() {
    assert!(randomized_peers(&vec![signed_info(1), "x".to_string(), signed_info(2)], &key(3)).is_err());
    assert!(randomized_peers(&vec![], &key(3)).unwrap().is_empty());
}

#[test]
fn leaves_out_the_own_key_and_keeps_the_order() {
    let keys = vec![key(1), key(2), key(1), key(3), key(2)];
    assert_eq!(without_own_key(&keys, &key(2)), vec![key(1), key(1), key(3)]);
    assert_eq!(without_own_key(&keys, &key(4)), keys);
    assert_eq!(without_own_key(&vec![key(1)], &key(1)), vec![]);
}

#[test]
fn lists_every_other_agent() {
    let infos: Vec<String> = (1..=6).map(signed_info).collect();
    let peers = randomized_peers(&infos, &key(3)).unwrap();
    assert_eq!(sorted(&peers), sorted(&[key(1), key(2), key(4), key(5), key(6)]));
}

#[test]
fn the_order_of_the_information_does_not_matter() {
    let infos: Vec<String> = (1..=4).map(signed_info).collect();
    let reversed: Vec<String> = (1..=4).rev().map(signed_info).collect();
    assert_eq!(
        sorted(&randomized_peers(&infos, &key(1)).unwrap()),
        sorted(&randomized_peers(&reversed, &key(1)).unwrap())
    );
}

#[test]
fn shuffles_the_peers() {
    let infos: Vec<String> = (1..=9).map(signed_info).collect();
    let ordered: Vec<AgentPubKey> = (2..=9).map(key).collect();
    let lists: Vec<Vec<AgentPubKey>> =
        (0..20).map(|_| randomized_peers(&infos, &key(1)).unwrap()).collect();
    assert!(lists.iter().any(|peers| *peers != ordered));
    assert!(lists.iter().any(|peers| *peers != lists[0]));
}

fn begun(seed: u8) -> PeersFlow {
    let runner = RunnerContext::new("ws://localhost:1".to_string(), "run".to_string());
    let mut ctx = AgentContext::<()>::new("agent".to_string());
    ctx.cell_id = Some(cell_of(seed));
    let (flow, request) = PeersFlow::begin(&runner, &ctx);
    assert_eq!(request, PeersRequest::ConnectAdmin { admin_ws_url: "ws://localhost:1".to_string() });
    flow
}

#[test]
fn asks_for_the_agents_of_the_own_cell() {
    let (flow, progress) =
        get_peer_list_randomized::<u8>(begun(1), PeersReply::AdminConnected(Ok(())));
    assert!(matches!(
        progress,
        Some(Progress::Ask(PeersRequest::ListAgents { cell_id })) if cell_id == cell_of(1)
    ));
    let infos: Vec<String> = (1..=3).map(signed_info).collect();
    let (flow, progress) = get_peer_list_randomized::<u8>(flow, PeersReply::AgentsListed(Ok(infos)));
    assert_eq!(flow.step, PeersStep::Finished);
    match progress {
        Some(Progress::Finish(Ok(peers))) => assert_eq!(sorted(&peers), sorted(&[key(2), key(3)])),
        other => panic!("{:?}", other),
    }
    assert!(get_peer_list_randomized::<u8>(flow, PeersReply::AdminConnected(Ok(()))).1.is_none());
}

#[test]
fn listing_peers_fails_as_its_requests_do() {
    let (_, progress) = get_peer_list_randomized(begun(1), PeersReply::AdminConnected(Err(7u8)));
    assert!(matches!(progress, Some(Progress::Finish(Err(PeersError::ConnectAdmin(7))))));
    let (flow, _) = get_peer_list_randomized::<u8>(begun(1), PeersReply::AdminConnected(Ok(())));
    let (_, progress) = get_peer_list_randomized(flow, PeersReply::AgentsListed(Err(8u8)));
    assert!(matches!(progress, Some(Progress::Finish(Err(PeersError::ListAgents(8))))));
    let (_, progress) =
        get_peer_list_randomized::<u8>(flow, PeersReply::AgentsListed(Ok(vec!["x".to_string()])));
    assert!(matches!(progress, Some(Progress::Finish(Err(PeersError::InvalidAgentInfo(_))))));
}

#[test]
fn replies_out_of_turn_are_ignored_while_listing_peers() {
    let (flow, progress) =
        get_peer_list_randomized::<u8>(begun(1), PeersReply::AgentsListed(Ok(vec![])));
    assert!(progress.is_none());
    assert_eq!(flow, begun(1));
}
