//! The peers of an agent, in random order.

use crate::context::{AgentContext, RunnerContext};
use crate::keys::{AgentPubKey, CellId};
use crate::progress::Progress;
use rand::seq::SliceRandom;
use vstd::prelude::*;
use vstd::string::*;
use vstd::utf8::encode_utf8;

verus! {

/// The error that [`kitsune2_api::AgentInfoSigned::decode`] returns; its value is only passed on.
#[verifier::external_type_specification]
#[verifier::external_body]
pub struct ExK2Error(kitsune2_api::K2Error);

/// The id of the agent whose signed information `encoded` is, or why it is no such information or
/// not signed by that agent: what [`kitsune2_api::AgentInfoSigned::decode`] finds with
/// [`kitsune2_core::Ed25519Verifier`].
pub uninterp spec fn signed_agent(encoded: Seq<u8>) -> Result<Seq<u8>, kitsune2_api::K2Error>;

/// The four bytes that place an agent in the DHT: the last of what
/// [`holo_hash::AgentPubKey::from_k2_agent`] returns.
pub uninterp spec fn dht_location(agent: Seq<u8>) -> Seq<u8>;

/// The full form of the key of an agent.
pub open spec fn full_key(agent: Seq<u8>) -> Seq<u8> {
    seq![0x84u8, 0x20u8, 0x24u8] + agent + dht_location(agent)
}

/// Calls [`kitsune2_api::AgentInfoSigned::decode`] with [`kitsune2_core::Ed25519Verifier`] and reads
/// the agent id off what it returns. The contract names that id, or what the error holds, which depend
/// on the bytes alone, and claims that an id has 32 bytes, for the verifier accepts no other. The
/// agent's URL is parsed on the way, which panics on too long a text where overflow is checked, so
/// that such information is left out.
#[verifier::external_body]
fn decode_agent_info(encoded: &[u8]) -> (agent: Result<Vec<u8>, kitsune2_api::K2Error>)
    requires
        encoded@.len() <= i32::MAX,
    ensures
        match agent {
            Ok(agent) => {
                &&& signed_agent(encoded@) == Ok::<Seq<u8>, kitsune2_api::K2Error>(agent@)
                &&& agent@.len() == 32
            },
            Err(error) => signed_agent(encoded@) == Err::<Seq<u8>, kitsune2_api::K2Error>(error),
        },
{
    kitsune2_api::AgentInfoSigned::decode(&kitsune2_core::Ed25519Verifier, encoded).map(
        |info| info.agent.to_vec(),
    )
}

/// Calls [`holo_hash::AgentPubKey::from_k2_agent`]. The contract claims that the key holds the bytes
/// that mark an agent key, then the agent id unchanged, then four bytes that depend on it alone.
#[verifier::external_body]
fn key_from_k2_agent(agent: &Vec<u8>) -> (key: AgentPubKey)
    requires
        agent@.len() == 32,
    ensures
        key@ == seq![0x84u8, 0x20u8, 0x24u8] + agent@ + dht_location(agent@),
{
    let agent = kitsune2_api::AgentId(kitsune2_api::Id(agent.clone().into()));
    AgentPubKey {
        raw: holo_hash::AgentPubKey::from_k2_agent(&agent).get_raw_39().try_into().unwrap(),
    }
}

/// Calls [`rand::seq::SliceRandom::shuffle`] with the thread's generator. The contract claims that
/// it moves the keys about, and neither adds nor drops one; where each ends up is left to chance.
#[verifier::external_body]
fn shuffle(keys: &mut Vec<AgentPubKey>)
    ensures
        final(keys)@.to_multiset() == old(keys)@.to_multiset(),
{
    keys.shuffle(&mut rand::thread_rng());
}

/// Why a conductor's information about an agent is not valid.
#[derive(Debug)]
pub enum InvalidAgentInfo {
    /// It is malformed, or not signed by that agent.
    Decode(kitsune2_api::K2Error),
    /// It is too long to be decoded.
    TooLong,
}

/// The agent that a conductor's information is about, or why the information is not valid.
pub open spec fn agent_of(agent_info: String) -> Result<Seq<u8>, InvalidAgentInfo> {
    let encoded = encode_utf8(agent_info@);
    if encoded.len() > i32::MAX {
        Err(InvalidAgentInfo::TooLong)
    } else {
        match signed_agent(encoded) {
            Ok(agent) => Ok(agent),
            Err(error) => Err(InvalidAgentInfo::Decode(error)),
        }
    }
}

/// All the information is valid.
pub open spec fn all_valid(agent_infos: Seq<String>) -> bool {
    forall|i: int| 0 <= i < agent_infos.len() ==> agent_of(#[trigger] agent_infos[i]) is Ok
}

/// The first piece of information that is not valid is invalid for this reason.
pub open spec fn is_first_error(agent_infos: Seq<String>, error: InvalidAgentInfo) -> bool {
    exists|i: int|
        #![trigger agent_infos[i]]
        0 <= i < agent_infos.len() && agent_of(agent_infos[i]) == Err::<
            Seq<u8>,
            InvalidAgentInfo,
        >(error) && all_valid(agent_infos.take(i))
}

/// The keys of the agents that valid information is about, in the same order.
pub open spec fn keys_of(agent_infos: Seq<String>) -> Seq<Seq<u8>> {
    agent_infos.map_values(|agent_info: String| full_key(agent_of(agent_info)->Ok_0))
}

/// The keys as raw bytes.
pub open spec fn raw_keys(keys: Seq<AgentPubKey>) -> Seq<Seq<u8>> {
    keys.map_values(|key: AgentPubKey| key@)
}

/// The keys other than the agent's own, in the same order.
pub open spec fn others(keys: Seq<Seq<u8>>, own: Seq<u8>) -> Seq<Seq<u8>> {
    keys.filter(|key: Seq<u8>| key != own)
}

/// Reads the keys off the information that a conductor has about agents.
pub fn agent_keys(agent_infos: &Vec<String>) -> (keys: Result<Vec<AgentPubKey>, InvalidAgentInfo>)
    ensures
        keys is Ok <==> all_valid(agent_infos@),
        keys matches Ok(keys) ==> raw_keys(keys@) == keys_of(agent_infos@),
        keys matches Err(error) ==> is_first_error(agent_infos@, error),
{
    let mut keys: Vec<AgentPubKey> = Vec::new();
    let mut i: usize = 0;
    while i < agent_infos.len()
        invariant
            i <= agent_infos@.len(),
            keys@.len() == i,
            forall|j: int|
                #![trigger agent_infos@[j]]
                0 <= j < i ==> agent_of(agent_infos@[j]) is Ok && keys@[j]@ == full_key(
                    agent_of(agent_infos@[j])->Ok_0,
                ),
        decreases agent_infos@.len() - i,
    {
        let encoded = agent_infos[i].as_str().as_bytes();
        if encoded.len() > i32::MAX as usize {
            assert(agent_of(agent_infos@[i as int]) is Err);
            return Err(InvalidAgentInfo::TooLong);
        }
        match decode_agent_info(encoded) {
            Ok(agent) => {
                keys.push(key_from_k2_agent(&agent));
            },
            Err(error) => {
                assert(agent_of(agent_infos@[i as int]) is Err);
                return Err(InvalidAgentInfo::Decode(error));
            },
        }
        i = i + 1;
    }
    assert(raw_keys(keys@) =~= keys_of(agent_infos@));
    Ok(keys)
}

/// Leaves out the agent's own key.
pub fn without_own_key(keys: &Vec<AgentPubKey>, own: &AgentPubKey) -> (peers: Vec<AgentPubKey>)
    ensures
        raw_keys(peers@) == others(raw_keys(keys@), own@),
{
    let mut peers: Vec<AgentPubKey> = Vec::new();
    let mut i: usize = 0;
    proof {
        reveal(Seq::filter);
        assert(raw_keys(keys@).take(0) =~= Seq::<Seq<u8>>::empty());
        assert(raw_keys(peers@) =~= Seq::<Seq<u8>>::empty());
    }
    while i < keys.len()
        invariant
            i <= keys@.len(),
            raw_keys(peers@) == others(raw_keys(keys@).take(i as int), own@),
        decreases keys@.len() - i,
    {
        let ghost before = peers@;
        let key = keys[i];
        if !key.same_as(own) {
            peers.push(key);
        }
        proof {
            reveal(Seq::filter);
            assert(raw_keys(keys@).take(i + 1).drop_last() =~= raw_keys(keys@).take(i as int));
            assert(raw_keys(before.push(key)) =~= raw_keys(before).push(key@));
        }
        i = i + 1;
    }
    assert(raw_keys(keys@).take(i as int) =~= raw_keys(keys@));
    peers
}

/// Whether `peers` are the peers that a conductor's information about agents tells of, in any order.
pub open spec fn is_peer_list(
    agent_infos: Seq<String>,
    own: AgentPubKey,
    peers: Seq<AgentPubKey>,
) -> bool {
    raw_keys(peers).to_multiset() == others(keys_of(agent_infos), own@).to_multiset()
}

/// Lists the peers of an agent in random order, from the information that its conductor has about
/// agents.
///
/// Where each peer stands in the list is left to chance, and no clause says it.
pub fn randomized_peers(agent_infos: &Vec<String>, own: &AgentPubKey) -> (peers: Result<
    Vec<AgentPubKey>,
    InvalidAgentInfo,
>)
    ensures
        peers is Ok <==> all_valid(agent_infos@),
        peers matches Ok(peers) ==> is_peer_list(agent_infos@, *own, peers@),
        peers matches Err(error) ==> is_first_error(agent_infos@, error),
{
    match agent_keys(agent_infos) {
        Ok(keys) => {
            let mut peers = without_own_key(&keys, own);
            let ghost ordered = peers@;
            shuffle(&mut peers);
            proof {
                lemma_rearranged_values(peers@, ordered, |key: AgentPubKey| key@);
            }
            Ok(peers)
        },
        Err(error) => Err(error),
    }
}

/// What listing the peers asks for.
#[derive(Debug, PartialEq, Eq)]
pub enum PeersRequest {
    /// Connect to the admin interface.
    ConnectAdmin { admin_ws_url: String },
    /// Ask for the information that the conductor has about the agents of a cell.
    ListAgents { cell_id: CellId },
}

/// What comes back. `E` is what a failed request came back with.
#[derive(Debug, PartialEq, Eq)]
pub enum PeersReply<E> {
    AdminConnected(Result<(), E>),
    AgentsListed(Result<Vec<String>, E>),
}

/// Why no list of peers could be made.
#[derive(Debug)]
pub enum PeersError<E> {
    /// Connecting to the admin interface failed.
    ConnectAdmin(E),
    /// Asking for the agents failed.
    ListAgents(E),
    /// The information about an agent is not valid.
    InvalidAgentInfo(InvalidAgentInfo),
}

/// How far listing the peers has come.
#[derive(Debug, Clone, Copy, PartialEq, Eq)]
pub enum PeersStep {
    ConnectingAdmin,
    ListingAgents,
    Finished,
}

/// A list of peers that is being made.
#[derive(Debug, Clone, Copy, PartialEq, Eq)]
pub struct PeersFlow {
    pub cell_id: CellId,
    pub step: PeersStep,
}

/// What such a flow answers.
pub type PeersProgress<E> = Progress<PeersRequest, Vec<AgentPubKey>, PeersError<E>>;

/// How a list of peers may come out, given the information about agents.
pub open spec fn is_peers_outcome<E>(
    agent_infos: Seq<String>,
    own: AgentPubKey,
    outcome: Result<Vec<AgentPubKey>, PeersError<E>>,
) -> bool {
    match outcome {
        Ok(peers) => all_valid(agent_infos) && is_peer_list(agent_infos, own, peers@),
        Err(PeersError::InvalidAgentInfo(error)) => !all_valid(agent_infos) && is_first_error(
            agent_infos,
            error,
        ),
        Err(_) => false,
    }
}

impl PeersFlow {
    /// Whether a reply may take this flow to `flow` with the answer `progress`.
    pub open spec fn steps_to<E>(
        self,
        reply: PeersReply<E>,
        flow: PeersFlow,
        progress: Option<PeersProgress<E>>,
    ) -> bool {
        &&& flow.cell_id == self.cell_id
        &&& match (self.step, reply) {
            (PeersStep::ConnectingAdmin, PeersReply::AdminConnected(Ok(_))) => {
                &&& flow.step is ListingAgents
                &&& progress == Some(
                    Progress::<_, Vec<AgentPubKey>, PeersError<E>>::Ask(
                        PeersRequest::ListAgents { cell_id: self.cell_id },
                    ),
                )
            },
            (PeersStep::ConnectingAdmin, PeersReply::AdminConnected(Err(error))) => {
                &&& flow.step is Finished
                &&& progress == Some(
                    Progress::<PeersRequest, Vec<AgentPubKey>, _>::Finish(
                        Err(PeersError::ConnectAdmin(error)),
                    ),
                )
            },
            (PeersStep::ListingAgents, PeersReply::AgentsListed(Ok(agent_infos))) => {
                &&& flow.step is Finished
                &&& progress matches Some(Progress::Finish(outcome))
                &&& is_peers_outcome(agent_infos@, self.cell_id.agent_pubkey, outcome)
            },
            (PeersStep::ListingAgents, PeersReply::AgentsListed(Err(error))) => {
                &&& flow.step is Finished
                &&& progress == Some(
                    Progress::<PeersRequest, Vec<AgentPubKey>, _>::Finish(
                        Err(PeersError::ListAgents(error)),
                    ),
                )
            },
            _ => flow.step == self.step && progress is None,
        }
    }

    /// Begins to list the peers in the cell that the agent remembers.
    pub fn begin<C>(runner: &RunnerContext, ctx: &AgentContext<C>) -> (res: (
        PeersFlow,
        PeersRequest,
    ))
        requires
            ctx.cell_id is Some,
        ensures
            res.0 == (PeersFlow { cell_id: ctx.cell_id->0, step: PeersStep::ConnectingAdmin }),
            res.1 == (PeersRequest::ConnectAdmin { admin_ws_url: runner.connection_string }),
    {
        (
            PeersFlow { cell_id: ctx.cell_id.unwrap(), step: PeersStep::ConnectingAdmin },
            PeersRequest::ConnectAdmin { admin_ws_url: runner.connection_string.clone() },
        )
    }
}

/// Takes the listing of an agent's peers one reply further.
pub fn get_peer_list_randomized<E>(flow: PeersFlow, reply: PeersReply<E>) -> (res: (
    PeersFlow,
    Option<PeersProgress<E>>,
))
    ensures
        flow.steps_to(reply, res.0, res.1),
{
    let (step, progress) = match (flow.step, reply) {
        (PeersStep::ConnectingAdmin, PeersReply::AdminConnected(Ok(_))) => (
            PeersStep::ListingAgents,
            Some(Progress::Ask(PeersRequest::ListAgents { cell_id: flow.cell_id })),
        ),
        (PeersStep::ConnectingAdmin, PeersReply::AdminConnected(Err(error))) => (
            PeersStep::Finished,
            Some(Progress::Finish(Err(PeersError::ConnectAdmin(error)))),
        ),
        (PeersStep::ListingAgents, PeersReply::AgentsListed(Ok(agent_infos))) => {
            let outcome = match randomized_peers(&agent_infos, &flow.cell_id.agent_pubkey) {
                Ok(peers) => Ok(peers),
                Err(error) => Err(PeersError::InvalidAgentInfo(error)),
            };
            (PeersStep::Finished, Some(Progress::Finish(outcome)))
        },
        (PeersStep::ListingAgents, PeersReply::AgentsListed(Err(error))) => (
            PeersStep::Finished,
            Some(Progress::Finish(Err(PeersError::ListAgents(error)))),
        ),
        (step, _) => (step, None),
    };
    (PeersFlow { cell_id: flow.cell_id, step }, progress)
}

/// Rearranging a sequence rearranges what a function makes of it.
proof fn lemma_rearranged_values<A, B>(a: Seq<A>, b: Seq<A>, f: spec_fn(A) -> B)
    requires
        a.to_multiset() == b.to_multiset(),
    ensures
        a.map_values(f).to_multiset() == b.map_values(f).to_multiset(),
    decreases a.len(),
{
    broadcast use vstd::seq_lib::group_to_multiset_ensures;

    let fa = a.map_values(f);
    let fb = b.map_values(f);
    assert(a.len() == a.to_multiset().len() && b.len() == b.to_multiset().len());
    if a.len() == 0 {
        assert(fa =~= fb);
    } else {
        let last = a.len() - 1;
        assert(a.contains(a[last]));
        assert(b.to_multiset().count(a[last]) > 0);
        let i = choose|i: int| 0 <= i < b.len() && b[i] == a[last];
        lemma_rearranged_values(a.remove(last), b.remove(i), f);
        assert(a.remove(last).map_values(f) =~= fa.remove(last));
        assert(b.remove(i).map_values(f) =~= fb.remove(i));
        let value = f(a[last]);
        assert(fa.remove(last).to_multiset() == fa.to_multiset().remove(value));
        assert(fb.remove(i).to_multiset() == fb.to_multiset().remove(value));
        assert(fa.contains(fa[last]));
        assert(fb.contains(fb[i]));
        assert(fa.to_multiset() =~= fa.to_multiset().remove(value).insert(value));
        assert(fb.to_multiset() =~= fb.to_multiset().remove(value).insert(value));
    }
}

/// Leaving out a key takes away that key and nothing else.
proof fn lemma_others_count(keys: Seq<Seq<u8>>, own: Seq<u8>, key: Seq<u8>)
    ensures
        others(keys, own).to_multiset().count(key) == if key == own {
            0
        } else {
            keys.to_multiset().count(key)
        },
    decreases keys.len(),
{
    broadcast use vstd::seq_lib::group_to_multiset_ensures;

    reveal(Seq::filter);
    if keys.len() == 0 {
        assert(others(keys, own) =~= keys);
        assert(!keys.contains(key));
    } else {
        lemma_others_count(keys.drop_last(), own, key);
        assert(keys =~= keys.drop_last().push(keys.last()));
    }
}

/// An agent is never listed as its own peer, and every other agent is listed as often as its
/// conductor tells of it.
pub proof fn law_peers_are_the_others(
    agent_infos: Seq<String>,
    own: AgentPubKey,
    peers: Seq<AgentPubKey>,
    key: Seq<u8>,
)
    requires
        is_peer_list(agent_infos, own, peers),
    ensures
        !raw_keys(peers).contains(own@),
        key != own@ ==> raw_keys(peers).to_multiset().count(key) == keys_of(
            agent_infos,
        ).to_multiset().count(key),
{
    broadcast use vstd::seq_lib::group_to_multiset_ensures;

    lemma_others_count(keys_of(agent_infos), own@, own@);
    lemma_others_count(keys_of(agent_infos), own@, key);
}

/// Where information is not valid, the first piece that is not says why no peers are listed.
pub proof fn law_first_invalid_info_decides(
    agent_infos: Seq<String>,
    error: InvalidAgentInfo,
    i: int,
)
    requires
        is_first_error(agent_infos, error),
        0 <= i < agent_infos.len(),
        agent_of(agent_infos[i]) is Err,
        all_valid(agent_infos.take(i)),
    ensures
        agent_of(agent_infos[i])->Err_0 == error,
{
    let k = choose|k: int|
        #![trigger agent_infos[k]]
        0 <= k < agent_infos.len() && agent_of(agent_infos[k]) == Err::<
            Seq<u8>,
            InvalidAgentInfo,
        >(error) && all_valid(agent_infos.take(k));
    if k < i {
        assert(agent_infos.take(i)[k] == agent_infos[k]);
    } else if i < k {
        assert(agent_infos.take(k)[i] == agent_infos[i]);
    }
}

/// The order in which a conductor tells of agents does not matter.
pub proof fn law_peers_ignore_order(
    agent_infos: Seq<String>,
    rearranged: Seq<String>,
    own: AgentPubKey,
    peers: Seq<AgentPubKey>,
)
    requires
        agent_infos.to_multiset() == rearranged.to_multiset(),
    ensures
        is_peer_list(agent_infos, own, peers) == is_peer_list(rearranged, own, peers),
{
    lemma_rearranged_values(
        agent_infos,
        rearranged,
        |agent_info: String| full_key(agent_of(agent_info)->Ok_0),
    );
    let a = others(keys_of(agent_infos), own@).to_multiset();
    let b = others(keys_of(rearranged), own@).to_multiset();
    assert forall|key: Seq<u8>| a.count(key) == b.count(key) by {
        lemma_others_count(keys_of(agent_infos), own@, key);
        lemma_others_count(keys_of(rearranged), own@, key);
    }
    assert(a =~= b);
}

/// Agents are told apart by their ids: two of them have the same key only if they are the same.
pub proof fn law_keys_tell_agents_apart(a: Seq<u8>, b: Seq<u8>)
    requires
        a.len() == 32,
        b.len() == 32,
    ensures
        full_key(a) == full_key(b) <==> a == b,
{
    if full_key(a) == full_key(b) {
        assert(a =~= full_key(a).subrange(3, 35));
        assert(b =~= full_key(b).subrange(3, 35));
    }
}

impl PeersFlow {
    /// How many replies the flow still waits for at most.
    pub open spec fn steps_left(self) -> nat {
        match self.step {
            PeersStep::ConnectingAdmin => 2,
            PeersStep::ListingAgents => 1,
            PeersStep::Finished => 0,
        }
    }
}

/// Listing the peers comes to an end: every reply that is answered brings the end closer, and the end
/// is reached with the answer that says so.
pub proof fn law_listing_peers_ends<E>(
    before: PeersFlow,
    reply: PeersReply<E>,
    after: PeersFlow,
    progress: Option<PeersProgress<E>>,
)
    requires
        before.steps_to(reply, after, progress),
    ensures
        progress is Some ==> after.steps_left() < before.steps_left(),
        progress is Some ==> (progress->0 is Finish <==> after.steps_left() == 0),
        before.steps_left() == 0 ==> progress is None,
{
}

} // verus!
