//! Promises about agents' keys and peers.

use crate::context::{AgentContext, RunnerContext};
use crate::keys::{
    base64_char, key_text, lemma_sextets_make_up, lemma_sextets_of_group, three_bytes, AgentPubKey,
};
use crate::peers::{
    agent_keys, agent_of, all_valid, dht_location, get_peer_list_randomized, is_first_error,
    is_peer_list, keys_of, law_peers_are_the_others, others, randomized_peers, raw_keys, signed_agent,
    without_own_key, InvalidAgentInfo, PeersError, PeersFlow, PeersProgress, PeersReply, PeersRequest,
    PeersStep,
};
use crate::progress::Progress;
use vstd::prelude::*;
use vstd::utf8::encode_utf8;

verus! {

/// What a call of [`get_peer_list_randomized`] gives.
pub type PeersAnswer<E> = (PeersFlow, Option<PeersProgress<E>>);

/// The six bits that a character of base64 for URLs stands for, or -1.
pub open spec fn base64_value(c: char) -> int {
    if 'A' as int <= c as int <= 'Z' as int {
        c as int - 'A' as int
    } else if 'a' as int <= c as int <= 'z' as int {
        c as int - 'a' as int + 26
    } else if '0' as int <= c as int <= '9' as int {
        c as int - '0' as int + 52
    } else if c == '-' {
        62
    } else if c == '_' {
        63
    } else {
        -1
    }
}

/// Four characters from `at` on stand for three bytes.
pub open spec fn stands_for(text: Seq<char>, at: int, a: u8, b: u8, c: u8) -> bool {
    &&& base64_value(text[at]) >= 0
    &&& base64_value(text[at + 1]) >= 0
    &&& base64_value(text[at + 2]) >= 0
    &&& base64_value(text[at + 3]) >= 0
    &&& base64_value(text[at]) * 262144 + base64_value(text[at + 1]) * 4096 + base64_value(
        text[at + 2],
    ) * 64 + base64_value(text[at + 3]) == a * 65536 + b * 256 + c
}

/// A text is a `u` and then the key in base64 for URLs: reading it back gives the bytes of the key.
pub open spec fn spells(text: Seq<char>, key: AgentPubKey) -> bool {
    &&& text.len() == 53
    &&& text[0] == 'u'
    &&& forall|group: int|
        0 <= group < 13 ==> #[trigger] stands_for(
            text,
            4 * group + 1,
            key.raw@[3 * group],
            key.raw@[3 * group + 1],
            key.raw@[3 * group + 2],
        )
}

proof fn lemma_base64_value(v: nat)
    requires
        v < 64,
    ensures
        base64_value(base64_char(v)) == v,
{
}

/// The text of a key spells it.
pub proof fn lemma_key_text_spells(key: AgentPubKey)
    ensures
        spells(key_text(key@), key),
{
    assert(key.raw@.len() == 39);
    assert forall|group: int| 0 <= group < 13 implies #[trigger] stands_for(
        key_text(key@),
        4 * group + 1,
        key.raw@[3 * group],
        key.raw@[3 * group + 1],
        key.raw@[3 * group + 2],
    ) by {
        lemma_group_spells(key, group);
    }
}

proof fn lemma_group_spells(key: AgentPubKey, group: int)
    requires
        0 <= group < 13,
    ensures
        stands_for(
            key_text(key@),
            4 * group + 1,
            key.raw@[3 * group],
            key.raw@[3 * group + 1],
            key.raw@[3 * group + 2],
        ),
{
    let text = key_text(key@);
    let n = three_bytes(key@, 3 * group);
    lemma_sextets_of_group(key@, group);
    lemma_sextets_make_up(n);
    lemma_base64_value(n / 262144);
    lemma_base64_value(n / 4096 % 64);
    lemma_base64_value(n / 64 % 64);
    lemma_base64_value(n % 64);
    assert(text[4 * group + 1] == base64_char(n / 262144));
    assert(text[4 * group + 2] == base64_char(n / 4096 % 64));
    assert(text[4 * group + 3] == base64_char(n / 64 % 64));
    assert(text[4 * group + 4] == base64_char(n % 64));
}

/// Two keys are the same where every byte is.
pub proof fn law_same_keys_have_the_same_bytes(a: &AgentPubKey, b: &AgentPubKey, same: bool)
    requires
        call_ensures(AgentPubKey::same_as, (a, b), same),
    ensures
        same <==> forall|i: int| 0 <= i < 39 ==> a.raw@[i] == b.raw@[i],
{
    if forall|i: int| 0 <= i < 39 ==> a.raw@[i] == b.raw@[i] {
        assert(a.raw@ =~= b.raw@);
    }
}

/// Information about an agent is short enough to be decoded, and was signed by that agent.
pub open spec fn is_sound(agent_info: String) -> bool {
    encode_utf8(agent_info@).len() <= i32::MAX && signed_agent(encode_utf8(agent_info@)) is Ok
}

/// The bytes of the key of the agent that sound information is about: the mark of an agent key, the
/// agent's id, and its place in the DHT.
pub open spec fn key_bytes(agent_info: String) -> Seq<u8> {
    let agent = signed_agent(encode_utf8(agent_info@))->Ok_0;
    seq![0x84u8, 0x20u8, 0x24u8] + agent + dht_location(agent)
}

/// The bytes of keys, in their order.
pub open spec fn bytes_of(keys: Seq<AgentPubKey>) -> Seq<Seq<u8>> {
    Seq::new(keys.len(), |i: int| keys[i].raw@)
}

/// The bytes of the keys of the agents that information is about, in its order.
pub open spec fn bytes_told(agent_infos: Seq<String>) -> Seq<Seq<u8>> {
    Seq::new(agent_infos.len(), |i: int| key_bytes(agent_infos[i]))
}

/// `picked` are the places of all the keys other than `own`, in their order.
pub open spec fn picks_others(
    picked: Seq<int>,
    keys: Seq<Seq<u8>>,
    own: Seq<u8>,
    peers: Seq<Seq<u8>>,
) -> bool {
    &&& picked.len() == peers.len()
    &&& forall|k: int|
        0 <= k < picked.len() ==> 0 <= #[trigger] picked[k] < keys.len() && keys[picked[k]]
            == peers[k] && peers[k] != own
    &&& forall|k: int, l: int| 0 <= k < l < picked.len() ==> picked[k] < picked[l]
    &&& forall|i: int|
        0 <= i < keys.len() && #[trigger] keys[i] != own ==> exists|k: int|
            0 <= k < picked.len() && #[trigger] picked[k] == i
}

proof fn lemma_others_are_picked(keys: Seq<Seq<u8>>, own: Seq<u8>) -> (picked: Seq<int>)
    ensures
        picks_others(picked, keys, own, others(keys, own)),
    decreases keys.len(),
{
    reveal(Seq::filter);
    if keys.len() == 0 {
        Seq::empty()
    } else {
        let rest = keys.drop_last();
        let before = lemma_others_are_picked(rest, own);
        let last = keys.len() - 1;
        if keys[last] != own {
            let picked = before.push(last);
            assert(others(keys, own) =~= others(rest, own).push(keys[last]));
            assert forall|i: int| 0 <= i < keys.len() && #[trigger] keys[i] != own implies exists|
                k: int,
            |
                0 <= k < picked.len() && #[trigger] picked[k] == i by {
                if i == last {
                    assert(picked[before.len() as int] == last);
                } else {
                    assert(rest[i] != own);
                    let k = choose|k: int| 0 <= k < before.len() && #[trigger] before[k] == i;
                    assert(picked[k] == i);
                }
            }
            assert forall|k: int| 0 <= k < picked.len() implies 0 <= #[trigger] picked[k] < keys.len()
                && keys[picked[k]] == others(keys, own)[k] && others(keys, own)[k] != own by {
                if k < before.len() {
                    assert(before[k] == picked[k]);
                    assert(rest[before[k]] == keys[picked[k]]);
                }
            }
            picked
        } else {
            assert(others(keys, own) =~= others(rest, own));
            assert forall|i: int| 0 <= i < keys.len() && #[trigger] keys[i] != own implies exists|
                k: int,
            |
                0 <= k < before.len() && #[trigger] before[k] == i by {
                assert(rest[i] != own);
            }
            assert forall|k: int| 0 <= k < before.len() implies 0 <= #[trigger] before[k] < keys.len()
                && keys[before[k]] == others(keys, own)[k] && others(keys, own)[k] != own by {
                assert(rest[before[k]] == keys[before[k]]);
            }
            before
        }
    }
}

/// Leaving out the own key keeps every other key, each as often as it was there and in its order.
pub proof fn law_only_the_own_key_is_left_out(
    keys: &Vec<AgentPubKey>,
    own: &AgentPubKey,
    peers: Vec<AgentPubKey>,
)
    requires
        call_ensures(without_own_key, (keys, own), peers),
    ensures
        exists|picked: Seq<int>| #[trigger]
            picks_others(picked, bytes_of(keys@), own.raw@, bytes_of(peers@)),
{
    let picked = lemma_others_are_picked(raw_keys(keys@), own@);
    assert(raw_keys(keys@) =~= bytes_of(keys@));
    assert(raw_keys(peers@) =~= bytes_of(peers@));
    assert(picks_others(picked, bytes_of(keys@), own.raw@, bytes_of(peers@)));
}

/// Where all the information is sound, a key is read off each piece of it, in its order.
pub proof fn law_a_key_is_read_off_each_info(
    agent_infos: &Vec<String>,
    keys: Result<Vec<AgentPubKey>, InvalidAgentInfo>,
)
    requires
        call_ensures(agent_keys, (agent_infos,), keys),
    ensures
        keys is Ok <==> forall|i: int|
            0 <= i < agent_infos@.len() ==> is_sound(#[trigger] agent_infos@[i]),
        keys is Ok ==> keys->Ok_0@.len() == agent_infos@.len(),
        keys is Ok ==> forall|i: int|
            0 <= i < agent_infos@.len() ==> #[trigger] keys->Ok_0@[i].raw@ == key_bytes(
                agent_infos@[i],
            ),
{
    lemma_validity(agent_infos@);
    if keys is Ok {
        let read = keys->Ok_0@;
        assert(raw_keys(read).len() == keys_of(agent_infos@).len());
        assert forall|i: int| 0 <= i < agent_infos@.len() implies #[trigger] read[i].raw@ == key_bytes(
            agent_infos@[i],
        ) by {
            assert(raw_keys(read)[i] == keys_of(agent_infos@)[i]);
            assert(agent_of(agent_infos@[i]) is Ok);
        }
    }
}

proof fn lemma_validity(agent_infos: Seq<String>)
    ensures
        all_valid(agent_infos) <==> forall|i: int|
            0 <= i < agent_infos.len() ==> is_sound(#[trigger] agent_infos[i]),
        all_valid(agent_infos) ==> keys_of(agent_infos) == bytes_told(agent_infos),
{
    assert forall|i: int| 0 <= i < agent_infos.len() implies is_sound(#[trigger] agent_infos[i])
        == (agent_of(agent_infos[i]) is Ok) by {}
    if all_valid(agent_infos) {
        assert forall|i: int| 0 <= i < agent_infos.len() implies keys_of(agent_infos)[i] == bytes_told(
            agent_infos,
        )[i] by {
            assert(agent_of(agent_infos[i]) is Ok);
        }
        assert(keys_of(agent_infos) =~= bytes_told(agent_infos));
    }
}

/// The reason why a piece of information is not sound.
pub open spec fn is_reason(agent_info: String, error: InvalidAgentInfo) -> bool {
    if encode_utf8(agent_info@).len() > i32::MAX {
        error is TooLong
    } else {
        &&& signed_agent(encode_utf8(agent_info@)) is Err
        &&& error matches InvalidAgentInfo::Decode(why)
        &&& why == signed_agent(encode_utf8(agent_info@))->Err_0
    }
}

/// The first unsound piece of information is the reason why no keys are read.
pub proof fn law_first_unsound_info_is_the_reason(
    agent_infos: &Vec<String>,
    i: int,
    keys: Result<Vec<AgentPubKey>, InvalidAgentInfo>,
)
    requires
        call_ensures(agent_keys, (agent_infos,), keys),
        0 <= i < agent_infos@.len(),
        !is_sound(agent_infos@[i]),
        forall|j: int| 0 <= j < i ==> is_sound(#[trigger] agent_infos@[j]),
    ensures
        keys is Err,
        is_reason(agent_infos@[i], keys->Err_0),
{
    lemma_validity(agent_infos@);
    lemma_first_reason(agent_infos@, i, keys->Err_0);
}

proof fn lemma_first_reason(agent_infos: Seq<String>, i: int, error: InvalidAgentInfo)
    requires
        0 <= i < agent_infos.len(),
        !is_sound(agent_infos[i]),
        forall|j: int| 0 <= j < i ==> is_sound(#[trigger] agent_infos[j]),
        is_first_error(agent_infos, error),
    ensures
        is_reason(agent_infos[i], error),
{
    assert(agent_of(agent_infos[i]) is Err);
    let before = agent_infos.take(i);
    assert forall|j: int| 0 <= j < before.len() implies agent_of(#[trigger] before[j]) is Ok by {
        assert(is_sound(agent_infos[j]));
    }
    crate::peers::law_first_invalid_info_decides(agent_infos, error, i);
}

/// Peers that were listed: all the agents told of but the own one, each as often as it is told of.
pub open spec fn are_peers(
    agent_infos: Seq<String>,
    own: AgentPubKey,
    peers: Seq<AgentPubKey>,
) -> bool {
    forall|key: Seq<u8>| #[trigger]
        bytes_of(peers).to_multiset().count(key) == if key == own.raw@ {
            0
        } else {
            bytes_told(agent_infos).to_multiset().count(key)
        }
}

proof fn lemma_are_peers(agent_infos: Seq<String>, own: AgentPubKey, peers: Seq<AgentPubKey>)
    requires
        all_valid(agent_infos),
        is_peer_list(agent_infos, own, peers),
    ensures
        are_peers(agent_infos, own, peers),
{
    broadcast use vstd::seq_lib::group_to_multiset_ensures;

    lemma_validity(agent_infos);
    assert(raw_keys(peers) =~= bytes_of(peers));
    assert forall|key: Seq<u8>| #[trigger]
        bytes_of(peers).to_multiset().count(key) == if key == own.raw@ {
            0
        } else {
            bytes_told(agent_infos).to_multiset().count(key)
        } by {
        law_peers_are_the_others(agent_infos, own, peers, key);
    }
}

/// Where all the information is sound, every agent but the own one is listed as often as it is told
/// of, and the own one never.
pub proof fn law_every_other_agent_is_a_peer(
    agent_infos: &Vec<String>,
    own: &AgentPubKey,
    peers: Result<Vec<AgentPubKey>, InvalidAgentInfo>,
)
    requires
        call_ensures(randomized_peers, (agent_infos, own), peers),
    ensures
        peers is Ok <==> forall|i: int|
            0 <= i < agent_infos@.len() ==> is_sound(#[trigger] agent_infos@[i]),
        peers is Ok ==> are_peers(agent_infos@, *own, peers->Ok_0@),
{
    lemma_validity(agent_infos@);
    if peers is Ok {
        lemma_are_peers(agent_infos@, *own, peers->Ok_0@);
    }
}

/// The first unsound piece of information is the reason why no peers are listed.
pub proof fn law_first_unsound_info_hides_the_peers(
    agent_infos: &Vec<String>,
    own: &AgentPubKey,
    i: int,
    peers: Result<Vec<AgentPubKey>, InvalidAgentInfo>,
)
    requires
        call_ensures(randomized_peers, (agent_infos, own), peers),
        0 <= i < agent_infos@.len(),
        !is_sound(agent_infos@[i]),
        forall|j: int| 0 <= j < i ==> is_sound(#[trigger] agent_infos@[j]),
    ensures
        peers is Err,
        is_reason(agent_infos@[i], peers->Err_0),
{
    lemma_validity(agent_infos@);
    lemma_first_reason(agent_infos@, i, peers->Err_0);
}

/// Listing the peers begins with the cell that the agent remembers, by connecting to the runner's
/// admin interface.
pub proof fn law_listing_peers_begins<C>(
    runner: &RunnerContext,
    ctx: &AgentContext<C>,
    res: (PeersFlow, PeersRequest),
)
    requires
        ctx.cell_id is Some,
        call_ensures(PeersFlow::begin::<C>, (runner, ctx), res),
    ensures
        Some(res.0.cell_id) == ctx.cell_id,
        res.0.step is ConnectingAdmin,
        res.1 matches PeersRequest::ConnectAdmin { admin_ws_url } && admin_ws_url
            == runner.connection_string,
{
}

/// Once connected, the agents of the flow's own cell are asked for.
pub proof fn law_agents_of_the_cell_are_asked_for<E>(flow: PeersFlow, res: PeersAnswer<E>)
    requires
        flow.step is ConnectingAdmin,
        call_ensures(
            get_peer_list_randomized::<E>,
            (flow, PeersReply::<E>::AdminConnected(Ok(()))),
            res,
        ),
    ensures
        res.0.cell_id == flow.cell_id,
        res.0.step is ListingAgents,
        res.1 matches Some(Progress::Ask(PeersRequest::ListAgents { cell_id })) && cell_id
            == flow.cell_id,
{
}

/// Of the agents that are listed, all but the cell's own agent are the peers; unsound information is
/// the reason why there are none, and nothing else is.
pub proof fn law_listed_agents_become_peers<E>(
    flow: PeersFlow,
    agent_infos: Vec<String>,
    res: PeersAnswer<E>,
)
    requires
        flow.step is ListingAgents,
        call_ensures(
            get_peer_list_randomized::<E>,
            (flow, PeersReply::<E>::AgentsListed(Ok(agent_infos))),
            res,
        ),
    ensures
        res.0.cell_id == flow.cell_id,
        res.0.step is Finished,
        res.1 matches Some(Progress::Finish(outcome)) && {
            &&& outcome is Ok <==> forall|i: int|
                0 <= i < agent_infos@.len() ==> is_sound(#[trigger] agent_infos@[i])
            &&& outcome is Ok ==> are_peers(
                agent_infos@,
                flow.cell_id.agent_pubkey,
                outcome->Ok_0@,
            )
            &&& outcome is Err ==> outcome->Err_0 is InvalidAgentInfo
        },
{
    lemma_validity(agent_infos@);
    if let Some(Progress::Finish(Ok(peers))) = res.1 {
        lemma_are_peers(agent_infos@, flow.cell_id.agent_pubkey, peers@);
    }
}

/// The first unsound piece of information is the reason with which listing the peers ends.
pub proof fn law_listing_ends_with_the_first_reason<E>(
    flow: PeersFlow,
    agent_infos: Vec<String>,
    i: int,
    res: PeersAnswer<E>,
)
    requires
        flow.step is ListingAgents,
        call_ensures(
            get_peer_list_randomized::<E>,
            (flow, PeersReply::<E>::AgentsListed(Ok(agent_infos))),
            res,
        ),
        0 <= i < agent_infos@.len(),
        !is_sound(agent_infos@[i]),
        forall|j: int| 0 <= j < i ==> is_sound(#[trigger] agent_infos@[j]),
    ensures
        res.1 matches Some(Progress::Finish(Err(PeersError::InvalidAgentInfo(error)))) && is_reason(
            agent_infos@[i],
            error,
        ),
{
    lemma_validity(agent_infos@);
    if let Some(Progress::Finish(Err(PeersError::InvalidAgentInfo(error)))) = res.1 {
        lemma_first_reason(agent_infos@, i, error);
    }
}

/// Where a request fails, listing the peers ends with that failure.
pub proof fn law_listing_peers_fails_with_its_request<E>(
    flow: PeersFlow,
    reply: PeersReply<E>,
    error: E,
    res: PeersAnswer<E>,
)
    requires
        call_ensures(get_peer_list_randomized::<E>, (flow, reply), res),
        match flow.step {
            PeersStep::ConnectingAdmin => reply == PeersReply::<E>::AdminConnected(Err(error)),
            PeersStep::ListingAgents => reply == PeersReply::<E>::AgentsListed(Err(error)),
            PeersStep::Finished => false,
        },
    ensures
        res.0.cell_id == flow.cell_id,
        res.0.step is Finished,
        res.1 matches Some(Progress::Finish(Err(failed))) && {
            &&& flow.step is ConnectingAdmin ==> failed == PeersError::ConnectAdmin(error)
            &&& flow.step is ListingAgents ==> failed == PeersError::ListAgents(error)
        },
{
}

/// A reply that listing the peers does not wait for leaves it as it is and is not answered.
pub proof fn law_listing_peers_ignores_other_replies<E>(
    flow: PeersFlow,
    reply: PeersReply<E>,
    res: PeersAnswer<E>,
)
    requires
        call_ensures(get_peer_list_randomized::<E>, (flow, reply), res),
        flow.step is ConnectingAdmin ==> !(reply is AdminConnected),
        flow.step is ListingAgents ==> !(reply is AgentsListed),
    ensures
        res.0 == flow,
        res.1 is None,
{
}

} // verus!
