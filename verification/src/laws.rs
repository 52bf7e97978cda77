//! What holds of the chains over several operations, whatever the chains, names and
//! players are.
//!
//! Every operation takes the map by exclusive reference, so operations on one map
//! happen one after another even when many threads ask for them. The laws on runs of
//! `create_chain_in_map` therefore speak of the requests in the order in which the map
//! served them, whichever order that was.

use crate::chain::{new_chain, ChainView};
use crate::error::ChainErrorView;
use crate::ids::{ChannelId, UserId};
use crate::registry::{
    after_create, after_join, create_refusal, join_refusal, keyed_by_name, submit_refusal,
};
use vstd::prelude::*;

verus! {

/// One request to make a chain.
pub struct Creation {
    pub name: Seq<char>,
    pub user: UserId,
    pub channel: ChannelId,
}

/// One operation on the chains.
pub enum Step {
    Create(Creation),
    Join { name: Seq<char>, user: UserId },
    Submit { name: Seq<char>, user: UserId, content: Seq<u8> },
}

/// The chains after one operation.
pub open spec fn after_step(chains: Map<Seq<char>, ChainView>, step: Step) -> Map<
    Seq<char>,
    ChainView,
> {
    match step {
        Step::Create(creation) => after_create(
            chains,
            creation.name,
            creation.user,
            creation.channel,
        ),
        Step::Join { name, user } => after_join(chains, name, user),
        Step::Submit { .. } => chains,
    }
}

/// Why one operation is refused, if it is.
pub open spec fn step_refusal(chains: Map<Seq<char>, ChainView>, step: Step) -> Option<
    ChainErrorView,
> {
    match step {
        Step::Create(creation) => create_refusal(chains, creation.name),
        Step::Join { name, .. } => join_refusal(chains, name),
        Step::Submit { name, .. } => submit_refusal(chains, name),
    }
}

/// The chains after a run of requests to make a chain, served in order.
pub open spec fn after_creations(
    chains: Map<Seq<char>, ChainView>,
    requests: Seq<Creation>,
) -> Map<Seq<char>, ChainView>
    decreases requests.len(),
{
    if requests.len() == 0 {
        chains
    } else {
        let last = requests.last();
        after_create(
            after_creations(chains, requests.drop_last()),
            last.name,
            last.user,
            last.channel,
        )
    }
}

/// Why the request at position `i` of a run is refused, if it is: the answer it gets
/// from the chains that the requests before it left behind.
pub open spec fn creation_refusal(
    chains: Map<Seq<char>, ChainView>,
    requests: Seq<Creation>,
    i: int,
) -> Option<ChainErrorView> {
    create_refusal(after_creations(chains, requests.take(i)), requests[i].name)
}

/// Making a chain twice under one name: the second request is refused with
/// `AlreadyExists` and changes nothing, whoever asks and whether or not the first
/// request went through; and exactly one chain carries that name afterwards.
pub proof fn law_second_create_is_refused(
    chains: Map<Seq<char>, ChainView>,
    name: Seq<char>,
    first_user: UserId,
    first_channel: ChannelId,
    second_user: UserId,
    second_channel: ChannelId,
)
    requires
        keyed_by_name(chains),
    ensures
        ({
            let once = after_create(chains, name, first_user, first_channel);
            &&& create_refusal(once, name) == Some(ChainErrorView::AlreadyExists(name))
            &&& after_create(once, name, second_user, second_channel) == once
            &&& forall|key: Seq<char>|
                (#[trigger] once.contains_key(key) && once[key].name == name) <==> key == name
        }),
{
}

/// A chain that was just made, joined by one player and then by another, holds exactly
/// these two in its queue, in that order, also where both are the same player. Both
/// requests to join go through, and no other chain is touched.
pub proof fn law_joins_keep_their_order(
    chains: Map<Seq<char>, ChainView>,
    name: Seq<char>,
    creator: UserId,
    channel: ChannelId,
    first: UserId,
    second: UserId,
)
    requires
        !chains.contains_key(name),
    ensures
        ({
            let made = after_create(chains, name, creator, channel);
            let once = after_join(made, name, first);
            let twice = after_join(once, name, second);
            &&& create_refusal(chains, name) is None
            &&& join_refusal(made, name) is None
            &&& join_refusal(once, name) is None
            &&& twice.contains_key(name)
            &&& twice[name] == (ChainView {
                queue: seq![first, second],
                ..new_chain(name, creator, channel)
            })
            &&& twice.remove(name) == chains
        }),
{
    let made = after_create(chains, name, creator, channel);
    let twice = after_join(after_join(made, name, first), name, second);
    assert(twice[name].queue =~= seq![first, second]);
}

/// No operation takes a chain away, closes or reopens it, renames it, or changes who
/// made it and where; and a queue only ever grows at its back.
pub proof fn law_chains_only_grow(chains: Map<Seq<char>, ChainView>, step: Step, name: Seq<char>)
    requires
        chains.contains_key(name),
    ensures
        ({
            let before = chains[name];
            let after = after_step(chains, step)[name];
            &&& after_step(chains, step).contains_key(name)
            &&& after.open == before.open
            &&& after.name == before.name
            &&& after.creator == before.creator
            &&& after.created_in_channel == before.created_in_channel
            &&& before.queue.is_prefix_of(after.queue)
        }),
{
}

/// A chain that an operation brings in is open and empty, and only a request to make
/// a chain that was not refused brings one in.
pub proof fn law_chains_start_open(chains: Map<Seq<char>, ChainView>, step: Step, name: Seq<char>)
    requires
        !chains.contains_key(name),
        after_step(chains, step).contains_key(name),
    ensures
        step matches Step::Create(creation) && creation.name == name,
        step_refusal(chains, step) is None,
        after_step(chains, step)[name] == new_chain(
            name,
            step->Create_0.user,
            step->Create_0.channel,
        ),
{
}

/// An operation that is refused changes nothing.
pub proof fn law_refused_changes_nothing(chains: Map<Seq<char>, ChainView>, step: Step)
    requires
        step_refusal(chains, step) is Some,
    ensures
        after_step(chains, step) == chains,
{
}

/// Every chain stays under its own name, and no name is empty, as long as no chain is
/// made under an empty name.
pub proof fn law_names_are_kept(chains: Map<Seq<char>, ChainView>, step: Step)
    requires
        keyed_by_name(chains),
        step matches Step::Create(creation) ==> creation.name.len() > 0,
    ensures
        keyed_by_name(after_step(chains, step)),
{
}

/// Two requests to make chains under different names leave the same chains behind,
/// and get the same answers, whichever of them is served first.
pub proof fn law_creations_do_not_race(
    chains: Map<Seq<char>, ChainView>,
    one: Creation,
    other: Creation,
)
    requires
        one.name != other.name,
    ensures
        after_step(after_step(chains, Step::Create(one)), Step::Create(other)) == after_step(
            after_step(chains, Step::Create(other)),
            Step::Create(one),
        ),
        step_refusal(after_step(chains, Step::Create(other)), Step::Create(one)) == step_refusal(
            chains,
            Step::Create(one),
        ),
        step_refusal(after_step(chains, Step::Create(one)), Step::Create(other)) == step_refusal(
            chains,
            Step::Create(other),
        ),
{
}

/// What a run of requests for distinct, free names leaves behind, spelled out: the
/// chains that were there, and one new chain for each request.
proof fn lemma_creations_of_distinct_names(
    chains: Map<Seq<char>, ChainView>,
    requests: Seq<Creation>,
)
    requires
        forall|i: int, j: int|
            0 <= i < j < requests.len() ==> requests[i].name != requests[j].name,
        forall|i: int| 0 <= i < requests.len() ==> !chains.contains_key(requests[i].name),
    ensures
        forall|key: Seq<char>| #[trigger]
            after_creations(chains, requests).contains_key(key) <==> chains.contains_key(key) || (
            exists|i: int| 0 <= i < requests.len() && requests[i].name == key),
        forall|key: Seq<char>|
            chains.contains_key(key) ==> #[trigger] after_creations(chains, requests)[key]
                == chains[key],
        forall|i: int|
            0 <= i < requests.len() ==> after_creations(chains, requests)[#[trigger] requests[i].name]
                == new_chain(requests[i].name, requests[i].user, requests[i].channel),
    decreases requests.len(),
{
    if requests.len() > 0 {
        let earlier = requests.drop_last();
        let last = requests.last();
        lemma_creations_of_distinct_names(chains, earlier);
        let before = after_creations(chains, earlier);
        assert(!before.contains_key(last.name)) by {
            if exists|i: int| 0 <= i < earlier.len() && earlier[i].name == last.name {
                let i = choose|i: int| 0 <= i < earlier.len() && earlier[i].name == last.name;
                assert(requests[i].name != requests[requests.len() - 1].name);
            }
        }
        let all = after_creations(chains, requests);
        assert forall|key: Seq<char>| #[trigger]
            all.contains_key(key) <==> chains.contains_key(key) || (exists|i: int|
                0 <= i < requests.len() && requests[i].name == key) by {
            if exists|i: int| 0 <= i < requests.len() && requests[i].name == key {
                let i = choose|i: int| 0 <= i < requests.len() && requests[i].name == key;
                if i < earlier.len() {
                    assert(earlier[i].name == key);
                }
            }
        }
        assert forall|i: int| 0 <= i < requests.len() implies all[#[trigger] requests[i].name]
            == new_chain(requests[i].name, requests[i].user, requests[i].channel) by {
            if i < earlier.len() {
                assert(earlier[i].name == requests[i].name);
            }
        }
    }
}

/// Requests to make chains under names that differ from one another and are all free,
/// served in any order: every one of them goes through, every chain that was asked for
/// is there afterwards as it was asked for, the chains that were there before are
/// untouched, and nothing else has come in.
pub proof fn law_creations_of_distinct_names(
    chains: Map<Seq<char>, ChainView>,
    requests: Seq<Creation>,
)
    requires
        forall|i: int, j: int|
            0 <= i < j < requests.len() ==> requests[i].name != requests[j].name,
        forall|i: int| 0 <= i < requests.len() ==> !chains.contains_key(requests[i].name),
    ensures
        forall|i: int| 0 <= i < requests.len() ==> creation_refusal(chains, requests, i) is None,
        forall|i: int|
            0 <= i < requests.len() ==> after_creations(chains, requests).contains_key(
                #[trigger] requests[i].name,
            ) && after_creations(chains, requests)[requests[i].name] == new_chain(
                requests[i].name,
                requests[i].user,
                requests[i].channel,
            ),
        forall|key: Seq<char>|
            chains.contains_key(key) ==> #[trigger] after_creations(chains, requests).contains_key(
                key,
            ) && after_creations(chains, requests)[key] == chains[key],
        forall|key: Seq<char>| #[trigger]
            after_creations(chains, requests).contains_key(key) ==> chains.contains_key(key) || (
            exists|i: int| 0 <= i < requests.len() && requests[i].name == key),
{
    lemma_creations_of_distinct_names(chains, requests);
    assert forall|i: int| 0 <= i < requests.len() implies creation_refusal(
        chains,
        requests,
        i,
    ) is None by {
        let earlier = requests.take(i);
        lemma_creations_of_distinct_names(chains, earlier);
    }
}

/// What a run of requests for one free name leaves behind: the chain of the request
/// that was served first, and the chains that were there.
proof fn lemma_creations_of_one_name(
    chains: Map<Seq<char>, ChainView>,
    requests: Seq<Creation>,
    name: Seq<char>,
)
    requires
        requests.len() > 0,
        forall|i: int| 0 <= i < requests.len() ==> requests[i].name == name,
        !chains.contains_key(name),
    ensures
        after_creations(chains, requests) == chains.insert(
            name,
            new_chain(name, requests[0].user, requests[0].channel),
        ),
    decreases requests.len(),
{
    let earlier = requests.drop_last();
    if earlier.len() == 0 {
        assert(after_creations(chains, earlier) == chains);
    } else {
        assert(earlier[0] == requests[0]);
        lemma_creations_of_one_name(chains, earlier, name);
    }
}

/// Requests to make a chain that all ask for one free name, served in any order:
/// exactly one goes through, the one that is served first; every other is refused
/// with `AlreadyExists`; and the chain that is there afterwards is the one that the
/// first asked for.
pub proof fn law_creations_of_one_name(
    chains: Map<Seq<char>, ChainView>,
    requests: Seq<Creation>,
    name: Seq<char>,
)
    requires
        requests.len() > 0,
        forall|i: int| 0 <= i < requests.len() ==> requests[i].name == name,
        !chains.contains_key(name),
    ensures
        creation_refusal(chains, requests, 0) is None,
        forall|i: int|
            0 < i < requests.len() ==> creation_refusal(chains, requests, i) == Some(
                ChainErrorView::AlreadyExists(name),
            ),
        after_creations(chains, requests) == chains.insert(
            name,
            new_chain(name, requests[0].user, requests[0].channel),
        ),
{
    lemma_creations_of_one_name(chains, requests, name);
    assert forall|i: int| 0 < i < requests.len() implies creation_refusal(chains, requests, i)
        == Some(ChainErrorView::AlreadyExists(name)) by {
        lemma_creations_of_one_name(chains, requests.take(i), name);
    }
}

} // verus!
