//! The chains of one application, by name.

use crate::chain::{add_to_chain, create_chain, joined, new_chain, Chain, ChainView};
use crate::error::{refusal, ChainError, ChainErrorType, ChainErrorView, ChainResult};
use crate::ids::{ChannelId, UserId};
use crate::submission::{submit_to_chain, Submission, SubmissionView};
use vstd::hash_map::StringHashMap;
use vstd::prelude::*;

verus! {

/// Names the place in which an application keeps its one `ChainMap`: the key under
/// which the map is found among the things that the application shares between its
/// command handlers.
#[derive(Debug, Clone, Copy)]
pub struct ChainStorage;

/// The chains that are there, each under its name.
///
/// Chains come in through `create_chain_in_map` and never leave. Every chain is kept
/// under its own name, and no name is empty.
pub struct ChainMap {
    chains: StringHashMap<Chain>,
}

impl View for ChainMap {
    type V = Map<Seq<char>, ChainView>;

    closed spec fn view(&self) -> Map<Seq<char>, ChainView> {
        self.chains@.map_values(|chain: Chain| chain@)
    }
}

/// Every chain stands under its own name, and no name is empty.
pub open spec fn keyed_by_name(chains: Map<Seq<char>, ChainView>) -> bool {
    forall|name: Seq<char>| #[trigger]
        chains.contains_key(name) ==> chains[name].name == name && name.len() > 0
}

/// The chains after `create_chain_in_map`: one more if the name was free, the same if
/// it was taken.
pub open spec fn after_create(
    chains: Map<Seq<char>, ChainView>,
    name: Seq<char>,
    user: UserId,
    channel: ChannelId,
) -> Map<Seq<char>, ChainView> {
    if chains.contains_key(name) {
        chains
    } else {
        chains.insert(name, new_chain(name, user, channel))
    }
}

/// Why `create_chain_in_map` refuses, if it does: only because the name is taken.
pub open spec fn create_refusal(chains: Map<Seq<char>, ChainView>, name: Seq<char>) -> Option<
    ChainErrorView,
> {
    if chains.contains_key(name) {
        Some(ChainErrorView::AlreadyExists(name))
    } else {
        None
    }
}

/// The chains after `add_to_chain_map`: the named chain is one player longer if it is
/// there and open; everything else is as before.
pub open spec fn after_join(chains: Map<Seq<char>, ChainView>, name: Seq<char>, user: UserId) -> Map<
    Seq<char>,
    ChainView,
> {
    if chains.contains_key(name) && chains[name].open {
        chains.insert(name, joined(chains[name], user))
    } else {
        chains
    }
}

/// Why `add_to_chain_map` refuses, if it does: because no chain has the name, or
/// because the chain of that name is not open.
pub open spec fn join_refusal(chains: Map<Seq<char>, ChainView>, name: Seq<char>) -> Option<
    ChainErrorView,
> {
    if !chains.contains_key(name) {
        Some(ChainErrorView::DoesNotExist(name))
    } else if !chains[name].open {
        Some(ChainErrorView::NotOpen(name))
    } else {
        None
    }
}

/// Why `submit_to_chain_map` refuses, if it does: only because no chain has the name.
pub open spec fn submit_refusal(chains: Map<Seq<char>, ChainView>, name: Seq<char>) -> Option<
    ChainErrorView,
> {
    if chains.contains_key(name) {
        None
    } else {
        Some(ChainErrorView::DoesNotExist(name))
    }
}

impl ChainMap {
    /// What holds of every map at all times: each chain stands under its own name, and
    /// no name is empty.
    #[verifier::type_invariant]
    pub open spec fn well_formed(&self) -> bool {
        keyed_by_name(self@)
    }

    /// A map with no chain in it.
    pub fn new() -> (map: ChainMap)
        ensures
            map@ == Map::<Seq<char>, ChainView>::empty(),
    {
        let map = ChainMap { chains: StringHashMap::new() };
        assert(map@ =~= Map::<Seq<char>, ChainView>::empty());
        map
    }

    /// Whether no chain is there.
    pub fn is_empty(&self) -> (empty: bool)
        ensures
            empty == self@.is_empty(),
    {
        assert(self@.dom() =~= self.chains@.dom());
        self.chains.is_empty()
    }

    /// How many chains there are.
    pub fn len(&self) -> (len: usize)
        ensures
            len == self@.len(),
    {
        assert(self@.dom() =~= self.chains@.dom());
        self.chains.len()
    }

    /// Whether a chain of this name is there.
    pub fn contains_key(&self, name: &str) -> (found: bool)
        ensures
            found == self@.contains_key(name@),
    {
        self.chains.contains_key(name)
    }

    /// The chain of this name, if it is there. It carries the name it was asked for.
    pub fn get(&self, name: &str) -> (found: Option<&Chain>)
        ensures
            match found {
                Some(chain) => self@.contains_key(name@) && chain@ == self@[name@] && chain@.name
                    == name@,
                None => !self@.contains_key(name@),
            },
    {
        proof {
            use_type_invariant(self);
        }
        self.chains.get(name)
    }

    /// Puts `chain` under `name`, in place of the chain that stood there, if any.
    ///
    /// The table is taken out of the map while it changes and put back afterwards, so
    /// that the map is whole whenever it can be seen.
    fn put(&mut self, name: String, chain: Chain)
        requires
            chain@.name == name@,
            name@.len() > 0,
        ensures
            final(self)@ == old(self)@.insert(name@, chain@),
    {
        proof {
            use_type_invariant(&*self);
        }
        let mut chains = StringHashMap::new();
        assert(chains@.map_values(|chain: Chain| chain@) =~= Map::<Seq<char>, ChainView>::empty());
        std::mem::swap(&mut self.chains, &mut chains);
        chains.insert(name, chain);
        assert(chains@.map_values(|chain: Chain| chain@) =~= old(self)@.insert(name@, chain@));
        std::mem::swap(&mut self.chains, &mut chains);
    }
}

impl Default for ChainMap {
    fn default() -> (map: ChainMap)
        ensures
            map@ == Map::<Seq<char>, ChainView>::empty(),
    {
        ChainMap::new()
    }
}

/// Makes a chain called `name`, made by `user` in `channel`, unless one of that name
/// is there already.
///
/// No other chain is touched. A name that is taken is refused with `AlreadyExists`,
/// and then nothing changes.
pub fn create_chain_in_map(
    map: &mut ChainMap,
    name: &String,
    user: UserId,
    channel: ChannelId,
) -> (created: ChainResult<()>)
    requires
        name@.len() > 0,
    ensures
        final(map)@ == after_create(old(map)@, name@, user, channel),
        refusal(created) == create_refusal(old(map)@, name@),
{
    if map.chains.contains_key(name.as_str()) {
        Err(ChainError::from(ChainErrorType::AlreadyExists(name.clone())))
    } else {
        match create_chain(name, user, channel) {
            Ok(chain) => {
                map.put(name.clone(), chain);
                Ok(())
            },
            Err(error) => Err(error),
        }
    }
}

/// Puts `user` at the back of the queue of the chain called `name`.
///
/// Only that queue changes. Where no chain has the name the refusal is `DoesNotExist`,
/// where the chain is not open it is `NotOpen`; either way nothing changes.
pub fn add_to_chain_map(map: &mut ChainMap, name: &String, user: UserId) -> (added: ChainResult<
    (),
>)
    ensures
        final(map)@ == after_join(old(map)@, name@, user),
        refusal(added) == join_refusal(old(map)@, name@),
{
    proof {
        use_type_invariant(&*map);
    }
    // The table lends out no chain to be changed where it stands: the chain is copied,
    // the copy is changed, and the copy takes the place of the chain.
    let mut chain = match map.chains.get(name.as_str()) {
        Some(found) => found.duplicate(),
        None => {
            return Err(ChainError::from(ChainErrorType::DoesNotExist(name.clone())));
        },
    };
    match add_to_chain(&mut chain, user) {
        Ok(()) => {
            map.put(name.clone(), chain);
            Ok(())
        },
        Err(error) => Err(error),
    }
}

/// Makes the submission of `content` by `user` for the chain called `name`.
///
/// The chains do not change. Where a chain has the name, the answer is the one
/// submission to store, with exactly this name, player and content, whether or not the
/// player ever joined; where none has, the answer is `DoesNotExist` and there is
/// nothing to store.
pub fn submit_to_chain_map(
    map: &mut ChainMap,
    name: &String,
    user: UserId,
    content: Vec<u8>,
) -> (submitted: ChainResult<Submission>)
    ensures
        final(map)@ == old(map)@,
        refusal(submitted) == submit_refusal(old(map)@, name@),
        submitted matches Ok(submission) ==> submission@ == (SubmissionView {
            chain: name@,
            user,
            content: content@,
        }),
{
    proof {
        use_type_invariant(&*map);
    }
    match map.chains.get(name.as_str()) {
        Some(chain) => Ok(submit_to_chain(chain, user, content)),
        None => Err(ChainError::from(ChainErrorType::DoesNotExist(name.clone()))),
    }
}

} // verus!
