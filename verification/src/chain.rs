//! One chain: a named round of the game, with the players who joined it in the order
//! in which they joined.

use crate::error::{refusal, ChainError, ChainErrorType, ChainErrorView, ChainResult};
use crate::ids::{ChannelId, UserId};
use std::collections::VecDeque;
use vstd::prelude::*;

verus! {

/// A chain, as the game holds it.
///
/// A chain is open from the moment it is made, and nothing closes it. Players are only
/// ever added at the back of the queue, and one player may stand in it several times.
#[derive(Debug)]
pub struct Chain {
    open: bool,
    name: String,
    queue: VecDeque<UserId>,
    creator: UserId,
    created_in_channel: ChannelId,
}

/// What a chain holds, as mathematical values.
pub struct ChainView {
    /// Whether the chain takes new players.
    pub open: bool,
    /// The name under which the chain is known.
    pub name: Seq<char>,
    /// The players who joined, first come first.
    pub queue: Seq<UserId>,
    /// The player who made the chain.
    pub creator: UserId,
    /// The channel in which the chain was made.
    pub created_in_channel: ChannelId,
}

impl View for Chain {
    type V = ChainView;

    closed spec fn view(&self) -> ChainView {
        ChainView {
            open: self.open,
            name: self.name@,
            queue: self.queue@,
            creator: self.creator,
            created_in_channel: self.created_in_channel,
        }
    }
}

/// A chain as it is right after it was made: open, and with nobody in the queue.
pub open spec fn new_chain(name: Seq<char>, creator: UserId, channel: ChannelId) -> ChainView {
    ChainView { open: true, name, queue: Seq::empty(), creator, created_in_channel: channel }
}

/// A chain after one more player has joined. Only the queue differs.
pub open spec fn joined(chain: ChainView, user: UserId) -> ChainView {
    ChainView { queue: chain.queue.push(user), ..chain }
}

/// The chain that `add_to_chain` leaves behind: one player longer if it is open,
/// unchanged if not.
pub open spec fn after_add(chain: ChainView, user: UserId) -> ChainView {
    if chain.open {
        joined(chain, user)
    } else {
        chain
    }
}

/// Why `add_to_chain` refuses, if it does: only because the chain is not open.
pub open spec fn add_refusal(chain: ChainView) -> Option<ChainErrorView> {
    if chain.open {
        None
    } else {
        Some(ChainErrorView::NotOpen(chain.name))
    }
}

impl Chain {
    /// The name under which the chain is known.
    pub fn name(&self) -> (name: &String)
        ensures
            name@ == self@.name,
    {
        &self.name
    }

    /// Whether the chain takes new players.
    pub fn is_open(&self) -> (open: bool)
        ensures
            open == self@.open,
    {
        self.open
    }

    /// The players who joined, first come first.
    pub fn queue(&self) -> (queue: &VecDeque<UserId>)
        ensures
            queue@ == self@.queue,
    {
        &self.queue
    }

    /// The player who made the chain.
    pub fn creator(&self) -> (creator: UserId)
        ensures
            creator == self@.creator,
    {
        self.creator
    }

    /// The channel in which the chain was made.
    pub fn created_in_channel(&self) -> (channel: ChannelId)
        ensures
            channel == self@.created_in_channel,
    {
        self.created_in_channel
    }

    /// A second chain that holds the same as this one.
    pub(crate) fn duplicate(&self) -> (copy: Chain)
        ensures
            copy@ == self@,
    {
        let mut queue: VecDeque<UserId> = VecDeque::new();
        let mut i: usize = 0;
        while i < self.queue.len()
            invariant
                i <= self.queue@.len(),
                queue@ == self.queue@.take(i as int),
            decreases self.queue@.len() - i,
        {
            queue.push_back(self.queue[i]);
            i = i + 1;
        }
        assert(self.queue@.take(self.queue@.len() as int) == self.queue@);
        Chain {
            open: self.open,
            name: self.name.clone(),
            queue,
            creator: self.creator,
            created_in_channel: self.created_in_channel,
        }
    }
}

/// Makes a chain: open, with an empty queue, made by `user` in `channel`.
///
/// A chain has a name, so the name may not be empty. Making a chain never fails.
pub fn create_chain(name: &String, user: UserId, channel: ChannelId) -> (made: ChainResult<Chain>)
    requires
        name@.len() > 0,
    ensures
        made matches Ok(chain) && chain@ == new_chain(name@, user, channel),
{
    Ok(
        Chain {
            open: true,
            name: name.clone(),
            queue: VecDeque::new(),
            creator: user,
            created_in_channel: channel,
        },
    )
}

/// Puts `user` at the back of the chain's queue, if the chain is open.
///
/// Nobody is turned away for standing in the queue already. A chain that is not open
/// is left as it was, and the refusal names it.
pub fn add_to_chain(chain: &mut Chain, user: UserId) -> (added: ChainResult<()>)
    ensures
        final(chain)@ == after_add(old(chain)@, user),
        refusal(added) == add_refusal(old(chain)@),
{
    if chain.open {
        chain.queue.push_back(user);
        Ok(())
    } else {
        Err(ChainError::from(ChainErrorType::NotOpen(chain.name.clone())))
    }
}

} // verus!
