//! The chains of a game of telephone that is played over chat.
//!
//! A chain is one named round of the game. Players make chains, join them, and hand
//! in content for them; this crate keeps the chains and decides what each of these
//! requests leads to. It neither talks to the chat service nor touches the disk: a
//! request comes in as plain values, and what has to be stored goes out as a
//! [`Submission`].
//!
//! All chains of an application live in one [`ChainMap`]. Each operation takes the map
//! by exclusive reference and is done when it returns, so an application that shares
//! the map between threads keeps it behind a lock and holds the lock for the length
//! of one call.
//!
//! Every function here is verified against its contract, and `laws` holds what
//! follows for runs of several operations. Two things the game might be expected to
//! do are not done, and the contracts say so: nothing closes a chain, and nothing
//! looks at whose turn it is when content is handed in.

pub mod chain;
pub mod error;
pub mod ids;
pub mod laws;
pub mod registry;
pub mod submission;

pub use chain::{add_to_chain, create_chain, Chain};
pub use error::{ChainError, ChainErrorType, ChainResult};
pub use ids::{ChannelId, UserId};
pub use registry::{
    add_to_chain_map, create_chain_in_map, submit_to_chain_map, ChainMap, ChainStorage,
};
pub use submission::{finish_submission, submit_to_chain, Submission};
