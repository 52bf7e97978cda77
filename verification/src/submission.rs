//! What is handed to storage when a player submits, and what becomes of it.
//!
//! The chains store nothing themselves. Submitting yields a `Submission`, which names
//! the chain, the player and the bytes; whoever holds the disk writes the bytes under
//! `Submission::file_name` and reports back through `finish_submission`.

use crate::chain::Chain;
use crate::error::{refusal, ChainError, ChainErrorType, ChainErrorView, ChainResult};
use crate::ids::{decimal, UserId};
use vstd::prelude::*;
use vstd::string::StringExecFns;

verus! {

/// One piece of content that a player hands in for a chain, to be stored.
#[derive(Debug)]
pub struct Submission {
    /// The name of the chain.
    pub chain: String,
    /// The player who hands the content in.
    pub user: UserId,
    /// The content, byte for byte as it was handed in.
    pub content: Vec<u8>,
}

/// A `Submission` as mathematical values.
pub struct SubmissionView {
    pub chain: Seq<char>,
    pub user: UserId,
    pub content: Seq<u8>,
}

impl View for Submission {
    type V = SubmissionView;

    open spec fn view(&self) -> SubmissionView {
        SubmissionView { chain: self.chain@, user: self.user, content: self.content@ }
    }
}

/// The name of the file that holds what a player handed in for a chain: the chain's
/// name, an underscore, the player's number in decimal, and `.png`.
pub open spec fn file_name_of(chain: Seq<char>, user: UserId) -> Seq<char> {
    chain + "_"@ + decimal(user.0 as nat) + ".png"@
}

/// What storing reports, as a refusal: a failed write is refused with its cause, a
/// write that went through is not refused.
pub open spec fn store_refusal(stored: Result<(), std::io::Error>) -> Option<ChainErrorView> {
    match stored {
        Ok(_) => None,
        Err(why) => Some(ChainErrorView::Io(why)),
    }
}

impl Submission {
    /// The name of the file under which this submission is stored.
    pub fn file_name(&self) -> (name: String)
        ensures
            name@ == file_name_of(self@.chain, self@.user),
    {
        let number = self.user.text();
        let mut name = self.chain.clone();
        name.append("_");
        name.append(number.as_str());
        name.append(".png");
        name
    }
}

/// Makes the submission of `content` by `user` for `chain`.
///
/// Any player may submit at any time: neither the queue nor whether the chain is open
/// is looked at, and the chain is not changed.
pub fn submit_to_chain(chain: &Chain, user: UserId, content: Vec<u8>) -> (submission: Submission)
    ensures
        submission@ == (SubmissionView { chain: chain@.name, user, content: content@ }),
{
    Submission { chain: chain.name().clone(), user, content }
}

/// Turns what storing reported into the result of submitting: a failed write becomes
/// `ChainErrorType::Io` with the cause inside, untouched.
pub fn finish_submission(stored: Result<(), std::io::Error>) -> (finished: ChainResult<()>)
    ensures
        refusal(finished) == store_refusal(stored),
{
    match stored {
        Ok(()) => Ok(()),
        Err(why) => Err(ChainError::from(ChainErrorType::Io(why))),
    }
}

} // verus!
