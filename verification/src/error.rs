//! Why an operation on a chain was refused, and how the refusal is worded.

use crate::ids::{decimal, UserId};
use vstd::prelude::*;
use vstd::std_specs::convert::FromSpecImpl;
use vstd::string::{to_string_from_display_ensures, StringExecFns};

verus! {

/// The error type of std's input and output, declared so that a failed write can be
/// carried inside a `ChainErrorType`. Nothing is assumed about its values.
#[verifier::external_type_specification]
#[verifier::external_body]
pub struct ExIoError(std::io::Error);

/// The reasons for which an operation on a chain is refused.
#[derive(Debug)]
pub enum ChainErrorType {
    /// No chain has this name.
    DoesNotExist(String),
    /// The chain of this name takes no new players.
    NotOpen(String),
    /// A chain of this name is there already.
    AlreadyExists(String),
    /// In the chain of this name it is not this player's turn. No operation refuses
    /// with this reason yet: whose turn it is is not tracked.
    NotYourTurn(String, UserId),
    /// Storing a submission failed, for the reason inside.
    Io(std::io::Error),
}

/// A `ChainErrorType` with each name as a sequence of characters.
pub enum ChainErrorView {
    DoesNotExist(Seq<char>),
    NotOpen(Seq<char>),
    AlreadyExists(Seq<char>),
    NotYourTurn(Seq<char>, UserId),
    Io(std::io::Error),
}

impl View for ChainErrorType {
    type V = ChainErrorView;

    open spec fn view(&self) -> ChainErrorView {
        match *self {
            ChainErrorType::DoesNotExist(name) => ChainErrorView::DoesNotExist(name@),
            ChainErrorType::NotOpen(name) => ChainErrorView::NotOpen(name@),
            ChainErrorType::AlreadyExists(name) => ChainErrorView::AlreadyExists(name@),
            ChainErrorType::NotYourTurn(name, user) => ChainErrorView::NotYourTurn(name@, user),
            ChainErrorType::Io(why) => ChainErrorView::Io(why),
        }
    }
}

/// The error that every operation on a chain returns.
#[derive(Debug)]
pub struct ChainError {
    pub which: ChainErrorType,
}

impl View for ChainError {
    type V = ChainErrorView;

    open spec fn view(&self) -> ChainErrorView {
        self.which@
    }
}

impl From<ChainErrorType> for ChainError {
    fn from(which: ChainErrorType) -> (error: ChainError) {
        ChainError { which }
    }
}

impl FromSpecImpl<ChainErrorType> for ChainError {
    open spec fn obeys_from_spec() -> bool {
        true
    }

    open spec fn from_spec(which: ChainErrorType) -> ChainError {
        ChainError { which }
    }
}

/// What every operation on a chain returns.
pub type ChainResult<T> = Result<T, ChainError>;

/// What a result says of a refusal: the reason, or `None` where the operation went
/// through.
pub open spec fn refusal<T>(result: Result<T, ChainError>) -> Option<ChainErrorView> {
    match result {
        Ok(_) => None,
        Err(error) => Some(error@),
    }
}

/// The words for each reason that the chains themselves give. A failed write has no
/// words here: it is described by the words of its cause.
pub open spec fn wording(error: ChainErrorView) -> Option<Seq<char>> {
    match error {
        ChainErrorView::DoesNotExist(name) => Some("Chain '"@ + name + "' does not exist!"@),
        ChainErrorView::NotOpen(name) => Some("Chain '"@ + name + "' is not open yet!"@),
        ChainErrorView::AlreadyExists(name) => Some(
            "A chain called '"@ + name + "' already exists!"@,
        ),
        ChainErrorView::NotYourTurn(name, user) => Some(
            "It is not user "@ + decimal(user.0 as nat) + "'s turn in chain '"@ + name
                + "'"@,
        ),
        ChainErrorView::Io(_) => None,
    }
}

impl ChainError {
    /// The message for a person to read.
    ///
    /// For a failed write it is what the cause says of itself when it is displayed,
    /// which depends on the operating system; for every other reason it is `wording`.
    pub fn message(&self) -> (text: String)
        ensures
            wording(self@) matches Some(words) ==> text@ == words,
            self@ matches ChainErrorView::Io(why) ==> to_string_from_display_ensures::<
                std::io::Error,
            >(&why, text),
    {
        match &self.which {
            ChainErrorType::DoesNotExist(name) => {
                let mut text = String::from_str("Chain '");
                text.append(name.as_str());
                text.append("' does not exist!");
                text
            },
            ChainErrorType::NotOpen(name) => {
                let mut text = String::from_str("Chain '");
                text.append(name.as_str());
                text.append("' is not open yet!");
                text
            },
            ChainErrorType::AlreadyExists(name) => {
                let mut text = String::from_str("A chain called '");
                text.append(name.as_str());
                text.append("' already exists!");
                text
            },
            ChainErrorType::NotYourTurn(name, user) => {
                let number = user.text();
                let mut text = String::from_str("It is not user ");
                text.append(number.as_str());
                text.append("'s turn in chain '");
                text.append(name.as_str());
                text.append("'");
                text
            },
            ChainErrorType::Io(why) => why.to_string(),
        }
    }
}

} // verus!
