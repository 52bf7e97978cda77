use art_telephone::{ChainError, ChainErrorType, UserId};
use std::io::{Error, ErrorKind};

#[test]
fn message_for_a_missing_chain() {
    let error = ChainError::from(ChainErrorType::DoesNotExist("art1".to_string()));
    assert_eq!(error.message(), "Chain 'art1' does not exist!");
}

#[test]
fn message_for_a_closed_chain() {
    let error = ChainError::from(ChainErrorType::NotOpen("art1".to_string()));
    assert_eq!(error.message(), "Chain 'art1' is not open yet!");
}

#[test]
fn message_for_a_taken_name() {
    let error = ChainError::from(ChainErrorType::AlreadyExists("art1".to_string()));
    assert_eq!(error.message(), "A chain called 'art1' already exists!");
}

#[test]
fn message_for_a_wrong_turn() {
    let error = ChainError::from(ChainErrorType::NotYourTurn("art1".to_string(), UserId(42)));
    assert_eq!(error.message(), "It is not user 42's turn in chain 'art1'");
}

#[test]
fn message_for_a_wrong_turn_of_player_zero() {
    let error = ChainError::from(ChainErrorType::NotYourTurn("x".to_string(), UserId(0)));
    assert_eq!(error.message(), "It is not user 0's turn in chain 'x'");
}

#[test]
fn message_for_a_wrong_turn_names_the_player_as_serenity_does() {
    let error =
        ChainError::from(ChainErrorType::NotYourTurn("art1".to_string(), UserId(u64::MAX)));
    let player = serenity::model::id::UserId(u64::MAX);
    assert_eq!(error.message(), format!("It is not user {}'s turn in chain '{}'", player, "art1"));
}

#[test]
fn message_for_a_failed_write_is_the_cause() {
    let why = Error::new(ErrorKind::Other, "no space left");
    let expected = why.to_string();
    let error = ChainError::from(ChainErrorType::Io(why));
    assert_eq!(error.message(), expected);
    assert_eq!(error.message(), "no space left");
}

#[test]
fn message_keeps_the_name_as_it_is() {
    let error = ChainError::from(ChainErrorType::DoesNotExist("it's".to_string()));
    assert_eq!(error.message(), "Chain 'it's' does not exist!");
    let error = ChainError::from(ChainErrorType::AlreadyExists(String::new()));
    assert_eq!(error.message(), "A chain called '' already exists!");
}

#[test]
fn from_keeps_the_reason() {
    let error: ChainError = ChainErrorType::NotOpen("art1".to_string()).into();
    match error.which {
        ChainErrorType::NotOpen(name) => assert_eq!(name, "art1"),
        other => panic!("wrong reason: {:?}", other),
    }
}
