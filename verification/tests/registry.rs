use art_telephone::{
    add_to_chain, add_to_chain_map, create_chain, create_chain_in_map, ChainErrorType, ChainMap,
    ChainStorage, ChannelId, UserId,
};
use std::collections::VecDeque;

fn queue_of(map: &ChainMap, name: &str) -> Vec<UserId> {
    map.get(name).expect("the chain is there").queue().iter().copied().collect()
}

#[test]
fn new_map_is_empty() {
    let map = ChainMap::new();
    assert!(map.is_empty());
    assert_eq!(map.len(), 0);
    assert!(!map.contains_key("art1"));
    assert!(map.get("art1").is_none());
}

#[test]
fn default_map_is_empty() {
    let map = ChainMap::default();
    assert!(map.is_empty());
    assert_eq!(map.len(), 0);
}

#[test]
fn a_map_with_a_chain_is_not_empty() {
    let mut map = ChainMap::new();
    create_chain_in_map(&mut map, &"art1".to_string(), UserId(1), ChannelId(2)).unwrap();
    assert!(!map.is_empty());
}

#[test]
fn the_storage_key_is_one_value() {
    let key = ChainStorage;
    let copy = key;
    assert_eq!(format!("{:?}", key), format!("{:?}", copy));
}

#[test]
fn create_makes_an_open_empty_chain() {
    let mut map = ChainMap::new();
    let name = "art1".to_string();
    assert!(create_chain_in_map(&mut map, &name, UserId(7), ChannelId(70)).is_ok());
    assert_eq!(map.len(), 1);
    assert!(map.contains_key("art1"));
    let chain = map.get("art1").unwrap();
    assert_eq!(chain.name(), "art1");
    assert!(chain.is_open());
    assert!(chain.queue().is_empty());
    assert_eq!(chain.creator(), UserId(7));
    assert_eq!(chain.created_in_channel(), ChannelId(70));
}

#[test]
fn second_create_of_a_name_is_refused() {
    let mut map = ChainMap::new();
    let name = "art1".to_string();
    assert!(create_chain_in_map(&mut map, &name, UserId(1), ChannelId(10)).is_ok());
    let second = create_chain_in_map(&mut map, &name, UserId(2), ChannelId(20));
    match second {
        Err(error) => match error.which {
            ChainErrorType::AlreadyExists(taken) => assert_eq!(taken, "art1"),
            other => panic!("wrong reason: {:?}", other),
        },
        Ok(()) => panic!("the second request went through"),
    }
    assert_eq!(map.len(), 1);
    let chain = map.get("art1").unwrap();
    assert_eq!(chain.creator(), UserId(1));
    assert_eq!(chain.created_in_channel(), ChannelId(10));
}

#[test]
fn second_create_keeps_the_queue() {
    let mut map = ChainMap::new();
    let name = "art1".to_string();
    create_chain_in_map(&mut map, &name, UserId(1), ChannelId(10)).unwrap();
    add_to_chain_map(&mut map, &name, UserId(5)).unwrap();
    assert!(create_chain_in_map(&mut map, &name, UserId(1), ChannelId(10)).is_err());
    assert_eq!(queue_of(&map, "art1"), vec![UserId(5)]);
}

#[test]
fn create_touches_no_other_chain() {
    let mut map = ChainMap::new();
    let first = "art1".to_string();
    let second = "art2".to_string();
    create_chain_in_map(&mut map, &first, UserId(1), ChannelId(10)).unwrap();
    add_to_chain_map(&mut map, &first, UserId(3)).unwrap();
    create_chain_in_map(&mut map, &second, UserId(2), ChannelId(20)).unwrap();
    assert_eq!(map.len(), 2);
    assert_eq!(queue_of(&map, "art1"), vec![UserId(3)]);
    assert_eq!(map.get("art1").unwrap().creator(), UserId(1));
    assert_eq!(queue_of(&map, "art2"), Vec::<UserId>::new());
    assert_eq!(map.get("art2").unwrap().creator(), UserId(2));
}

#[test]
fn names_differ_by_case() {
    let mut map = ChainMap::new();
    create_chain_in_map(&mut map, &"Art".to_string(), UserId(1), ChannelId(1)).unwrap();
    assert!(create_chain_in_map(&mut map, &"art".to_string(), UserId(1), ChannelId(1)).is_ok());
    assert_eq!(map.len(), 2);
}

#[test]
fn join_of_a_missing_chain_is_refused() {
    let mut map = ChainMap::new();
    let result = add_to_chain_map(&mut map, &"missing".to_string(), UserId(3));
    match result {
        Err(error) => match error.which {
            ChainErrorType::DoesNotExist(name) => assert_eq!(name, "missing"),
            other => panic!("wrong reason: {:?}", other),
        },
        Ok(()) => panic!("joined a chain that is not there"),
    }
    assert_eq!(map.len(), 0);
}

#[test]
fn refused_join_changes_nothing() {
    let mut map = ChainMap::new();
    let name = "art1".to_string();
    create_chain_in_map(&mut map, &name, UserId(1), ChannelId(10)).unwrap();
    add_to_chain_map(&mut map, &name, UserId(2)).unwrap();
    assert!(add_to_chain_map(&mut map, &"art".to_string(), UserId(3)).is_err());
    assert_eq!(map.len(), 1);
    assert!(!map.contains_key("art"));
    assert_eq!(queue_of(&map, "art1"), vec![UserId(2)]);
}

#[test]
fn joins_keep_their_order() {
    let mut map = ChainMap::new();
    let name = "art1".to_string();
    create_chain_in_map(&mut map, &name, UserId(1), ChannelId(10)).unwrap();
    assert!(add_to_chain_map(&mut map, &name, UserId(20)).is_ok());
    assert!(add_to_chain_map(&mut map, &name, UserId(10)).is_ok());
    assert_eq!(queue_of(&map, "art1"), vec![UserId(20), UserId(10)]);
    let expected: VecDeque<UserId> = vec![UserId(20), UserId(10)].into_iter().collect();
    assert_eq!(map.get("art1").unwrap().queue(), &expected);
}

#[test]
fn one_player_may_join_twice() {
    let mut map = ChainMap::new();
    let name = "art1".to_string();
    create_chain_in_map(&mut map, &name, UserId(1), ChannelId(10)).unwrap();
    add_to_chain_map(&mut map, &name, UserId(4)).unwrap();
    add_to_chain_map(&mut map, &name, UserId(4)).unwrap();
    assert_eq!(queue_of(&map, "art1"), vec![UserId(4), UserId(4)]);
}

#[test]
fn the_creator_is_not_in_the_queue_until_joining() {
    let mut map = ChainMap::new();
    let name = "art1".to_string();
    create_chain_in_map(&mut map, &name, UserId(1), ChannelId(10)).unwrap();
    assert_eq!(queue_of(&map, "art1"), Vec::<UserId>::new());
    add_to_chain_map(&mut map, &name, UserId(1)).unwrap();
    assert_eq!(queue_of(&map, "art1"), vec![UserId(1)]);
}

#[test]
fn join_changes_only_the_named_queue() {
    let mut map = ChainMap::new();
    let first = "art1".to_string();
    let second = "art2".to_string();
    create_chain_in_map(&mut map, &first, UserId(1), ChannelId(10)).unwrap();
    create_chain_in_map(&mut map, &second, UserId(2), ChannelId(20)).unwrap();
    add_to_chain_map(&mut map, &second, UserId(9)).unwrap();
    assert_eq!(queue_of(&map, "art1"), Vec::<UserId>::new());
    assert_eq!(queue_of(&map, "art2"), vec![UserId(9)]);
    let chain = map.get("art2").unwrap();
    assert_eq!(chain.name(), "art2");
    assert!(chain.is_open());
    assert_eq!(chain.creator(), UserId(2));
    assert_eq!(chain.created_in_channel(), ChannelId(20));
}

#[test]
fn many_joins_keep_their_order() {
    let mut map = ChainMap::new();
    let name = "long".to_string();
    create_chain_in_map(&mut map, &name, UserId(0), ChannelId(0)).unwrap();
    let mut expected = Vec::new();
    for number in 0..200u64 {
        let user = UserId(1000 - number);
        add_to_chain_map(&mut map, &name, user).unwrap();
        expected.push(user);
    }
    assert_eq!(queue_of(&map, "long"), expected);
}

#[test]
fn a_chain_outside_a_map_works_alike() {
    let mut chain = create_chain(&"solo".to_string(), UserId(8), ChannelId(80)).unwrap();
    assert_eq!(chain.name(), "solo");
    assert!(chain.is_open());
    assert!(chain.queue().is_empty());
    assert!(add_to_chain(&mut chain, UserId(2)).is_ok());
    assert!(add_to_chain(&mut chain, UserId(1)).is_ok());
    let queue: Vec<UserId> = chain.queue().iter().copied().collect();
    assert_eq!(queue, vec![UserId(2), UserId(1)]);
    assert_eq!(chain.creator(), UserId(8));
    assert_eq!(chain.created_in_channel(), ChannelId(80));
}

#[test]
fn names_may_hold_any_characters() {
    let mut map = ChainMap::new();
    let name = "späte Runde #2".to_string();
    create_chain_in_map(&mut map, &name, UserId(1), ChannelId(1)).unwrap();
    add_to_chain_map(&mut map, &name, UserId(2)).unwrap();
    assert!(map.contains_key("späte Runde #2"));
    assert_eq!(queue_of(&map, "späte Runde #2"), vec![UserId(2)]);
}
