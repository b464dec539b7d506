use cards::contract::{
    execute, instantiate, issue_outcome, query, query_card, read_card, try_burn_card,
    try_create_card, try_generate_viewing_key, verify_viewing_key, write_outcome,
};
use cards::error::ContractError;
use cards::msg::{
    AttestationResponse, Attribute, CardResponse, Env, ExecuteMsg, InstantiateMsg, MessageInfo,
    QueryMsg, Response,
};
use cards::state::Card;
use secret_cosmwasm_std::{MemoryStorage, StdError};

fn env() -> Env {
    Env { height: 12_345, time: 1_571_797_419_879_305_533 }
}

fn info(sender: &str) -> MessageInfo {
    MessageInfo { sender: sender.to_string() }
}

fn card(name: &str, address: &str, phone: &str) -> Card {
    Card { name: name.to_string(), address: address.to_string(), phone: phone.to_string() }
}

fn alice_card() -> Card {
    card("Alice", "1 Main St", "555-0100")
}

fn issue(storage: &mut MemoryStorage, sender: &str, index: u8) -> String {
    issue_in(storage, sender, index, env())
}

fn issue_in(storage: &mut MemoryStorage, sender: &str, index: u8, env: Env) -> String {
    let response = try_generate_viewing_key(storage, env, info(sender), index).unwrap();
    assert_eq!(response.attributes.len(), 1);
    assert_eq!(response.attributes[0].key, "viewing_key");
    response.attributes[0].value.clone()
}

fn get_card(storage: &MemoryStorage, wallet: &str, token: &str, index: u8) -> Result<CardResponse, ContractError> {
    let msg = QueryMsg::GetCard {
        wallet: wallet.to_string(),
        viewing_key: token.to_string(),
        index,
    };
    query(storage, env(), msg)
}

#[test]
fn end_to_end_scenario() {
    let mut storage = MemoryStorage::new();
    let setup = InstantiateMsg { entropy: "seed1".to_string() };
    assert_eq!(instantiate(&mut storage, env(), info("creator"), setup), Ok(Response::default()));

    let create = ExecuteMsg::Create { card: alice_card(), index: 0 };
    assert_eq!(execute(&mut storage, env(), info("alice"), create), Ok(Response::default()));

    let generate = ExecuteMsg::GenerateViewingKey { index: 0 };
    let response = execute(&mut storage, env(), info("alice"), generate).unwrap();
    assert_eq!(response.attributes.len(), 1);
    assert_eq!(response.attributes[0].key, "viewing_key");
    let token = response.attributes[0].value.clone();

    assert_eq!(get_card(&storage, "alice", &token, 0), Ok(CardResponse { card: alice_card() }));
    assert_eq!(get_card(&storage, "alice", "bogus", 0), Err(ContractError::Unauthorized));
    assert_eq!(get_card(&storage, "bob", &token, 0), Err(ContractError::Unauthorized));
}

#[test]
fn create_then_read_returns_the_record() {
    let mut storage = MemoryStorage::new();
    let stored = card("Zo\u{eb}", "12 Rue de l'\u{c9}glise", "");
    try_create_card(&mut storage, info("carol"), stored.clone(), 255).unwrap();
    assert_eq!(read_card(&storage, &"carol".to_string(), 255), Ok(stored.clone()));
    let token = issue(&mut storage, "carol", 255);
    assert_eq!(
        query_card(&storage, "carol".to_string(), token, 255),
        Ok(CardResponse { card: stored })
    );
}

#[test]
fn read_of_nothing_is_not_found() {
    let mut storage = MemoryStorage::new();
    assert_eq!(read_card(&storage, &"alice".to_string(), 0), Err(ContractError::NotFound));
    try_create_card(&mut storage, info("alice"), alice_card(), 0).unwrap();
    assert_eq!(read_card(&storage, &"alice".to_string(), 1), Err(ContractError::NotFound));
    assert_eq!(read_card(&storage, &"alic".to_string(), 0), Err(ContractError::NotFound));
    assert_eq!(read_card(&storage, &"alicee".to_string(), 0), Err(ContractError::NotFound));
}

#[test]
fn burn_of_nothing_is_not_found() {
    let mut storage = MemoryStorage::new();
    assert_eq!(try_burn_card(&mut storage, info("alice"), 0), Err(ContractError::NotFound));
    try_create_card(&mut storage, info("alice"), alice_card(), 0).unwrap();
    assert_eq!(try_burn_card(&mut storage, info("alice"), 1), Err(ContractError::NotFound));
    assert_eq!(try_burn_card(&mut storage, info("bob"), 0), Err(ContractError::NotFound));
    assert_eq!(read_card(&storage, &"alice".to_string(), 0), Ok(alice_card()));
}

#[test]
fn burn_after_create_succeeds_and_read_is_not_found() {
    let mut storage = MemoryStorage::new();
    try_create_card(&mut storage, info("alice"), alice_card(), 0).unwrap();
    let token = issue(&mut storage, "alice", 0);
    assert_eq!(try_burn_card(&mut storage, info("alice"), 0), Ok(Response::default()));
    assert_eq!(read_card(&storage, &"alice".to_string(), 0), Err(ContractError::NotFound));
    assert_eq!(get_card(&storage, "alice", &token, 0), Err(ContractError::NotFound));
    assert_eq!(try_burn_card(&mut storage, info("alice"), 0), Err(ContractError::NotFound));
}

#[test]
fn second_create_overwrites_the_first() {
    let mut storage = MemoryStorage::new();
    let first = card("Alice", "1 Main St", "555-0100");
    let second = card("Alice B.", "2 Side St", "555-0199");
    assert_eq!(try_create_card(&mut storage, info("alice"), first, 4), Ok(Response::default()));
    assert_eq!(
        try_create_card(&mut storage, info("alice"), second.clone(), 4),
        Ok(Response::default())
    );
    assert_eq!(read_card(&storage, &"alice".to_string(), 4), Ok(second));
}

#[test]
fn records_of_different_owners_and_indices_do_not_collide() {
    let mut storage = MemoryStorage::new();
    let a0 = card("a0", "x", "1");
    let a1 = card("a1", "y", "2");
    let b0 = card("b0", "z", "3");
    try_create_card(&mut storage, info("a"), a0.clone(), 0).unwrap();
    try_create_card(&mut storage, info("a"), a1.clone(), 1).unwrap();
    try_create_card(&mut storage, info("b"), b0.clone(), 0).unwrap();
    assert_eq!(read_card(&storage, &"a".to_string(), 0), Ok(a0));
    assert_eq!(read_card(&storage, &"a".to_string(), 1), Ok(a1.clone()));
    assert_eq!(read_card(&storage, &"b".to_string(), 0), Ok(b0.clone()));
    try_burn_card(&mut storage, info("a"), 0).unwrap();
    assert_eq!(read_card(&storage, &"a".to_string(), 1), Ok(a1));
    assert_eq!(read_card(&storage, &"b".to_string(), 0), Ok(b0));
}

#[test]
fn token_is_bound_to_its_owner_and_index() {
    let mut storage = MemoryStorage::new();
    try_create_card(&mut storage, info("alice"), alice_card(), 0).unwrap();
    try_create_card(&mut storage, info("alice"), alice_card(), 1).unwrap();
    try_create_card(&mut storage, info("bob"), alice_card(), 0).unwrap();
    let token = issue(&mut storage, "alice", 0);
    assert!(verify_viewing_key(&storage, &"alice".to_string(), 0, &token));
    assert!(!verify_viewing_key(&storage, &"bob".to_string(), 0, &token));
    assert!(!verify_viewing_key(&storage, &"alice".to_string(), 1, &token));
    assert!(!verify_viewing_key(&storage, &"alic".to_string(), 0, &token));
    assert_eq!(get_card(&storage, "bob", &token, 0), Err(ContractError::Unauthorized));
    assert_eq!(get_card(&storage, "alice", &token, 1), Err(ContractError::Unauthorized));
}

#[test]
fn second_token_does_not_invalidate_the_first() {
    let mut storage = MemoryStorage::new();
    try_create_card(&mut storage, info("alice"), alice_card(), 0).unwrap();
    let first = issue(&mut storage, "alice", 0);
    let second = issue_in(&mut storage, "alice", 0, Env { height: 12_346, ..env() });
    assert_ne!(first, second);
    assert!(verify_viewing_key(&storage, &"alice".to_string(), 0, &first));
    assert!(verify_viewing_key(&storage, &"alice".to_string(), 0, &second));
    assert_eq!(get_card(&storage, "alice", &first, 0), Ok(CardResponse { card: alice_card() }));
    assert_eq!(get_card(&storage, "alice", &second, 0), Ok(CardResponse { card: alice_card() }));
}

#[test]
fn same_request_in_the_same_block_is_issued_the_same_key() {
    let mut storage = MemoryStorage::new();
    let first = issue(&mut storage, "alice", 0);
    let second = issue(&mut storage, "alice", 0);
    assert_eq!(first, second);
    assert!(verify_viewing_key(&storage, &"alice".to_string(), 0, &first));
}

#[test]
fn issuance_does_not_depend_on_earlier_requests() {
    let mut busy = MemoryStorage::new();
    try_create_card(&mut busy, info("bob"), alice_card(), 5).unwrap();
    issue(&mut busy, "bob", 5);
    issue_in(&mut busy, "alice", 1, Env { height: 1, ..env() });
    try_burn_card(&mut busy, info("bob"), 5).unwrap();
    let mut idle = MemoryStorage::new();
    assert_eq!(issue(&mut busy, "alice", 0), issue(&mut idle, "alice", 0));
}

#[test]
fn one_owner_cannot_burn_the_record_of_another() {
    let mut storage = MemoryStorage::new();
    let bob = card("Bob", "2 Side St", "555-0101");
    assert_eq!(try_create_card(&mut storage, info("bob"), bob.clone(), 0), Ok(Response::default()));
    assert_eq!(try_burn_card(&mut storage, info("alice"), 0), Err(ContractError::NotFound));
    assert_eq!(read_card(&storage, &"bob".to_string(), 0), Ok(bob));
}

#[test]
fn wrong_token_is_unauthorized_with_or_without_a_record() {
    let mut storage = MemoryStorage::new();
    assert_eq!(get_card(&storage, "alice", "wrong-token", 0), Err(ContractError::Unauthorized));
    try_create_card(&mut storage, info("alice"), alice_card(), 0).unwrap();
    assert_eq!(get_card(&storage, "alice", "wrong-token", 0), Err(ContractError::Unauthorized));
    let token = issue(&mut storage, "alice", 0);
    assert_eq!(get_card(&storage, "alice", "wrong-token", 0), Err(ContractError::Unauthorized));
    assert_eq!(get_card(&storage, "alice", "", 0), Err(ContractError::Unauthorized));
    let cut = &token[..token.len() - 1];
    assert_eq!(get_card(&storage, "alice", cut, 0), Err(ContractError::Unauthorized));
}

#[test]
fn valid_token_without_record_is_not_found() {
    let mut storage = MemoryStorage::new();
    let token = issue(&mut storage, "alice", 0);
    assert_eq!(get_card(&storage, "alice", &token, 0), Err(ContractError::NotFound));
}

#[test]
fn token_outlives_the_record_it_was_issued_for() {
    let mut storage = MemoryStorage::new();
    try_create_card(&mut storage, info("alice"), alice_card(), 0).unwrap();
    let token = issue(&mut storage, "alice", 0);
    try_burn_card(&mut storage, info("alice"), 0).unwrap();
    assert!(verify_viewing_key(&storage, &"alice".to_string(), 0, &token));
    let next = card("Alice", "9 New Rd", "555-0111");
    try_create_card(&mut storage, info("alice"), next.clone(), 0).unwrap();
    assert_eq!(get_card(&storage, "alice", &token, 0), Ok(CardResponse { card: next }));
}

#[test]
fn token_has_the_toolkit_form() {
    let mut storage = MemoryStorage::new();
    let token = issue(&mut storage, "alice", 0);
    assert!(token.starts_with("api_key_"));
    assert_eq!(token.len(), 8 + 44);
    assert_ne!(token, "alice");
}

#[test]
fn issuance_is_a_function_of_state_sender_and_block() {
    let mut left = MemoryStorage::new();
    let mut right = MemoryStorage::new();
    let setup = InstantiateMsg { entropy: "seed1".to_string() };
    instantiate(&mut left, env(), info("creator"), setup.clone()).unwrap();
    instantiate(&mut right, env(), info("creator"), setup).unwrap();
    let from_left = issue(&mut left, "alice", 0);
    assert_eq!(from_left, issue(&mut right, "alice", 0));
    // the index is no ingredient of the key, only of where it is valid
    let mut third = MemoryStorage::new();
    let setup = InstantiateMsg { entropy: "seed1".to_string() };
    instantiate(&mut third, env(), info("creator"), setup).unwrap();
    assert_eq!(from_left, issue(&mut third, "alice", 9));
}

#[test]
fn issuance_depends_on_each_ingredient() {
    let issue_with = |entropy: Option<&str>, sender: &str, env: Env| {
        let mut storage = MemoryStorage::new();
        if let Some(entropy) = entropy {
            let setup = InstantiateMsg { entropy: entropy.to_string() };
            instantiate(&mut storage, env, info("creator"), setup).unwrap();
        }
        let response = try_generate_viewing_key(&mut storage, env, info(sender), 0).unwrap();
        response.attributes[0].value.clone()
    };
    let base = issue_with(Some("seed1"), "alice", env());
    assert_ne!(base, issue_with(Some("seed2"), "alice", env()));
    assert_ne!(base, issue_with(None, "alice", env()));
    assert_ne!(base, issue_with(Some("seed1"), "bob", env()));
    assert_ne!(base, issue_with(Some("seed1"), "alice", Env { height: 12_346, ..env() }));
    let later = Env { time: env().time + 1_000_000_000, ..env() };
    assert_ne!(base, issue_with(Some("seed1"), "alice", later));
}

#[test]
fn overlong_owner_holds_nothing() {
    let mut storage = MemoryStorage::new();
    let owner = "a".repeat(0x10000);
    assert_eq!(try_burn_card(&mut storage, info(&owner), 0), Err(ContractError::NotFound));
    assert_eq!(read_card(&storage, &owner, 0), Err(ContractError::NotFound));
    assert!(!verify_viewing_key(&storage, &owner, 0, &"any".to_string()));
    assert_eq!(get_card(&storage, &owner, "any", 0), Err(ContractError::Unauthorized));
}

#[test]
fn longest_owner_is_served() {
    let mut storage = MemoryStorage::new();
    let owner = "a".repeat(0xFFFF);
    try_create_card(&mut storage, info(&owner), alice_card(), 0).unwrap();
    let token = issue(&mut storage, &owner, 0);
    assert_eq!(get_card(&storage, &owner, &token, 0), Ok(CardResponse { card: alice_card() }));
}

#[test]
fn execute_dispatches_each_request() {
    let mut storage = MemoryStorage::new();
    let burn = ExecuteMsg::Burn { index: 3 };
    assert_eq!(execute(&mut storage, env(), info("alice"), burn.clone()), Err(ContractError::NotFound));
    let create = ExecuteMsg::Create { card: alice_card(), index: 3 };
    assert_eq!(execute(&mut storage, env(), info("alice"), create), Ok(Response::default()));
    assert_eq!(read_card(&storage, &"alice".to_string(), 3), Ok(alice_card()));
    let generate = ExecuteMsg::GenerateViewingKey { index: 3 };
    let response = execute(&mut storage, env(), info("alice"), generate).unwrap();
    assert!(verify_viewing_key(&storage, &"alice".to_string(), 3, &response.attributes[0].value));
    assert_eq!(execute(&mut storage, env(), info("alice"), burn), Ok(Response::default()));
    assert_eq!(read_card(&storage, &"alice".to_string(), 3), Err(ContractError::NotFound));
}

#[test]
fn instantiate_again_replaces_the_pool() {
    let mut storage = MemoryStorage::new();
    let first = InstantiateMsg { entropy: "seed1".to_string() };
    let second = InstantiateMsg { entropy: String::new() };
    assert_eq!(instantiate(&mut storage, env(), info("creator"), first), Ok(Response::default()));
    assert_eq!(instantiate(&mut storage, env(), info("creator"), second), Ok(Response::default()));
    let mut fresh = MemoryStorage::new();
    let empty = InstantiateMsg { entropy: String::new() };
    instantiate(&mut fresh, env(), info("creator"), empty).unwrap();
    assert_eq!(issue(&mut storage, "alice", 0), issue(&mut fresh, "alice", 0));
}

#[test]
fn write_outcome_keeps_the_backend_error() {
    assert_eq!(write_outcome(Ok(())), Ok(Response::default()));
    assert_eq!(
        write_outcome(Err(StdError::generic_err("disk full"))),
        Err(ContractError::BackendWrite(StdError::generic_err("disk full")))
    );
    assert_ne!(
        write_outcome(Err(StdError::generic_err("disk full"))),
        Err(ContractError::BackendWrite(StdError::generic_err("out of gas")))
    );
}

#[test]
fn issue_outcome_hands_the_token_back_or_the_backend_error() {
    let expected = Response {
        attributes: vec![Attribute { key: "viewing_key".to_string(), value: "T".to_string() }],
    };
    assert_eq!(issue_outcome(Ok(()), "T".to_string()), Ok(expected));
    assert_eq!(
        issue_outcome(Err(StdError::generic_err("disk full")), "T".to_string()),
        Err(ContractError::BackendWrite(StdError::generic_err("disk full")))
    );
}

#[test]
fn response_collects_attributes_in_order() {
    assert!(Response::new().attributes.is_empty());
    assert_eq!(Response::default(), Response::new());
    let response = Response::new()
        .add_attribute("a".to_string(), "1".to_string())
        .add_attribute("b".to_string(), "2".to_string());
    assert_eq!(
        response.attributes,
        vec![
            Attribute { key: "a".to_string(), value: "1".to_string() },
            Attribute { key: "b".to_string(), value: "2".to_string() },
        ]
    );
}

#[test]
fn attestation_response_holds_its_uid() {
    let response = AttestationResponse { uid: "u-1".to_string() };
    assert_eq!(response.clone(), AttestationResponse { uid: "u-1".to_string() });
    assert_ne!(response, AttestationResponse { uid: "u-2".to_string() });
}
