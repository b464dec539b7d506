use cards::contract::{execute, instantiate, try_create_card, try_generate_viewing_key};
use cards::encoding::{append, to_length_prefixed};
use cards::keys::{is_valid_owner, record_namespace, token_namespace, Namespace};
use cards::msg::{Env, ExecuteMsg, InstantiateMsg, MessageInfo};
use cards::state::{card_viewing_key, entropy, user_cards, Card};
use secret_cosmwasm_std::{MemoryStorage, Storage};

fn env() -> Env {
    Env { height: 12_345, time: 1_571_797_419_879_305_533 }
}

fn info(sender: &str) -> MessageInfo {
    MessageInfo { sender: sender.to_string() }
}

fn alice_card() -> Card {
    Card {
        name: "Alice".to_string(),
        address: "1 Main St".to_string(),
        phone: "555-0100".to_string(),
    }
}

fn text_bytes(text: &str) -> Vec<u8> {
    let mut bytes = (text.len() as u64).to_le_bytes().to_vec();
    bytes.extend_from_slice(text.as_bytes());
    bytes
}

#[test]
fn namespaces_spell_their_names() {
    assert_eq!(user_cards(), b"user cards".to_vec());
    assert_eq!(card_viewing_key(), b"card viewing key".to_vec());
    assert_eq!(entropy(), b"entropy".to_vec());
}

#[test]
fn append_adds_at_the_end() {
    let mut out = vec![1u8, 2];
    append(&mut out, &[3, 4, 5]);
    assert_eq!(out, vec![1, 2, 3, 4, 5]);
    append(&mut out, &[]);
    assert_eq!(out, vec![1, 2, 3, 4, 5]);
}

#[test]
fn length_prefix_is_two_bytes_high_byte_first() {
    assert_eq!(to_length_prefixed(b""), vec![0, 0]);
    assert_eq!(to_length_prefixed(b"a"), vec![0, 1, 97]);
    assert_eq!(to_length_prefixed(b"abc"), vec![0, 3, 97, 98, 99]);
    let long = vec![7u8; 258];
    let prefixed = to_length_prefixed(&long);
    assert_eq!(prefixed.len(), 260);
    assert_eq!(&prefixed[0..2], &[1, 2]);
    assert_eq!(&prefixed[2..], &long[..]);
    let longest = vec![0u8; 0xFFFF];
    assert_eq!(&to_length_prefixed(&longest)[0..2], &[255, 255]);
}

#[test]
fn add_suffix_appends_the_prefixed_suffix() {
    let base = Namespace::new(b"ns".to_vec());
    assert_eq!(base.prefix, b"ns".to_vec());
    let first = base.add_suffix(b"ab");
    assert_eq!(first.prefix, b"ns\x00\x02ab".to_vec());
    let second = first.add_suffix(&[9]);
    assert_eq!(second.prefix, b"ns\x00\x02ab\x00\x01\x09".to_vec());
    assert_eq!(base.prefix, b"ns".to_vec());
}

#[test]
fn suffix_chains_do_not_run_together() {
    let base = Namespace::new(b"ns".to_vec());
    let left = base.add_suffix(b"ab").add_suffix(b"c");
    let right = base.add_suffix(b"a").add_suffix(b"bc");
    assert_ne!(left.prefix, right.prefix);
}

#[test]
fn record_namespace_is_owner_under_user_cards() {
    let namespace = record_namespace(&"alice".to_string());
    assert_eq!(namespace.prefix, b"user cards\x00\x05alice".to_vec());
}

#[test]
fn token_namespace_is_owner_then_index_under_card_viewing_key() {
    let namespace = token_namespace(&"alice".to_string(), 3);
    assert_eq!(namespace.prefix, b"card viewing key\x00\x05alice\x00\x01\x03".to_vec());
}

#[test]
fn owner_is_valid_up_to_the_longest_suffix() {
    assert!(is_valid_owner(&String::new()));
    assert!(is_valid_owner(&"a".repeat(0xFFFF)));
    assert!(!is_valid_owner(&"a".repeat(0x10000)));
    // the length that counts is that of the UTF-8 form
    assert!(!is_valid_owner(&"\u{e9}".repeat(0x8000)));
}

#[test]
fn instantiate_writes_the_pool_cell() {
    let mut storage = MemoryStorage::new();
    let msg = InstantiateMsg { entropy: "seed1".to_string() };
    let result = instantiate(&mut storage, env(), info("creator"), msg);
    assert!(result.unwrap().attributes.is_empty());
    assert_eq!(storage.get(b"entropy"), Some(text_bytes("seed1")));
}

#[test]
fn create_writes_one_entry_at_the_record_key() {
    let mut storage = MemoryStorage::new();
    try_create_card(&mut storage, info("alice"), alice_card(), 7).unwrap();
    let mut value = text_bytes("Alice");
    value.extend(text_bytes("1 Main St"));
    value.extend(text_bytes("555-0100"));
    assert_eq!(storage.get(b"user cards\x00\x05alice\x07"), Some(value));
    assert_eq!(storage.get(b"user cards\x00\x05alice\x00"), None);
    assert_eq!(storage.get(b"user cards\x00\x03bob\x07"), None);
}

#[test]
fn burn_removes_the_entry_at_the_record_key() {
    let mut storage = MemoryStorage::new();
    try_create_card(&mut storage, info("alice"), alice_card(), 7).unwrap();
    try_create_card(&mut storage, info("alice"), alice_card(), 8).unwrap();
    execute(&mut storage, env(), info("alice"), ExecuteMsg::Burn { index: 7 }).unwrap();
    assert_eq!(storage.get(b"user cards\x00\x05alice\x07"), None);
    assert!(storage.get(b"user cards\x00\x05alice\x08").is_some());
}

#[test]
fn issue_writes_the_token_entry_and_nothing_else() {
    let mut storage = MemoryStorage::new();
    try_create_card(&mut storage, info("alice"), alice_card(), 2).unwrap();
    let response = try_generate_viewing_key(&mut storage, env(), info("alice"), 2).unwrap();
    let token = response.attributes[0].value.clone();
    let mut key = b"card viewing key\x00\x05alice\x00\x01\x02".to_vec();
    key.extend(text_bytes(&token));
    assert_eq!(storage.get(&key), Some(vec![1u8]));
    assert_eq!(storage.get(b"viewing_keys::seed"), None);
    assert_eq!(storage.get(b"\x00\x0cviewing_keysalice"), None);
    assert_eq!(storage.get(b"entropy"), None);

    let mut expected = MemoryStorage::new();
    try_create_card(&mut expected, info("alice"), alice_card(), 2).unwrap();
    expected.set(&key, &[1u8]);
    assert_eq!(format!("{:?}", storage), format!("{:?}", expected));
}

#[test]
fn issue_puts_foreign_generator_entries_back() {
    let mut clean = MemoryStorage::new();
    let from_clean = try_generate_viewing_key(&mut clean, env(), info("alice"), 2).unwrap();

    let mut storage = MemoryStorage::new();
    storage.set(b"viewing_keys::seed", b"left by someone else");
    storage.set(b"\x00\x0cviewing_keysalice", b"also left");
    let response = try_generate_viewing_key(&mut storage, env(), info("alice"), 2).unwrap();
    assert_eq!(storage.get(b"viewing_keys::seed"), Some(b"left by someone else".to_vec()));
    assert_eq!(storage.get(b"\x00\x0cviewing_keysalice"), Some(b"also left".to_vec()));
    // the seed that was found is no ingredient of the key
    assert_eq!(response, from_clean);
}

#[test]
fn issue_leaves_records_and_pool_as_they_were() {
    let mut storage = MemoryStorage::new();
    let msg = InstantiateMsg { entropy: "seed1".to_string() };
    instantiate(&mut storage, env(), info("creator"), msg).unwrap();
    try_create_card(&mut storage, info("alice"), alice_card(), 0).unwrap();
    let record = storage.get(b"user cards\x00\x05alice\x00");
    let pool = storage.get(b"entropy");
    try_generate_viewing_key(&mut storage, env(), info("alice"), 0).unwrap();
    assert_eq!(storage.get(b"user cards\x00\x05alice\x00"), record);
    assert_eq!(storage.get(b"entropy"), pool);
}
