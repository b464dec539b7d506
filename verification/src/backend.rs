use vstd::prelude::*;
use vstd::utf8::encode_utf8;

use secret_cosmwasm_std::{
    Addr, BlockInfo, ContractInfo, Env, MemoryStorage, MessageInfo, StdError, Storage, Timestamp,
};
use secret_toolkit::storage::{Item, KeymapBuilder};
use secret_toolkit::viewing_key::{ViewingKey, ViewingKeyStore};

use crate::encoding::{bincode_flag, bincode_record, bincode_text, length_prefixed};
use crate::state::Card;

verus! {

/// `secret_cosmwasm_std::MemoryStorage`, the key-value backend: a map from
/// byte strings to byte strings. Nothing of its inside is visible here;
/// [`storage_contents`] names what it holds.
#[verifier::external_type_specification]
#[verifier::external_body]
pub struct ExMemoryStorage(MemoryStorage);

/// `secret_cosmwasm_std::StdError`, the error of the backend and of the
/// toolkit. It is carried, never looked into.
#[verifier::external_type_specification]
#[verifier::external_body]
pub struct ExStdError(StdError);

/// The entries of a backend: the map it keeps under its private field.
pub uninterp spec fn storage_contents(storage: MemoryStorage) -> Map<Seq<u8>, Seq<u8>>;

/// What the toolkit's default deserializer, `bincode2::deserialize`, makes
/// of `bytes` when asked for a triple of texts; `None` where it fails.
pub uninterp spec fn record_of_bytes(bytes: Seq<u8>) -> Option<(Seq<char>, Seq<char>, Seq<char>)>;

/// The viewing key that the toolkit derives from the generator's stored
/// `seed`, the block's `height` and `time` in nanoseconds, the `sender` and
/// the caller's `entropy`: the hash chain of `new_viewing_key`, as text.
pub uninterp spec fn derived_viewing_key(
    seed: Seq<u8>,
    height: u64,
    time: u64,
    sender: Seq<char>,
    entropy: Seq<u8>,
) -> Seq<char>;

/// The bytes of `viewing_keys`, the namespace of the toolkit's own vault.
pub open spec fn vault_namespace() -> Seq<u8> {
    seq![118u8, 105u8, 101u8, 119u8, 105u8, 110u8, 103u8, 95u8, 107u8, 101u8, 121u8, 115u8]
}

/// The storage key of the generator's seed: `viewing_keys::seed`.
pub open spec fn seed_slot() -> Seq<u8> {
    vault_namespace() + seq![58u8, 58u8, 115u8, 101u8, 101u8, 100u8]
}

/// The storage key under which the vault keeps the hash of the key it
/// last issued to `account`.
pub open spec fn vault_slot(account: Seq<char>) -> Seq<u8> {
    length_prefixed(vault_namespace()) + encode_utf8(account)
}

/// The seed that the generator finds in `contents`: empty before the first
/// derivation.
pub open spec fn stored_seed(contents: Map<Seq<u8>, Seq<u8>>) -> Seq<u8> {
    if contents.dom().contains(seed_slot()) {
        contents[seed_slot()]
    } else {
        Seq::empty()
    }
}

/// Whether `after` and `before` hold the same entries at every key that
/// is not among `touched`.
pub open spec fn same_outside(
    after: Map<Seq<u8>, Seq<u8>>,
    before: Map<Seq<u8>, Seq<u8>>,
    touched: Set<Seq<u8>>,
) -> bool {
    forall|key: Seq<u8>|
        #![trigger after.dom().contains(key)]
        #![trigger before.dom().contains(key)]
        !touched.contains(key) ==> {
            &&& after.dom().contains(key) == before.dom().contains(key)
            &&& after.dom().contains(key) ==> after[key] == before[key]
        }
}

/// `Keymap::insert` of the toolkit, on a keymap without iteration that
/// maps `u8` to a triple of texts and whose namespace is `prefix`.
///
/// Trusted: the call succeeds, since writing a byte and three texts into
/// memory has no failing path; the one entry at `prefix` followed by the
/// byte `index` now holds the serialized triple, which the deserializer
/// reads back as the same triple.
#[verifier::external_body]
pub(crate) fn keymap_put_record(
    storage: &mut MemoryStorage,
    prefix: &Vec<u8>,
    index: u8,
    card: &Card,
) -> (outcome: Result<(), StdError>)
    ensures
        outcome is Ok,
        storage_contents(*final(storage)) == storage_contents(*old(storage)).insert(
            prefix@ + seq![index],
            bincode_record(card.name@, card.address@, card.phone@),
        ),
        outcome is Ok ==> record_of_bytes(
            bincode_record(card.name@, card.address@, card.phone@),
        ) == Some((card.name@, card.address@, card.phone@)),
{
    let triple = (card.name.clone(), card.address.clone(), card.phone.clone());
    KeymapBuilder::<u8, (String, String, String)>::new(prefix.as_slice())
        .without_iter()
        .build()
        .insert(storage, &index, &triple)
}

/// `Keymap::get` of the toolkit, on the same keymap.
///
/// Trusted: the result is what the deserializer makes of the entry at
/// `prefix` followed by the byte `index`, and `None` where no entry is.
#[verifier::external_body]
pub(crate) fn keymap_get_record(storage: &MemoryStorage, prefix: &Vec<u8>, index: u8) -> (found:
    Option<Card>)
    ensures
        found is Some ==> storage_contents(*storage).dom().contains(prefix@ + seq![index]),
        found is Some ==> record_of_bytes(storage_contents(*storage)[prefix@ + seq![index]])
            == Some((found->0.name@, found->0.address@, found->0.phone@)),
        found is None ==> !storage_contents(*storage).dom().contains(prefix@ + seq![index])
            || record_of_bytes(storage_contents(*storage)[prefix@ + seq![index]]) is None,
{
    KeymapBuilder::<u8, (String, String, String)>::new(prefix.as_slice())
        .without_iter()
        .build()
        .get(storage, &index)
        .map(|(name, address, phone)| Card { name, address, phone })
}

/// `Keymap::remove` of the toolkit, on the same keymap.
///
/// Trusted: the call succeeds, since writing the key byte into memory
/// has no failing path; the entry at `prefix` followed by the byte `index`
/// is gone and no other entry changed.
#[verifier::external_body]
pub(crate) fn keymap_remove_record(storage: &mut MemoryStorage, prefix: &Vec<u8>, index: u8) -> (outcome:
    Result<(), StdError>)
    ensures
        outcome is Ok,
        storage_contents(*final(storage)) == storage_contents(*old(storage)).remove(
            prefix@ + seq![index],
        ),
{
    KeymapBuilder::<u8, (String, String, String)>::new(prefix.as_slice())
        .without_iter()
        .build()
        .remove(storage, &index)
}

/// `Keymap::insert` of the toolkit, on a keymap without iteration that
/// maps a text to `bool` and whose namespace is `prefix`.
///
/// Trusted: the call succeeds, since writing a text and a flag into
/// memory has no failing path; the one entry at `prefix` followed by the
/// serialized `token` now holds the serialized `flag`, a single byte, 1
/// for `true`.
#[verifier::external_body]
pub(crate) fn keymap_put_token(
    storage: &mut MemoryStorage,
    prefix: &Vec<u8>,
    token: &String,
    flag: bool,
) -> (outcome: Result<(), StdError>)
    ensures
        outcome is Ok,
        storage_contents(*final(storage)) == storage_contents(*old(storage)).insert(
            prefix@ + bincode_text(token@),
            bincode_flag(flag),
        ),
{
    KeymapBuilder::<String, bool>::new(prefix.as_slice())
        .without_iter()
        .build()
        .insert(storage, token, &flag)
}

/// `Keymap::contains` of the toolkit, on the same keymap.
///
/// Trusted: the result says whether an entry stands at `prefix` followed
/// by the serialized `token`, whatever that entry holds.
#[verifier::external_body]
pub(crate) fn keymap_has_token(storage: &MemoryStorage, prefix: &Vec<u8>, token: &String) -> (present:
    bool)
    ensures
        present == storage_contents(*storage).dom().contains(prefix@ + bincode_text(token@)),
{
    KeymapBuilder::<String, bool>::new(prefix.as_slice())
        .without_iter()
        .build()
        .contains(storage, token)
}

/// `Item::save` of the toolkit, on an item of text whose storage key is
/// `key`.
///
/// Trusted: the call succeeds, since writing a text into memory has no
/// failing path; the entry at `key` holds the serialized `text` and no
/// other entry changed.
#[verifier::external_body]
pub(crate) fn item_save_text(storage: &mut MemoryStorage, key: &Vec<u8>, text: &String) -> (outcome:
    Result<(), StdError>)
    ensures
        outcome is Ok,
        storage_contents(*final(storage)) == storage_contents(*old(storage)).insert(
            key@,
            bincode_text(text@),
        ),
{
    Item::<String>::new(key.as_slice()).save(storage, text)
}

/// `Storage::get` of the backend.
///
/// Trusted: the bytes of the entry at `key`, and `None` where no entry is.
/// The bytes are never empty: entries come into a backend through `set`
/// alone, which refuses an empty value.
#[verifier::external_body]
pub(crate) fn storage_get(storage: &MemoryStorage, key: &Vec<u8>) -> (value: Option<Vec<u8>>)
    ensures
        value is Some == storage_contents(*storage).dom().contains(key@),
        value is Some ==> value->0@ == storage_contents(*storage)[key@],
        value is Some ==> value->0@.len() > 0,
{
    storage.get(key.as_slice())
}

/// `Storage::set` of the backend. It panics on an empty `value`, which the
/// precondition leaves out.
///
/// Trusted: the entry at `key` holds `value` and no other entry changed.
#[verifier::external_body]
pub(crate) fn storage_set(storage: &mut MemoryStorage, key: &Vec<u8>, value: &Vec<u8>)
    requires
        value@.len() > 0,
    ensures
        storage_contents(*final(storage)) == storage_contents(*old(storage)).insert(key@, value@),
{
    storage.set(key.as_slice(), value.as_slice())
}

/// `Storage::remove` of the backend.
///
/// Trusted: the entry at `key` is gone and no other entry changed.
#[verifier::external_body]
pub(crate) fn storage_remove(storage: &mut MemoryStorage, key: &Vec<u8>)
    ensures
        storage_contents(*final(storage)) == storage_contents(*old(storage)).remove(key@),
{
    storage.remove(key.as_slice())
}

/// `ViewingKey::create` of the toolkit, for the account `sender`, in a
/// block of the given `height` and `time`, the latter in nanoseconds.
///
/// Trusted: the key returned is derived from the stored seed and the four
/// arguments alone; the call rewrites the seed and the vault's entry of
/// `sender`, and no other entry.
#[verifier::external_body]
pub(crate) fn viewing_key_create(
    storage: &mut MemoryStorage,
    sender: &String,
    height: u64,
    time: u64,
    entropy: &Vec<u8>,
) -> (key: String)
    ensures
        key@ == derived_viewing_key(
            stored_seed(storage_contents(*old(storage))),
            height,
            time,
            sender@,
            entropy@,
        ),
        same_outside(
            storage_contents(*final(storage)),
            storage_contents(*old(storage)),
            set![seed_slot(), vault_slot(sender@)],
        ),
{
    let info = MessageInfo { sender: Addr::unchecked(sender.as_str()), funds: Vec::new() };
    let time = Timestamp::from_nanos(time);
    let block = BlockInfo { height, time, chain_id: String::new(), random: None };
    let contract = ContractInfo { address: Addr::unchecked(""), code_hash: String::new() };
    let env = Env { block, transaction: None, contract };
    ViewingKey::create(storage, &info, &env, sender.as_str(), entropy.as_slice())
}

} // verus!
