use vstd::prelude::*;

use secret_cosmwasm_std::MemoryStorage;

use crate::backend::{
    derived_viewing_key, seed_slot, storage_contents, storage_get, storage_remove, storage_set,
    stored_seed, vault_namespace, vault_slot, viewing_key_create,
};
use crate::encoding::{append, to_length_prefixed};
use crate::ledger::pool_of;
use crate::msg::Env;
use crate::state::{entropy, entropy_slot};

verus! {

/// The entropy that a key derivation is handed in the state `contents`:
/// the fixed label, followed by the cell of the entropy pool once the pool
/// has been set.
pub open spec fn derivation_entropy(contents: Map<Seq<u8>, Seq<u8>>) -> Seq<u8> {
    match pool_of(contents) {
        Some(pool) => entropy_slot() + pool,
        None => entropy_slot(),
    }
}

/// The viewing key that a request of `sender` in the block `env` is issued
/// in the state `contents`. Of the state only the entropy pool enters: the
/// generator starts every derivation without a seed of its own.
pub open spec fn issued_token(contents: Map<Seq<u8>, Seq<u8>>, env: Env, sender: Seq<char>) -> Seq<
    char,
> {
    derived_viewing_key(
        Seq::empty(),
        env.height,
        env.time,
        sender,
        derivation_entropy(contents),
    )
}

/// The storage key of the generator's seed.
fn seed_cell() -> (key: Vec<u8>)
    ensures
        key@ == seed_slot(),
{
    let key: Vec<u8> = vec![
        118u8, 105u8, 101u8, 119u8, 105u8, 110u8, 103u8, 95u8, 107u8, 101u8, 121u8, 115u8, 58u8,
        58u8, 115u8, 101u8, 101u8, 100u8,
    ];
    assert(key@ =~= seed_slot());
    key
}

/// The storage key of the vault's entry of `account`.
fn vault_cell(account: &String) -> (key: Vec<u8>)
    ensures
        key@ == vault_slot(account@),
{
    let namespace: Vec<u8> = vec![
        118u8, 105u8, 101u8, 119u8, 105u8, 110u8, 103u8, 95u8, 107u8, 101u8, 121u8, 115u8,
    ];
    assert(namespace@ =~= vault_namespace());
    let mut key = to_length_prefixed(namespace.as_slice());
    append(&mut key, account.as_str().as_bytes());
    key
}

/// The entropy for the next key derivation.
fn derivation_material(storage: &MemoryStorage) -> (material: Vec<u8>)
    ensures
        material@ == derivation_entropy(storage_contents(*storage)),
{
    let key = entropy();
    let mut material = entropy();
    match storage_get(storage, &key) {
        Some(pool) => {
            append(&mut material, pool.as_slice());
        },
        None => {},
    }
    material
}

/// Puts the entry at `key` back to what `saved` recorded of it: its bytes,
/// or its absence.
fn restore(storage: &mut MemoryStorage, key: &Vec<u8>, saved: Option<Vec<u8>>)
    requires
        saved is Some ==> saved->0@.len() > 0,
    ensures
        storage_contents(*final(storage)) == match saved {
            Some(bytes) => storage_contents(*old(storage)).insert(key@, bytes@),
            None => storage_contents(*old(storage)).remove(key@),
        },
{
    match saved {
        Some(bytes) => storage_set(storage, key, &bytes),
        None => storage_remove(storage, key),
    }
}

/// Derives the viewing key for a request of `sender` in the block `env`
/// from the entropy pool, the sender, the block's height and time, and the
/// fixed label.
///
/// The toolkit's generator keeps a seed and a vault entry of its own in
/// the backend. It is started without a seed, and both entries are put
/// back afterwards, so the key depends on the store through the entropy
/// pool alone and the store is left as it was.
pub fn derive_viewing_key(storage: &mut MemoryStorage, env: Env, sender: &String) -> (token: String)
    ensures
        token@ == issued_token(storage_contents(*old(storage)), env, sender@),
        storage_contents(*final(storage)) == storage_contents(*old(storage)),
{
    let ghost before = storage_contents(*storage);
    let material = derivation_material(storage);
    let seed_key = seed_cell();
    let vault_key = vault_cell(sender);
    let saved_seed = storage_get(storage, &seed_key);
    let saved_vault = storage_get(storage, &vault_key);
    storage_remove(storage, &seed_key);
    let ghost unseeded = storage_contents(*storage);
    let token = viewing_key_create(storage, sender, env.height, env.time, &material);
    let ghost derived = storage_contents(*storage);
    restore(storage, &seed_key, saved_seed);
    restore(storage, &vault_key, saved_vault);
    proof {
        let after = storage_contents(*storage);
        assert(seed_slot()[0] == 118u8);
        assert(vault_slot(sender@)[0] == 0u8);
        assert(stored_seed(unseeded) =~= Seq::<u8>::empty());
        assert forall|key: Seq<u8>| #[trigger] after.dom().contains(key) == before.dom().contains(key)
            && (after.dom().contains(key) ==> after[key] == before[key]) by {
            if key != seed_slot() && key != vault_slot(sender@) {
                assert(derived.dom().contains(key) == unseeded.dom().contains(key));
            }
        }
        assert(after =~= before);
    }
    token
}

} // verus!
