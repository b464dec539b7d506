use vstd::prelude::*;

verus! {

/// A confidential record. Its fields are opaque text to the store.
#[derive(Clone, Debug, PartialEq, Eq)]
pub struct Card {
    pub name: String,
    pub address: String,
    pub phone: String,
}

/// What a [`Card`] holds, as sequences of characters.
pub struct CardView {
    pub name: Seq<char>,
    pub address: Seq<char>,
    pub phone: Seq<char>,
}

impl View for Card {
    type V = CardView;

    open spec fn view(&self) -> CardView {
        CardView { name: self.name@, address: self.address@, phone: self.phone@ }
    }
}

/// The bytes of `user cards`, the namespace of the records.
pub open spec fn user_cards_namespace() -> Seq<u8> {
    seq![117u8, 115u8, 101u8, 114u8, 32u8, 99u8, 97u8, 114u8, 100u8, 115u8]
}

/// The bytes of `card viewing key`, the namespace of the viewing keys.
pub open spec fn card_viewing_key_namespace() -> Seq<u8> {
    seq![
        99u8, 97u8, 114u8, 100u8, 32u8, 118u8, 105u8, 101u8, 119u8, 105u8, 110u8, 103u8, 32u8,
        107u8, 101u8, 121u8,
    ]
}

/// The bytes of `entropy`, the storage key of the entropy pool. They also
/// serve as the fixed label that every key derivation starts from.
pub open spec fn entropy_slot() -> Seq<u8> {
    seq![101u8, 110u8, 116u8, 114u8, 111u8, 112u8, 121u8]
}

/// The namespace of the records.
pub fn user_cards() -> (namespace: Vec<u8>)
    ensures
        namespace@ == user_cards_namespace(),
{
    let namespace: Vec<u8> = vec![117u8, 115u8, 101u8, 114u8, 32u8, 99u8, 97u8, 114u8, 100u8, 115u8];
    assert(namespace@ =~= user_cards_namespace());
    namespace
}

/// The namespace of the viewing keys.
pub fn card_viewing_key() -> (namespace: Vec<u8>)
    ensures
        namespace@ == card_viewing_key_namespace(),
{
    let namespace: Vec<u8> = vec![
        99u8, 97u8, 114u8, 100u8, 32u8, 118u8, 105u8, 101u8, 119u8, 105u8, 110u8, 103u8, 32u8,
        107u8, 101u8, 121u8,
    ];
    assert(namespace@ =~= card_viewing_key_namespace());
    namespace
}

/// The storage key of the entropy pool.
pub fn entropy() -> (key: Vec<u8>)
    ensures
        key@ == entropy_slot(),
{
    let key: Vec<u8> = vec![101u8, 110u8, 116u8, 114u8, 111u8, 112u8, 121u8];
    assert(key@ =~= entropy_slot());
    key
}

} // verus!
