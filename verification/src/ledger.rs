use vstd::prelude::*;

use crate::backend::record_of_bytes;
use crate::error::ContractError;
use crate::keys::{
    lemma_record_key_front, lemma_record_key_injective, lemma_token_key_front,
    lemma_token_key_injective, record_key, token_key, valid_owner,
};
use crate::state::{entropy_slot, CardView};

verus! {

/// What the store holds, seen from above the bytes: the live records, by
/// owner and index, and the valid viewing keys, each with the owner and
/// index it is bound to.
pub struct Ledger {
    pub records: Map<(Seq<char>, u8), CardView>,
    pub tokens: Set<(Seq<char>, u8, Seq<char>)>,
}

impl Ledger {
    /// Whether `owner` holds a record at `index`.
    pub open spec fn has_record(self, owner: Seq<char>, index: u8) -> bool {
        self.records.dom().contains((owner, index))
    }

    /// The record that `owner` holds at `index`, if any.
    pub open spec fn read(self, owner: Seq<char>, index: u8) -> Option<CardView> {
        if self.has_record(owner, index) {
            Some(self.records[(owner, index)])
        } else {
            None
        }
    }

    /// The ledger once `owner` has put `card` at `index`, over whatever
    /// was there.
    pub open spec fn create(self, owner: Seq<char>, index: u8, card: CardView) -> Ledger {
        Ledger { records: self.records.insert((owner, index), card), tokens: self.tokens }
    }

    /// The ledger without the record that `owner` holds at `index`. The
    /// viewing keys stay.
    pub open spec fn burn(self, owner: Seq<char>, index: u8) -> Ledger {
        Ledger { records: self.records.remove((owner, index)), tokens: self.tokens }
    }

    /// The ledger once `token` has been issued for the record that `owner`
    /// holds at `index`. Earlier viewing keys stay.
    pub open spec fn issue(self, owner: Seq<char>, index: u8, token: Seq<char>) -> Ledger {
        Ledger { records: self.records, tokens: self.tokens.insert((owner, index, token)) }
    }

    /// Whether `token` is a valid viewing key for the record that `owner`
    /// holds at `index`.
    pub open spec fn verify(self, owner: Seq<char>, index: u8, token: Seq<char>) -> bool {
        self.tokens.contains((owner, index, token))
    }

    /// The answer to a read of the record that `owner` holds at `index`
    /// by a bearer of `token`. The token is judged first: without a valid
    /// one the answer does not depend on the records.
    pub open spec fn query(self, owner: Seq<char>, index: u8, token: Seq<char>) -> Result<
        CardView,
        ContractError,
    > {
        if !self.verify(owner, index, token) {
            Err(ContractError::Unauthorized)
        } else {
            match self.read(owner, index) {
                Some(card) => Ok(card),
                None => Err(ContractError::NotFound),
            }
        }
    }
}

/// The record that a triple of texts stands for.
pub open spec fn card_of(triple: (Seq<char>, Seq<char>, Seq<char>)) -> CardView {
    CardView { name: triple.0, address: triple.1, phone: triple.2 }
}

/// The record that the entry of `contents` at `key` holds: none where no
/// entry is, and none where the entry does not read as a record.
pub open spec fn record_at(contents: Map<Seq<u8>, Seq<u8>>, key: Seq<u8>) -> Option<CardView> {
    if contents.dom().contains(key) {
        match record_of_bytes(contents[key]) {
            Some(triple) => Some(card_of(triple)),
            None => None,
        }
    } else {
        None
    }
}

/// The ledger that the backend entries `contents` stand for.
pub open spec fn ledger_of(contents: Map<Seq<u8>, Seq<u8>>) -> Ledger {
    Ledger {
        records: Map::new(
            |at: (Seq<char>, u8)|
                valid_owner(at.0) && record_at(contents, record_key(at.0, at.1)) is Some,
            |at: (Seq<char>, u8)| record_at(contents, record_key(at.0, at.1))->0,
        ),
        tokens: Set::new(
            |bound: (Seq<char>, u8, Seq<char>)|
                valid_owner(bound.0) && contents.dom().contains(
                    token_key(bound.0, bound.1, bound.2),
                ),
        ),
    }
}

/// The entropy pool as `contents` keeps it: the bytes of its cell, if the
/// cell has been written.
pub open spec fn pool_of(contents: Map<Seq<u8>, Seq<u8>>) -> Option<Seq<u8>> {
    if contents.dom().contains(entropy_slot()) {
        Some(contents[entropy_slot()])
    } else {
        None
    }
}

/// Whether `key` lies outside the two namespaces of the ledger.
pub open spec fn outside_ledger(key: Seq<u8>) -> bool {
    key.len() == 0 || (key[0] != 117u8 && key[0] != 99u8)
}

/// Whether `after` and `before` agree at every key inside the two
/// namespaces of the ledger.
pub open spec fn same_inside_ledger(
    after: Map<Seq<u8>, Seq<u8>>,
    before: Map<Seq<u8>, Seq<u8>>,
) -> bool {
    forall|key: Seq<u8>|
        #![trigger after.dom().contains(key)]
        #![trigger before.dom().contains(key)]
        !outside_ledger(key) ==> {
            &&& after.dom().contains(key) == before.dom().contains(key)
            &&& after.dom().contains(key) ==> after[key] == before[key]
        }
}

/// Entries outside the ledger's namespaces do not show in the ledger.
pub proof fn lemma_ledger_untouched(after: Map<Seq<u8>, Seq<u8>>, before: Map<Seq<u8>, Seq<u8>>)
    requires
        same_inside_ledger(after, before),
    ensures
        ledger_of(after) == ledger_of(before),
{
    assert forall|at: (Seq<char>, u8)|
        record_at(after, #[trigger] record_key(at.0, at.1)) == record_at(
            before,
            record_key(at.0, at.1),
        ) by {
        lemma_record_key_front(at.0, at.1);
        let key = record_key(at.0, at.1);
        assert(after.dom().contains(key) == before.dom().contains(key));
    }
    assert forall|bound: (Seq<char>, u8, Seq<char>)|
        after.dom().contains(#[trigger] token_key(bound.0, bound.1, bound.2))
            == before.dom().contains(token_key(bound.0, bound.1, bound.2)) by {
        lemma_token_key_front(bound.0, bound.1, bound.2);
    }
    assert(ledger_of(after).records =~= ledger_of(before).records);
    assert(ledger_of(after).tokens =~= ledger_of(before).tokens);
}

/// Writing the entry of a record changes that record in the ledger and
/// nothing else: no other owner's record, no other index, no viewing key.
pub proof fn lemma_record_written(
    contents: Map<Seq<u8>, Seq<u8>>,
    owner: Seq<char>,
    index: u8,
    bytes: Seq<u8>,
)
    requires
        valid_owner(owner),
    ensures
        record_of_bytes(bytes) is Some ==> ledger_of(
            contents.insert(record_key(owner, index), bytes),
        ) == ledger_of(contents).create(owner, index, card_of(record_of_bytes(bytes)->0)),
        record_of_bytes(bytes) is None ==> ledger_of(
            contents.insert(record_key(owner, index), bytes),
        ) == ledger_of(contents).burn(owner, index),
        pool_of(contents.insert(record_key(owner, index), bytes)) == pool_of(contents),
{
    let key = record_key(owner, index);
    let after = contents.insert(key, bytes);
    lemma_record_key_front(owner, index);
    assert forall|at: (Seq<char>, u8)| valid_owner(at.0) && at != (owner, index) implies record_at(
        after,
        #[trigger] record_key(at.0, at.1),
    ) == record_at(contents, record_key(at.0, at.1)) by {
        if record_key(at.0, at.1) == key {
            lemma_record_key_injective(at.0, at.1, owner, index);
        }
    }
    assert forall|bound: (Seq<char>, u8, Seq<char>)|
        after.dom().contains(#[trigger] token_key(bound.0, bound.1, bound.2))
            == contents.dom().contains(token_key(bound.0, bound.1, bound.2)) by {
        lemma_token_key_front(bound.0, bound.1, bound.2);
    }
    assert(ledger_of(after).tokens =~= ledger_of(contents).tokens);
    if record_of_bytes(bytes) is Some {
        let card = card_of(record_of_bytes(bytes)->0);
        assert(record_at(after, key) == Some(card));
        assert(ledger_of(after).records =~= ledger_of(contents).create(owner, index, card).records);
    } else {
        assert(record_at(after, key) is None);
        assert(ledger_of(after).records =~= ledger_of(contents).burn(owner, index).records);
    }
}

/// Removing the entry of a record removes that record from the ledger and
/// changes nothing else.
pub proof fn lemma_record_removed(contents: Map<Seq<u8>, Seq<u8>>, owner: Seq<char>, index: u8)
    requires
        valid_owner(owner),
    ensures
        ledger_of(contents.remove(record_key(owner, index))) == ledger_of(contents).burn(
            owner,
            index,
        ),
        pool_of(contents.remove(record_key(owner, index))) == pool_of(contents),
{
    let key = record_key(owner, index);
    let after = contents.remove(key);
    lemma_record_key_front(owner, index);
    assert forall|at: (Seq<char>, u8)| valid_owner(at.0) && at != (owner, index) implies record_at(
        after,
        #[trigger] record_key(at.0, at.1),
    ) == record_at(contents, record_key(at.0, at.1)) by {
        if record_key(at.0, at.1) == key {
            lemma_record_key_injective(at.0, at.1, owner, index);
        }
    }
    assert forall|bound: (Seq<char>, u8, Seq<char>)|
        after.dom().contains(#[trigger] token_key(bound.0, bound.1, bound.2))
            == contents.dom().contains(token_key(bound.0, bound.1, bound.2)) by {
        lemma_token_key_front(bound.0, bound.1, bound.2);
    }
    assert(record_at(after, key) is None);
    assert(ledger_of(after).tokens =~= ledger_of(contents).tokens);
    assert(ledger_of(after).records =~= ledger_of(contents).burn(owner, index).records);
}

/// Writing the entry of a viewing key adds that key to the ledger, bound
/// to its owner and index, and changes nothing else: it is valid for no
/// other owner and for no other index, and no earlier key is lost.
pub proof fn lemma_token_written(
    contents: Map<Seq<u8>, Seq<u8>>,
    owner: Seq<char>,
    index: u8,
    token: Seq<char>,
    value: Seq<u8>,
)
    requires
        valid_owner(owner),
    ensures
        ledger_of(contents.insert(token_key(owner, index, token), value)) == ledger_of(
            contents,
        ).issue(owner, index, token),
        pool_of(contents.insert(token_key(owner, index, token), value)) == pool_of(contents),
{
    let key = token_key(owner, index, token);
    let after = contents.insert(key, value);
    lemma_token_key_front(owner, index, token);
    assert forall|at: (Seq<char>, u8)|
        record_at(after, #[trigger] record_key(at.0, at.1)) == record_at(
            contents,
            record_key(at.0, at.1),
        ) by {
        lemma_record_key_front(at.0, at.1);
    }
    assert forall|bound: (Seq<char>, u8, Seq<char>)|
        valid_owner(bound.0) && bound != (owner, index, token) implies after.dom().contains(
            #[trigger] token_key(bound.0, bound.1, bound.2),
        ) == contents.dom().contains(token_key(bound.0, bound.1, bound.2)) by {
        if token_key(bound.0, bound.1, bound.2) == key {
            lemma_token_key_injective(bound.0, bound.1, bound.2, owner, index, token);
        }
    }
    assert(ledger_of(after).records =~= ledger_of(contents).records);
    assert(ledger_of(after).tokens =~= ledger_of(contents).issue(owner, index, token).tokens);
}

} // verus!
