use vstd::prelude::*;
use vstd::utf8::encode_utf8;

use crate::encoding::{
    append, bincode_text, lemma_bincode_text_injective, lemma_cancel_front,
    lemma_length_prefixed_cancel, lemma_utf8_injective, length_prefixed, to_length_prefixed,
    MAX_SUFFIX_LEN,
};
use crate::state::{card_viewing_key, card_viewing_key_namespace, user_cards, user_cards_namespace};

verus! {

/// A key prefix that sets one keyed map apart from every other.
pub struct Namespace {
    pub prefix: Vec<u8>,
}

impl Namespace {
    /// The namespace that starts at `base`.
    pub fn new(base: Vec<u8>) -> (namespace: Namespace)
        ensures
            namespace.prefix@ == base@,
    {
        Namespace { prefix: base }
    }

    /// The sub-namespace of `self` that `suffix` selects.
    pub fn add_suffix(&self, suffix: &[u8]) -> (namespace: Namespace)
        requires
            suffix@.len() <= MAX_SUFFIX_LEN,
        ensures
            namespace.prefix@ == sub_namespace(self.prefix@, suffix@),
    {
        let mut prefix: Vec<u8> = Vec::new();
        append(&mut prefix, self.prefix.as_slice());
        let tail = to_length_prefixed(suffix);
        append(&mut prefix, tail.as_slice());
        assert(prefix@ =~= sub_namespace(self.prefix@, suffix@));
        Namespace { prefix }
    }
}

/// The prefix of the sub-namespace that `suffix` selects under `prefix`.
pub open spec fn sub_namespace(prefix: Seq<u8>, suffix: Seq<u8>) -> Seq<u8> {
    prefix + length_prefixed(suffix)
}

/// The prefix that a chain of suffixes, applied one after the other,
/// selects under `base`.
pub open spec fn namespace_prefix(base: Seq<u8>, chain: Seq<Seq<u8>>) -> Seq<u8>
    decreases chain.len(),
{
    if chain.len() == 0 {
        base
    } else {
        sub_namespace(namespace_prefix(base, chain.drop_last()), chain.last())
    }
}

/// Whether every suffix of `chain` is short enough to be length-prefixed.
pub open spec fn valid_chain(chain: Seq<Seq<u8>>) -> bool {
    forall|i: int| 0 <= i < chain.len() ==> (#[trigger] chain[i]).len() <= MAX_SUFFIX_LEN
}

/// Sub-namespaces of equal depth under one base share no key: where a key
/// of one equals a key of the other, the two suffix chains are the same
/// chain and the two keys were made from the same key.
pub proof fn law_namespaces_disjoint(
    base: Seq<u8>,
    first: Seq<Seq<u8>>,
    first_key: Seq<u8>,
    second: Seq<Seq<u8>>,
    second_key: Seq<u8>,
)
    requires
        valid_chain(first),
        valid_chain(second),
        first.len() == second.len(),
        namespace_prefix(base, first) + first_key == namespace_prefix(base, second) + second_key,
    ensures
        first == second,
        first_key == second_key,
    decreases first.len(),
{
    if first.len() == 0 {
        lemma_cancel_front(base, first_key, second_key);
        assert(first =~= second);
    } else {
        let x = length_prefixed(first.last()) + first_key;
        let y = length_prefixed(second.last()) + second_key;
        assert(namespace_prefix(base, first) + first_key =~= namespace_prefix(
            base,
            first.drop_last(),
        ) + x);
        assert(namespace_prefix(base, second) + second_key =~= namespace_prefix(
            base,
            second.drop_last(),
        ) + y);
        law_namespaces_disjoint(base, first.drop_last(), x, second.drop_last(), y);
        lemma_length_prefixed_cancel(first.last(), first_key, second.last(), second_key);
        assert(first =~= first.drop_last().push(first.last()));
        assert(second =~= second.drop_last().push(second.last()));
    }
}

/// An owner identity that a sub-namespace can be made for.
pub open spec fn valid_owner(owner: Seq<char>) -> bool {
    encode_utf8(owner).len() <= MAX_SUFFIX_LEN
}

/// The prefix under which the records of `owner` are stored.
pub open spec fn record_prefix(owner: Seq<char>) -> Seq<u8> {
    sub_namespace(user_cards_namespace(), encode_utf8(owner))
}

/// The storage key of the record that `owner` holds at `index`.
pub open spec fn record_key(owner: Seq<char>, index: u8) -> Seq<u8> {
    record_prefix(owner) + seq![index]
}

/// The prefix under which the viewing keys for the record that `owner`
/// holds at `index` are stored.
pub open spec fn token_prefix(owner: Seq<char>, index: u8) -> Seq<u8> {
    sub_namespace(sub_namespace(card_viewing_key_namespace(), encode_utf8(owner)), seq![index])
}

/// The storage key of the viewing key `token` for the record that `owner`
/// holds at `index`.
pub open spec fn token_key(owner: Seq<char>, index: u8, token: Seq<char>) -> Seq<u8> {
    token_prefix(owner, index) + bincode_text(token)
}

/// Whether `owner` can be given a sub-namespace.
pub fn is_valid_owner(owner: &String) -> (valid: bool)
    ensures
        valid == valid_owner(owner@),
{
    owner.as_str().as_bytes().len() <= MAX_SUFFIX_LEN
}

/// The namespace of the records of `owner`.
pub fn record_namespace(owner: &String) -> (namespace: Namespace)
    requires
        valid_owner(owner@),
    ensures
        namespace.prefix@ == record_prefix(owner@),
{
    Namespace::new(user_cards()).add_suffix(owner.as_str().as_bytes())
}

/// The namespace of the viewing keys for the record that `owner` holds at
/// `index`.
pub fn token_namespace(owner: &String, index: u8) -> (namespace: Namespace)
    requires
        valid_owner(owner@),
    ensures
        namespace.prefix@ == token_prefix(owner@, index),
{
    let suffix: Vec<u8> = vec![index];
    assert(suffix@ =~= seq![index]);
    Namespace::new(card_viewing_key()).add_suffix(owner.as_str().as_bytes()).add_suffix(
        suffix.as_slice(),
    )
}

/// Every record key starts with the first byte of the records' namespace.
pub proof fn lemma_record_key_front(owner: Seq<char>, index: u8)
    ensures
        record_key(owner, index).len() > 0,
        record_key(owner, index)[0] == 117u8,
{
}

/// Every viewing-key key starts with the first byte of the viewing keys'
/// namespace.
pub proof fn lemma_token_key_front(owner: Seq<char>, index: u8, token: Seq<char>)
    ensures
        token_key(owner, index, token).len() > 0,
        token_key(owner, index, token)[0] == 99u8,
{
}

/// The records of an owner live in the sub-namespace that the owner's
/// identity selects under the records' namespace.
pub proof fn lemma_record_prefix_chain(owner: Seq<char>)
    ensures
        record_prefix(owner) == namespace_prefix(
            user_cards_namespace(),
            seq![encode_utf8(owner)],
        ),
{
    let chain = seq![encode_utf8(owner)];
    assert(chain.drop_last() =~= Seq::<Seq<u8>>::empty());
    assert(namespace_prefix(user_cards_namespace(), chain.drop_last()) == user_cards_namespace());
}

/// The viewing keys for a record live in the sub-namespace that the
/// owner's identity and then the index select under the viewing keys'
/// namespace.
pub proof fn lemma_token_prefix_chain(owner: Seq<char>, index: u8)
    ensures
        token_prefix(owner, index) == namespace_prefix(
            card_viewing_key_namespace(),
            seq![encode_utf8(owner), seq![index]],
        ),
{
    let base = card_viewing_key_namespace();
    let chain = seq![encode_utf8(owner), seq![index]];
    let front = seq![encode_utf8(owner)];
    assert(chain.drop_last() =~= front);
    assert(front.drop_last() =~= Seq::<Seq<u8>>::empty());
    assert(namespace_prefix(base, front.drop_last()) == base);
    assert(namespace_prefix(base, front) == sub_namespace(base, encode_utf8(owner)));
}

/// Two records share a storage key only if they share owner and index.
pub proof fn lemma_record_key_injective(o1: Seq<char>, i1: u8, o2: Seq<char>, i2: u8)
    requires
        valid_owner(o1),
        valid_owner(o2),
        record_key(o1, i1) == record_key(o2, i2),
    ensures
        o1 == o2,
        i1 == i2,
{
    let first = seq![encode_utf8(o1)];
    let second = seq![encode_utf8(o2)];
    lemma_record_prefix_chain(o1);
    lemma_record_prefix_chain(o2);
    law_namespaces_disjoint(user_cards_namespace(), first, seq![i1], second, seq![i2]);
    assert(first[0] == second[0]);
    lemma_utf8_injective(o1, o2);
    assert(seq![i1][0] == seq![i2][0]);
}

/// Two viewing keys share a storage key only if they share owner, index
/// and token: no owner's keys, and no record's keys, reach into another's.
pub proof fn lemma_token_key_injective(
    o1: Seq<char>,
    i1: u8,
    t1: Seq<char>,
    o2: Seq<char>,
    i2: u8,
    t2: Seq<char>,
)
    requires
        valid_owner(o1),
        valid_owner(o2),
        token_key(o1, i1, t1) == token_key(o2, i2, t2),
    ensures
        o1 == o2,
        i1 == i2,
        t1 == t2,
{
    let first = seq![encode_utf8(o1), seq![i1]];
    let second = seq![encode_utf8(o2), seq![i2]];
    lemma_token_prefix_chain(o1, i1);
    lemma_token_prefix_chain(o2, i2);
    law_namespaces_disjoint(
        card_viewing_key_namespace(),
        first,
        bincode_text(t1),
        second,
        bincode_text(t2),
    );
    assert(first[0] == second[0]);
    assert(first[1] == second[1]);
    lemma_utf8_injective(o1, o2);
    assert(seq![i1][0] == seq![i2][0]);
    lemma_bincode_text_injective(t1, t2);
}

} // verus!
