use vstd::prelude::*;

use crate::contract::{answered, burned, created, instantiated, issued};
use crate::error::ContractError;
use crate::generator::issued_token;
use crate::keys::lemma_token_key_front;
use crate::ledger::{ledger_of, pool_of};
use crate::msg::{CardResponse, Env, Response};
use crate::state::CardView;

verus! {

/// A write request fails only where it is a burn of a record that is not
/// there, and a request that fails leaves every entry of the store as it
/// was.
pub proof fn law_writes_succeed(
    before: Map<Seq<u8>, Seq<u8>>,
    after: Map<Seq<u8>, Seq<u8>>,
    env: Env,
    sender: Seq<char>,
    index: u8,
    card: CardView,
    entropy: Seq<char>,
    result: Result<Response, ContractError>,
)
    ensures
        instantiated(before, after, entropy, result) ==> result is Ok,
        created(before, after, sender, index, card, result) ==> result is Ok,
        issued(before, after, env, sender, index, result) ==> result is Ok,
        burned(before, after, sender, index, result) ==> (result is Ok <==> ledger_of(
            before,
        ).has_record(sender, index)),
        burned(before, after, sender, index, result) && result is Err ==> after == before,
{
}

/// A record that has been created is read back as it was stored: the
/// ledger holds it at its owner and index, and a bearer of any viewing key
/// valid there is answered with it.
pub proof fn law_create_then_read(
    before: Map<Seq<u8>, Seq<u8>>,
    after: Map<Seq<u8>, Seq<u8>>,
    owner: Seq<char>,
    index: u8,
    card: CardView,
    creation: Result<Response, ContractError>,
    token: Seq<char>,
    answer: Result<CardResponse, ContractError>,
)
    requires
        created(before, after, owner, index, card, creation),
        ledger_of(after).verify(owner, index, token),
        answered(after, owner, index, token, answer),
    ensures
        creation is Ok,
        ledger_of(after).read(owner, index) == Some(card),
        answer matches Ok(response) && response.card@ == card,
{
}

/// Burning where no record is stored fails with `NotFound` and changes
/// nothing.
pub proof fn law_burn_of_nothing(
    before: Map<Seq<u8>, Seq<u8>>,
    after: Map<Seq<u8>, Seq<u8>>,
    owner: Seq<char>,
    index: u8,
    burning: Result<Response, ContractError>,
)
    requires
        !ledger_of(before).has_record(owner, index),
        burned(before, after, owner, index, burning),
    ensures
        burning == Err::<Response, ContractError>(ContractError::NotFound),
        after == before,
{
}

/// Burning a record that has just been created succeeds, and then no
/// record is left to read: a bearer of a valid viewing key is answered
/// `NotFound`.
pub proof fn law_create_then_burn(
    start: Map<Seq<u8>, Seq<u8>>,
    stored: Map<Seq<u8>, Seq<u8>>,
    end: Map<Seq<u8>, Seq<u8>>,
    owner: Seq<char>,
    index: u8,
    card: CardView,
    creation: Result<Response, ContractError>,
    burning: Result<Response, ContractError>,
    token: Seq<char>,
    answer: Result<CardResponse, ContractError>,
)
    requires
        created(start, stored, owner, index, card, creation),
        burned(stored, end, owner, index, burning),
        answered(end, owner, index, token, answer),
    ensures
        burning matches Ok(response) && response.is_empty(),
        ledger_of(end).read(owner, index) is None,
        ledger_of(end).verify(owner, index, token) ==> answer == Err::<
            CardResponse,
            ContractError,
        >(ContractError::NotFound),
{
}

/// A burn removes the sender's record at the index and no other: every
/// record of another owner, and every record at another index, is read
/// after it as before it.
pub proof fn law_burn_is_scoped(
    before: Map<Seq<u8>, Seq<u8>>,
    after: Map<Seq<u8>, Seq<u8>>,
    sender: Seq<char>,
    index: u8,
    burning: Result<Response, ContractError>,
    owner: Seq<char>,
    at: u8,
)
    requires
        burned(before, after, sender, index, burning),
        owner != sender || at != index,
    ensures
        ledger_of(after).read(owner, at) == ledger_of(before).read(owner, at),
{
}

/// A viewing key outlives the record it was issued for: once the record
/// is burnt the key still verifies, and its bearer is answered `NotFound`.
pub proof fn law_key_outlives_record(
    start: Map<Seq<u8>, Seq<u8>>,
    stored: Map<Seq<u8>, Seq<u8>>,
    keyed: Map<Seq<u8>, Seq<u8>>,
    end: Map<Seq<u8>, Seq<u8>>,
    env: Env,
    owner: Seq<char>,
    index: u8,
    card: CardView,
    creation: Result<Response, ContractError>,
    issuance: Result<Response, ContractError>,
    burning: Result<Response, ContractError>,
    answer: Result<CardResponse, ContractError>,
)
    requires
        created(start, stored, owner, index, card, creation),
        issued(stored, keyed, env, owner, index, issuance),
        burned(keyed, end, owner, index, burning),
        answered(end, owner, index, issued_token(stored, env, owner), answer),
    ensures
        burning is Ok,
        ledger_of(end).verify(owner, index, issued_token(stored, env, owner)),
        answer == Err::<CardResponse, ContractError>(ContractError::NotFound),
{
}

/// Creating over a record replaces it: the second of two creations at one
/// owner and index succeeds as the first does, and is the one that is
/// read.
pub proof fn law_overwrite(
    start: Map<Seq<u8>, Seq<u8>>,
    middle: Map<Seq<u8>, Seq<u8>>,
    end: Map<Seq<u8>, Seq<u8>>,
    owner: Seq<char>,
    index: u8,
    first: CardView,
    second: CardView,
    creation: Result<Response, ContractError>,
    replacement: Result<Response, ContractError>,
)
    requires
        created(start, middle, owner, index, first, creation),
        created(middle, end, owner, index, second, replacement),
    ensures
        replacement is Ok,
        ledger_of(end).read(owner, index) == Some(second),
{
}

/// A viewing key is bound to the owner and index it was issued for:
/// issuing one changes what is valid for no other owner and for no other
/// index. So the issued key fails there, unless it was valid there before.
pub proof fn law_token_scoping(
    before: Map<Seq<u8>, Seq<u8>>,
    after: Map<Seq<u8>, Seq<u8>>,
    env: Env,
    owner: Seq<char>,
    index: u8,
    issuance: Result<Response, ContractError>,
    other_owner: Seq<char>,
    other_index: u8,
    token: Seq<char>,
)
    requires
        issued(before, after, env, owner, index, issuance),
        other_owner != owner || other_index != index,
    ensures
        ledger_of(after).verify(other_owner, other_index, token) == ledger_of(before).verify(
            other_owner,
            other_index,
            token,
        ),
        !ledger_of(before).verify(other_owner, other_index, issued_token(before, env, owner))
            ==> !ledger_of(after).verify(
            other_owner,
            other_index,
            issued_token(before, env, owner),
        ),
{
}

/// Issuing a second viewing key for a record does not invalidate the
/// first: after both issuances both keys verify.
pub proof fn law_token_non_invalidation(
    start: Map<Seq<u8>, Seq<u8>>,
    middle: Map<Seq<u8>, Seq<u8>>,
    end: Map<Seq<u8>, Seq<u8>>,
    first_env: Env,
    second_env: Env,
    owner: Seq<char>,
    index: u8,
    first: Result<Response, ContractError>,
    second: Result<Response, ContractError>,
)
    requires
        issued(start, middle, first_env, owner, index, first),
        issued(middle, end, second_env, owner, index, second),
    ensures
        first is Ok,
        second is Ok,
        ledger_of(end).verify(owner, index, issued_token(start, first_env, owner)),
        ledger_of(end).verify(owner, index, issued_token(middle, second_env, owner)),
{
}

/// No write request takes a viewing key away: what verified before a
/// creation, a burn or an issuance verifies after it, whoever sent it and
/// however it ended.
pub proof fn law_tokens_persist(
    before: Map<Seq<u8>, Seq<u8>>,
    after: Map<Seq<u8>, Seq<u8>>,
    env: Env,
    sender: Seq<char>,
    at: u8,
    card: CardView,
    result: Result<Response, ContractError>,
    owner: Seq<char>,
    index: u8,
    token: Seq<char>,
)
    requires
        created(before, after, sender, at, card, result) || burned(before, after, sender, at, result)
            || issued(before, after, env, sender, at, result),
        ledger_of(before).verify(owner, index, token),
    ensures
        ledger_of(after).verify(owner, index, token),
{
}

/// An issuance writes the entry of the key it issues and nothing else:
/// every record is read after it as before it, and the entropy pool is as
/// it was.
pub proof fn law_issuance_keeps_records(
    before: Map<Seq<u8>, Seq<u8>>,
    after: Map<Seq<u8>, Seq<u8>>,
    env: Env,
    sender: Seq<char>,
    index: u8,
    issuance: Result<Response, ContractError>,
    owner: Seq<char>,
    at: u8,
)
    requires
        issued(before, after, env, sender, index, issuance),
    ensures
        ledger_of(after).read(owner, at) == ledger_of(before).read(owner, at),
        pool_of(after) == pool_of(before),
{
    lemma_token_key_front(sender, index, issued_token(before, env, sender));
}

/// The key that is issued depends on the store through the entropy pool
/// alone: two states with the same pool issue the same key to the same
/// sender in the same block, whatever records and keys they hold.
pub proof fn law_issuance_reads_only_the_pool(
    left: Map<Seq<u8>, Seq<u8>>,
    right: Map<Seq<u8>, Seq<u8>>,
    env: Env,
    sender: Seq<char>,
)
    requires
        pool_of(left) == pool_of(right),
    ensures
        issued_token(left, env, sender) == issued_token(right, env, sender),
{
}

/// Issuance is a function of the state and the request: two issuances
/// from one state, for one sender, index and block, hand back the same key
/// and leave the same state.
pub proof fn law_issuance_is_determined(
    before: Map<Seq<u8>, Seq<u8>>,
    left: Map<Seq<u8>, Seq<u8>>,
    right: Map<Seq<u8>, Seq<u8>>,
    env: Env,
    sender: Seq<char>,
    index: u8,
    first: Result<Response, ContractError>,
    second: Result<Response, ContractError>,
)
    requires
        issued(before, left, env, sender, index, first),
        issued(before, right, env, sender, index, second),
    ensures
        left == right,
        first matches Ok(response) && response.carries_viewing_key(
            issued_token(before, env, sender),
        ),
        second matches Ok(response) && response.carries_viewing_key(
            issued_token(before, env, sender),
        ),
{
}

/// A read with a viewing key that is not stored for the claimed owner and
/// index is answered `Unauthorized`, whether or not a record is there.
pub proof fn law_unauthorized_query(
    contents: Map<Seq<u8>, Seq<u8>>,
    owner: Seq<char>,
    index: u8,
    token: Seq<char>,
    answer: Result<CardResponse, ContractError>,
)
    requires
        !ledger_of(contents).verify(owner, index, token),
        answered(contents, owner, index, token, answer),
    ensures
        answer == Err::<CardResponse, ContractError>(ContractError::Unauthorized),
{
}

} // verus!
