use vstd::prelude::*;

use secret_cosmwasm_std::{MemoryStorage, StdError};

use crate::backend::{
    item_save_text, keymap_get_record, keymap_has_token, keymap_put_record, keymap_put_token,
    keymap_remove_record, storage_contents,
};
use crate::encoding::{bincode_flag, bincode_record, bincode_text};
use crate::error::ContractError;
use crate::generator::{derive_viewing_key, issued_token};
use crate::keys::{
    is_valid_owner, record_key, record_namespace, token_key, token_namespace, valid_owner,
};
use crate::ledger::{
    ledger_of, lemma_ledger_untouched, lemma_record_removed, lemma_record_written,
    lemma_token_written, pool_of, same_inside_ledger,
};
use crate::msg::{CardResponse, Env, ExecuteMsg, InstantiateMsg, MessageInfo, QueryMsg, Response};
use crate::state::{entropy, entropy_slot, Card, CardView};

verus! {

/// What [`instantiate`] owes: success, and the pool's cell holding
/// `entropy`, with no other entry changed.
pub open spec fn instantiated(
    before: Map<Seq<u8>, Seq<u8>>,
    after: Map<Seq<u8>, Seq<u8>>,
    entropy: Seq<char>,
    result: Result<Response, ContractError>,
) -> bool {
    &&& result matches Ok(response) && response.is_empty()
    &&& after == before.insert(entropy_slot(), bincode_text(entropy))
}

/// What [`try_create_card`] owes: success, and the record at its key, over
/// whatever stood there, with no other entry changed.
pub open spec fn created(
    before: Map<Seq<u8>, Seq<u8>>,
    after: Map<Seq<u8>, Seq<u8>>,
    sender: Seq<char>,
    index: u8,
    card: CardView,
    result: Result<Response, ContractError>,
) -> bool {
    &&& result matches Ok(response) && response.is_empty()
    &&& after == before.insert(
        record_key(sender, index),
        bincode_record(card.name, card.address, card.phone),
    )
    &&& ledger_of(after) == ledger_of(before).create(sender, index, card)
}

/// What [`try_burn_card`] owes: `NotFound` and no change where the sender
/// holds no record at `index`; else success, and the record's entry gone,
/// with no other entry changed.
pub open spec fn burned(
    before: Map<Seq<u8>, Seq<u8>>,
    after: Map<Seq<u8>, Seq<u8>>,
    sender: Seq<char>,
    index: u8,
    result: Result<Response, ContractError>,
) -> bool {
    if ledger_of(before).has_record(sender, index) {
        &&& result matches Ok(response) && response.is_empty()
        &&& after == before.remove(record_key(sender, index))
        &&& ledger_of(after) == ledger_of(before).burn(sender, index)
    } else {
        result == Err::<Response, ContractError>(ContractError::NotFound) && after == before
    }
}

/// What [`try_generate_viewing_key`] owes: success, the derived key as the
/// response's attribute, and the key's entry written, with no other entry
/// changed.
pub open spec fn issued(
    before: Map<Seq<u8>, Seq<u8>>,
    after: Map<Seq<u8>, Seq<u8>>,
    env: Env,
    sender: Seq<char>,
    index: u8,
    result: Result<Response, ContractError>,
) -> bool {
    let token = issued_token(before, env, sender);
    &&& result matches Ok(response) && response.carries_viewing_key(token)
    &&& after == before.insert(token_key(sender, index, token), bincode_flag(true))
    &&& ledger_of(after) == ledger_of(before).issue(sender, index, token)
}

/// Whether `result` is the answer that the state `contents` owes to a read
/// of the record of `wallet` at `index` by a bearer of `token`.
pub open spec fn answered(
    contents: Map<Seq<u8>, Seq<u8>>,
    wallet: Seq<char>,
    index: u8,
    token: Seq<char>,
    result: Result<CardResponse, ContractError>,
) -> bool {
    match ledger_of(contents).query(wallet, index, token) {
        Ok(card) => result matches Ok(response) && response.card@ == card,
        Err(error) => result == Err::<CardResponse, ContractError>(error),
    }
}

/// The result of a write request whose one backend write came back with
/// `outcome`: an empty response, or the backend's error as it came.
pub fn write_outcome(outcome: Result<(), StdError>) -> (result: Result<Response, ContractError>)
    ensures
        match outcome {
            Ok(_) => result matches Ok(response) && response.is_empty(),
            Err(error) => result == Err::<Response, ContractError>(
                ContractError::BackendWrite(error),
            ),
        },
{
    match outcome {
        Ok(_) => Ok(Response::new()),
        Err(error) => Err(ContractError::BackendWrite(error)),
    }
}

/// The result of issuing `token` when the write of its entry came back
/// with `outcome`: the token as the response's attribute, or the backend's
/// error as it came.
pub fn issue_outcome(outcome: Result<(), StdError>, token: String) -> (result: Result<
    Response,
    ContractError,
>)
    ensures
        match outcome {
            Ok(_) => result matches Ok(response) && response.carries_viewing_key(token@),
            Err(error) => result == Err::<Response, ContractError>(
                ContractError::BackendWrite(error),
            ),
        },
{
    match outcome {
        Ok(_) => Ok(Response::new().add_attribute("viewing_key".to_owned(), token)),
        Err(error) => Err(ContractError::BackendWrite(error)),
    }
}

/// Sets the entropy pool to the seed material of `msg`.
pub fn instantiate(
    storage: &mut MemoryStorage,
    _env: Env,
    _info: MessageInfo,
    msg: InstantiateMsg,
) -> (result: Result<Response, ContractError>)
    ensures
        instantiated(
            storage_contents(*old(storage)),
            storage_contents(*final(storage)),
            msg.entropy@,
            result,
        ),
        ledger_of(storage_contents(*final(storage))) == ledger_of(storage_contents(*old(storage))),
{
    let ghost before = storage_contents(*storage);
    let key = entropy();
    let outcome = item_save_text(storage, &key, &msg.entropy);
    proof {
        let after = storage_contents(*storage);
        assert(entropy_slot()[0] == 101u8);
        assert(same_inside_ledger(after, before));
        lemma_ledger_untouched(after, before);
    }
    write_outcome(outcome)
}

/// Carries out one write request of the sender that `info` names.
pub fn execute(storage: &mut MemoryStorage, env: Env, info: MessageInfo, msg: ExecuteMsg) -> (result:
    Result<Response, ContractError>)
    requires
        msg is Burn || valid_owner(info.sender@),
    ensures
        match msg {
            ExecuteMsg::Create { card, index } => created(
                storage_contents(*old(storage)),
                storage_contents(*final(storage)),
                info.sender@,
                index,
                card@,
                result,
            ),
            ExecuteMsg::Burn { index } => burned(
                storage_contents(*old(storage)),
                storage_contents(*final(storage)),
                info.sender@,
                index,
                result,
            ),
            ExecuteMsg::GenerateViewingKey { index } => issued(
                storage_contents(*old(storage)),
                storage_contents(*final(storage)),
                env,
                info.sender@,
                index,
                result,
            ),
        },
        pool_of(storage_contents(*final(storage))) == pool_of(storage_contents(*old(storage))),
{
    match msg {
        ExecuteMsg::Create { card, index } => try_create_card(storage, info, card, index),
        ExecuteMsg::Burn { index } => try_burn_card(storage, info, index),
        ExecuteMsg::GenerateViewingKey { index } => try_generate_viewing_key(
            storage,
            env,
            info,
            index,
        ),
    }
}

/// Stores `card` as the sender's record at `index`, over whatever record
/// the sender held there.
pub fn try_create_card(storage: &mut MemoryStorage, info: MessageInfo, card: Card, index: u8) -> (result:
    Result<Response, ContractError>)
    requires
        valid_owner(info.sender@),
    ensures
        created(
            storage_contents(*old(storage)),
            storage_contents(*final(storage)),
            info.sender@,
            index,
            card@,
            result,
        ),
        pool_of(storage_contents(*final(storage))) == pool_of(storage_contents(*old(storage))),
{
    let ghost before = storage_contents(*storage);
    let namespace = record_namespace(&info.sender);
    let outcome = keymap_put_record(storage, &namespace.prefix, index, &card);
    proof {
        lemma_record_written(
            before,
            info.sender@,
            index,
            bincode_record(card.name@, card.address@, card.phone@),
        );
    }
    write_outcome(outcome)
}

/// Removes the sender's record at `index`.
pub fn try_burn_card(storage: &mut MemoryStorage, info: MessageInfo, index: u8) -> (result: Result<
    Response,
    ContractError,
>)
    ensures
        burned(
            storage_contents(*old(storage)),
            storage_contents(*final(storage)),
            info.sender@,
            index,
            result,
        ),
        pool_of(storage_contents(*final(storage))) == pool_of(storage_contents(*old(storage))),
{
    if !is_valid_owner(&info.sender) {
        return Err(ContractError::NotFound);
    }
    let ghost before = storage_contents(*storage);
    let namespace = record_namespace(&info.sender);
    match keymap_get_record(storage, &namespace.prefix, index) {
        Some(_) => {
            let outcome = keymap_remove_record(storage, &namespace.prefix, index);
            proof {
                lemma_record_removed(before, info.sender@, index);
            }
            write_outcome(outcome)
        },
        None => Err(ContractError::NotFound),
    }
}

/// Issues a viewing key for the sender's record at `index` and hands it
/// back as the attribute `viewing_key` of the response. Keys issued
/// earlier stay valid.
pub fn try_generate_viewing_key(
    storage: &mut MemoryStorage,
    env: Env,
    info: MessageInfo,
    index: u8,
) -> (result: Result<Response, ContractError>)
    requires
        valid_owner(info.sender@),
    ensures
        issued(
            storage_contents(*old(storage)),
            storage_contents(*final(storage)),
            env,
            info.sender@,
            index,
            result,
        ),
        pool_of(storage_contents(*final(storage))) == pool_of(storage_contents(*old(storage))),
{
    let ghost before = storage_contents(*storage);
    let namespace = token_namespace(&info.sender, index);
    let token = derive_viewing_key(storage, env, &info.sender);
    let outcome = keymap_put_token(storage, &namespace.prefix, &token, true);
    proof {
        lemma_token_written(before, info.sender@, index, token@, bincode_flag(true));
    }
    issue_outcome(outcome, token)
}

/// Whether `token` is a valid viewing key for the record that `owner`
/// holds at `index`: whether its entry is stored.
///
/// The check is one lookup of the whole storage key, which ends in the
/// token, in the backend's ordered map. It is not constant-time: the map
/// compares keys byte by byte and stops at the first byte that differs,
/// so the time of a failed lookup can tell how long a prefix of the
/// presented token agrees with a stored one. The backend gives no
/// guarantee against that, and no clause of the contract speaks of time.
pub fn verify_viewing_key(storage: &MemoryStorage, owner: &String, index: u8, token: &String) -> (valid:
    bool)
    ensures
        valid == ledger_of(storage_contents(*storage)).verify(owner@, index, token@),
{
    if !is_valid_owner(owner) {
        return false;
    }
    let namespace = token_namespace(owner, index);
    keymap_has_token(storage, &namespace.prefix, token)
}

/// The record that `owner` holds at `index`. No authorization is checked
/// here.
pub fn read_card(storage: &MemoryStorage, owner: &String, index: u8) -> (result: Result<
    Card,
    ContractError,
>)
    ensures
        match ledger_of(storage_contents(*storage)).read(owner@, index) {
            Some(card) => result matches Ok(found) && found@ == card,
            None => result == Err::<Card, ContractError>(ContractError::NotFound),
        },
{
    if !is_valid_owner(owner) {
        return Err(ContractError::NotFound);
    }
    let namespace = record_namespace(owner);
    match keymap_get_record(storage, &namespace.prefix, index) {
        Some(card) => Ok(card),
        None => Err(ContractError::NotFound),
    }
}

/// Answers one read request.
pub fn query(storage: &MemoryStorage, _env: Env, msg: QueryMsg) -> (result: Result<
    CardResponse,
    ContractError,
>)
    ensures
        match msg {
            QueryMsg::GetCard { wallet, viewing_key, index } => answered(
                storage_contents(*storage),
                wallet@,
                index,
                viewing_key@,
                result,
            ),
        },
{
    match msg {
        QueryMsg::GetCard { wallet, viewing_key, index } => query_card(
            storage,
            wallet,
            viewing_key,
            index,
        ),
    }
}

/// The record of `wallet` at `index`, for a bearer of `viewing_key`. The
/// key is checked first: without a valid one the answer is `Unauthorized`,
/// whether or not the record exists.
pub fn query_card(storage: &MemoryStorage, wallet: String, viewing_key: String, index: u8) -> (result:
    Result<CardResponse, ContractError>)
    ensures
        answered(storage_contents(*storage), wallet@, index, viewing_key@, result),
{
    if verify_viewing_key(storage, &wallet, index, &viewing_key) {
        match read_card(storage, &wallet, index) {
            Ok(card) => Ok(CardResponse { card }),
            Err(error) => Err(error),
        }
    } else {
        Err(ContractError::Unauthorized)
    }
}

} // verus!
