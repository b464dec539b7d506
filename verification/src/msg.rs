use vstd::prelude::*;

use crate::state::Card;

verus! {

/// Who sent a write request, as the host attests it.
#[derive(Clone, Debug, PartialEq, Eq)]
pub struct MessageInfo {
    pub sender: String,
}

/// The block a request runs in: its height, and its time in nanoseconds
/// since the epoch.
#[derive(Clone, Copy, Debug, PartialEq, Eq)]
pub struct Env {
    pub height: u64,
    pub time: u64,
}

/// The one-time setup request: the seed material of the entropy pool.
#[derive(Clone, Debug, PartialEq, Eq)]
pub struct InstantiateMsg {
    pub entropy: String,
}

/// A write request. The host has authenticated its sender.
#[derive(Clone, Debug, PartialEq, Eq)]
pub enum ExecuteMsg {
    Create { card: Card, index: u8 },
    Burn { index: u8 },
    GenerateViewingKey { index: u8 },
}

/// A read request. Nothing vouches for it but the viewing key it carries.
#[derive(Clone, Debug, PartialEq, Eq)]
pub enum QueryMsg {
    GetCard { wallet: String, viewing_key: String, index: u8 },
}

/// The answer to an attestation lookup.
#[derive(Clone, Debug, PartialEq, Eq)]
pub struct AttestationResponse {
    pub uid: String,
}

/// The answer to [`QueryMsg::GetCard`].
#[derive(Clone, Debug, PartialEq, Eq)]
pub struct CardResponse {
    pub card: Card,
}

/// One key-value attribute of a [`Response`].
#[derive(Clone, Debug, PartialEq, Eq)]
pub struct Attribute {
    pub key: String,
    pub value: String,
}

/// What a write request hands back to its sender.
#[derive(Clone, Debug, PartialEq, Eq)]
pub struct Response {
    pub attributes: Vec<Attribute>,
}

/// The name of the attribute that carries a freshly issued viewing key.
pub open spec fn viewing_key_attribute() -> Seq<char> {
    "viewing_key"@
}

impl Response {
    /// Whether the response carries no attribute.
    pub open spec fn is_empty(&self) -> bool {
        self.attributes@.len() == 0
    }

    /// Whether the response carries `token` as its one attribute, under
    /// the name `viewing_key`.
    pub open spec fn carries_viewing_key(&self, token: Seq<char>) -> bool {
        &&& self.attributes@.len() == 1
        &&& self.attributes@[0].key@ == viewing_key_attribute()
        &&& self.attributes@[0].value@ == token
    }

    /// A response without attributes.
    pub fn new() -> (response: Response)
        ensures
            response.is_empty(),
    {
        Response { attributes: Vec::new() }
    }

    /// The response extended by one attribute.
    pub fn add_attribute(self, key: String, value: String) -> (response: Response)
        ensures
            response.attributes@ == self.attributes@.push(Attribute { key, value }),
    {
        let mut attributes = self.attributes;
        attributes.push(Attribute { key, value });
        Response { attributes }
    }
}

impl Default for Response {
    fn default() -> (response: Response)
        ensures
            response.is_empty(),
    {
        Response::new()
    }
}

} // verus!
