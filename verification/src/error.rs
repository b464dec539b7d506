use vstd::prelude::*;

use secret_cosmwasm_std::StdError;

verus! {

/// The failures of the store. Each one ends the request it arose in.
#[derive(Debug, PartialEq)]
pub enum ContractError {
    /// No record is stored where one is needed.
    NotFound,
    /// The presented viewing key is not valid for the claimed owner and index.
    Unauthorized,
    /// The backend rejected a write. The backend's own error is kept as it came.
    BackendWrite(StdError),
}

} // verus!
