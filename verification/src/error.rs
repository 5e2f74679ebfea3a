use vstd::prelude::*;
use crate::address::Address;

verus! {

/// Errors the contract returns to its callers.
#[derive(Copy, Clone, Debug, PartialEq, Eq, Structural)]
pub enum PositionNftError {
    NotAuthorized,
    PositionNotFound,
    NotInitialized,
    Overflow,
}

/// The contract error code of each error.
pub open spec fn error_code(e: PositionNftError) -> u32 {
    match e {
        PositionNftError::NotAuthorized => 1,
        PositionNftError::PositionNotFound => 2,
        PositionNftError::NotInitialized => 3,
        PositionNftError::Overflow => 4,
    }
}

impl PositionNftError {
    /// The contract error code under which the ledger reports this error.
    pub fn code(&self) -> (c: u32)
        ensures
            c == error_code(*self),
    {
        match self {
            PositionNftError::NotAuthorized => 1,
            PositionNftError::PositionNotFound => 2,
            PositionNftError::NotInitialized => 3,
            PositionNftError::Overflow => 4,
        }
    }
}

#[verifier::external_type_specification]
#[verifier::external_body]
pub struct ExSdkError(soroban_sdk::Error);

/// The ledger error value that `soroban_sdk::Error::from_contract_error`
/// builds from a contract error code.
pub uninterp spec fn contract_error_value(code: u32) -> soroban_sdk::Error;

/// Calls `soroban_sdk::Error::from_contract_error`, which packs `code` with
/// the contract error type into a ledger error value and depends on `code`
/// alone. Nothing more of the value is stated here.
#[verifier::external_body]
fn contract_error(code: u32) -> (e: soroban_sdk::Error)
    ensures
        e == contract_error_value(code),
{
    soroban_sdk::Error::from_contract_error(code)
}

/// The ledger error under which the contract reports `e`: the contract
/// error carrying `e`'s code.
pub fn sdk_error(e: PositionNftError) -> (r: soroban_sdk::Error)
    ensures
        r == contract_error_value(error_code(e)),
{
    contract_error(e.code())
}

/// Why an invocation that changes state failed: the contract returned an
/// error, or an address whose authorization the call requires did not sign
/// it (the ledger then aborts the invocation).
#[derive(Copy, Clone, Debug, PartialEq, Eq, Structural)]
pub enum InvokeError {
    Contract(PositionNftError),
    AuthRequired(Address),
}

} // verus!
