use vstd::prelude::*;

verus! {

/// The error type of `cosmwasm_std`; it is carried through unopened.
#[verifier::external_type_specification]
#[verifier::external_body]
pub struct ExStdError(cosmwasm_std::StdError);

/// Everything a contract call can be refused with.
#[derive(Debug, PartialEq)]
pub enum ContractError {
    Std(cosmwasm_std::StdError),
    Unauthorized {},
    InvalidSubdenom { subdenom: String },
    InvalidDenom { denom: String, message: String },
    DenomDoesNotExist { denom: String },
    BurnFromAddressNotSupported { address: String },
    ZeroAmount {},
    InvalidCW20Message {},
    InvalidCW20Address {},
    OutOfFunds { request: u128, amount: u128 },
}

} // verus!
