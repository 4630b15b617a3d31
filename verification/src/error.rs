//! The error taxonomy shared by every operation of the contract.
//!
//! Every failure is a terminal business-rule violation surfaced directly to
//! the caller; nothing is retried internally.
use vstd::prelude::*;

verus! {

/// Everything that can go wrong in an execute, query, instantiate or migrate
/// call.
#[derive(Clone, Debug, PartialEq)]
pub enum ContractError {
    /// The sender's balance of the denomination is below the requested amount.
    InsufficientFunds,
    /// One or more request fields are malformed, or a transfer id is already
    /// taken.
    InvalidFields { fields: Vec<String> },
    /// The operation referenced a transfer id with no pending record.
    LoadTransferFailed,
    /// A generic error with a plain message.
    Std { msg: String },
    /// Native funds were attached to a call that must not carry any.
    SentFundsUnsupported,
    /// The caller does not hold the right the operation demands.
    Unauthorized,
    /// A migration would decrease the stored contract version.
    UnsupportedUpgrade { source_version: String, target_version: String },
    /// The denomination is not a restricted asset class.
    UnsupportedMarkerType,
    /// A migration would change the stored contract name.
    InvalidContractType,
}

/// The mathematical shape of a `ContractError`, with strings as character
/// sequences.
pub enum ErrorV {
    InsufficientFunds,
    InvalidFields { fields: Seq<Seq<char>> },
    LoadTransferFailed,
    Std { msg: Seq<char> },
    SentFundsUnsupported,
    Unauthorized,
    UnsupportedUpgrade { source_version: Seq<char>, target_version: Seq<char> },
    UnsupportedMarkerType,
    InvalidContractType,
}

impl View for ContractError {
    type V = ErrorV;

    open spec fn view(&self) -> ErrorV {
        match self {
            ContractError::InsufficientFunds => ErrorV::InsufficientFunds,
            ContractError::InvalidFields { fields } => ErrorV::InvalidFields {
                fields: fields@.map_values(|f: String| f@),
            },
            ContractError::LoadTransferFailed => ErrorV::LoadTransferFailed,
            ContractError::Std { msg } => ErrorV::Std { msg: msg@ },
            ContractError::SentFundsUnsupported => ErrorV::SentFundsUnsupported,
            ContractError::Unauthorized => ErrorV::Unauthorized,
            ContractError::UnsupportedUpgrade { source_version, target_version } =>
                ErrorV::UnsupportedUpgrade {
                    source_version: source_version@,
                    target_version: target_version@,
                },
            ContractError::UnsupportedMarkerType => ErrorV::UnsupportedMarkerType,
            ContractError::InvalidContractType => ErrorV::InvalidContractType,
        }
    }
}

/// A helper for creating generic contract errors.
pub fn contract_err(s: &str) -> (e: ContractError)
    ensures
        e@ == (ErrorV::Std { msg: s@ }),
{
    ContractError::Std { msg: s.to_owned() }
}

} // verus!
