//! The operation payloads and their field-presence validation.
//!
//! Validation only inspects the payload itself: ids must be well-formed
//! UUIDs, amounts positive, denominations and recipients non-empty. Every
//! violation is collected and reported in one `InvalidFields` error.
use vstd::prelude::*;

use crate::error::{ContractError, ErrorV};

verus! {

/// The instantiate payload: the contract's configured name.
#[derive(Clone, Debug, PartialEq)]
pub struct InstantiateMsg {
    pub name: String,
}

/// The migrate payload. It carries nothing; migration is driven by the stored
/// version data.
#[derive(Clone, Debug, PartialEq)]
pub struct MigrateMsg {}

/// An execute operation: create a transfer, or resolve a pending one.
#[derive(Debug, PartialEq)]
pub enum ExecuteMsg {
    ApproveTransfer { id: String },
    CancelTransfer { id: String },
    RejectTransfer { id: String },
    Transfer { id: String, denom: String, amount: u128, recipient: String },
}

/// A query operation: read-only lookups.
#[derive(Debug, PartialEq)]
pub enum QueryMsg {
    GetTransfer { id: String },
    GetContractInfo {},
    GetVersionInfo {},
}

/// Whether a string is a well-formed UUID. The exact grammar belongs to the
/// uuid crate; the library only relies on the answer being a function of the
/// characters alone.
pub uninterp spec fn uuid_parses(s: Seq<char>) -> bool;

/// Relies on `uuid::Uuid::parse_str`: whether a string parses as a UUID
/// depends on its characters alone.
#[verifier::external_body]
fn is_valid_uuid(s: &str) -> (r: bool)
    ensures
        r == uuid_parses(s@),
{
    match uuid::Uuid::parse_str(s) {
        Ok(_) => true,
        Err(_) => false,
    }
}

/// The field names an `InstantiateMsg` is rejected over, in reporting order.
pub open spec fn instantiate_invalid_fields(msg: InstantiateMsg) -> Seq<Seq<char>> {
    if msg.name@.len() == 0 {
        seq!["name"@]
    } else {
        Seq::<Seq<char>>::empty()
    }
}

/// The field names an `ExecuteMsg` is rejected over, in reporting order.
pub open spec fn execute_invalid_fields(msg: ExecuteMsg) -> Seq<Seq<char>> {
    match msg {
        ExecuteMsg::ApproveTransfer { id } => if uuid_parses(id@) {
            Seq::<Seq<char>>::empty()
        } else {
            seq!["id"@]
        },
        ExecuteMsg::CancelTransfer { id } => if uuid_parses(id@) {
            Seq::<Seq<char>>::empty()
        } else {
            seq!["id"@]
        },
        ExecuteMsg::RejectTransfer { id } => if uuid_parses(id@) {
            Seq::<Seq<char>>::empty()
        } else {
            seq!["id"@]
        },
        ExecuteMsg::Transfer { id, denom, amount, recipient } => (if uuid_parses(id@) {
            Seq::<Seq<char>>::empty()
        } else {
            seq!["id"@]
        }) + (if amount >= 1 {
            Seq::<Seq<char>>::empty()
        } else {
            seq!["amount"@]
        }) + (if denom@.len() != 0 {
            Seq::<Seq<char>>::empty()
        } else {
            seq!["denom"@]
        }) + (if recipient@.len() != 0 {
            Seq::<Seq<char>>::empty()
        } else {
            seq!["recipient"@]
        }),
    }
}

/// The field names a `QueryMsg` is rejected over, in reporting order.
pub open spec fn query_invalid_fields(msg: QueryMsg) -> Seq<Seq<char>> {
    match msg {
        QueryMsg::GetTransfer { id } => if uuid_parses(id@) {
            Seq::<Seq<char>>::empty()
        } else {
            seq!["id"@]
        },
        QueryMsg::GetContractInfo {} => Seq::<Seq<char>>::empty(),
        QueryMsg::GetVersionInfo {} => Seq::<Seq<char>>::empty(),
    }
}

/// The view of a collected invalid-field list.
pub open spec fn fields_view(fields: Seq<String>) -> Seq<Seq<char>> {
    fields.map_values(|f: String| f@)
}

impl InstantiateMsg {
    /// Validates the payload: the configured name must be non-empty.
    pub fn validate(&self) -> (r: Result<(), ContractError>)
        ensures
            r is Ok <==> instantiate_invalid_fields(*self).len() == 0,
            r matches Err(e) ==> e@ == (ErrorV::InvalidFields {
                fields: instantiate_invalid_fields(*self),
            }),
    {
        if self.name.as_str().is_empty() {
            let e = ContractError::InvalidFields { fields: vec!["name".to_owned()] };
            proof {
                assert(e@ matches ErrorV::InvalidFields { fields } && fields
                    =~= instantiate_invalid_fields(*self));
            }
            Err(e)
        } else {
            Ok(())
        }
    }
}

impl ExecuteMsg {
    /// Validates the payload: ids must be well-formed UUIDs; a create must
    /// also carry a positive amount, a denomination and a recipient.
    pub fn validate(&self) -> (r: Result<(), ContractError>)
        ensures
            r is Ok <==> execute_invalid_fields(*self).len() == 0,
            r matches Err(e) ==> e@ == (ErrorV::InvalidFields {
                fields: execute_invalid_fields(*self),
            }),
    {
        let mut invalid: Vec<String> = Vec::new();
        match self {
            ExecuteMsg::ApproveTransfer { id } => {
                if !is_valid_uuid(id.as_str()) {
                    invalid.push("id".to_owned());
                }
            }
            ExecuteMsg::CancelTransfer { id } => {
                if !is_valid_uuid(id.as_str()) {
                    invalid.push("id".to_owned());
                }
            }
            ExecuteMsg::RejectTransfer { id } => {
                if !is_valid_uuid(id.as_str()) {
                    invalid.push("id".to_owned());
                }
            }
            ExecuteMsg::Transfer { id, denom, amount, recipient } => {
                if !is_valid_uuid(id.as_str()) {
                    invalid.push("id".to_owned());
                }
                if *amount < 1 {
                    invalid.push("amount".to_owned());
                }
                if denom.as_str().is_empty() {
                    invalid.push("denom".to_owned());
                }
                if recipient.as_str().is_empty() {
                    invalid.push("recipient".to_owned());
                }
            }
        }
        proof {
            assert(fields_view(invalid@) =~= execute_invalid_fields(*self));
        }
        if invalid.len() == 0 {
            Ok(())
        } else {
            Err(ContractError::InvalidFields { fields: invalid })
        }
    }
}

impl QueryMsg {
    /// Validates the payload: a transfer lookup must carry a well-formed UUID.
    pub fn validate(&self) -> (r: Result<(), ContractError>)
        ensures
            r is Ok <==> query_invalid_fields(*self).len() == 0,
            r matches Err(e) ==> e@ == (ErrorV::InvalidFields {
                fields: query_invalid_fields(*self),
            }),
    {
        match self {
            QueryMsg::GetTransfer { id } => {
                if !is_valid_uuid(id.as_str()) {
                    let e = ContractError::InvalidFields { fields: vec!["id".to_owned()] };
                    proof {
                        assert(e@ matches ErrorV::InvalidFields { fields } && fields
                            =~= query_invalid_fields(*self));
                    }
                    Err(e)
                } else {
                    Ok(())
                }
            }
            QueryMsg::GetContractInfo {} => Ok(()),
            QueryMsg::GetVersionInfo {} => Ok(()),
        }
    }
}

} // verus!
