//! Contract bootstrap: validating the instantiate payload and producing the
//! initial configuration state.
use vstd::prelude::*;

use crate::contract::{funds_view, Coin, CoinV};
use crate::error::{ContractError, ErrorV};
use crate::msg::{instantiate_invalid_fields, InstantiateMsg};
use crate::state::State;

verus! {

/// What instantiation does: reject a malformed payload or attached funds,
/// otherwise yield the configuration state to persist (its stored name).
pub open spec fn spec_instantiate(msg: InstantiateMsg, funds: Seq<CoinV>) -> Result<
    Seq<char>,
    ErrorV,
> {
    if instantiate_invalid_fields(msg).len() != 0 {
        Err(ErrorV::InvalidFields { fields: instantiate_invalid_fields(msg) })
    } else if funds.len() != 0 {
        Err(ErrorV::Std { msg: "no funds should be sent during instantiate"@ })
    } else {
        Ok(msg.name@)
    }
}

/// Creates the initial configuration state: the payload must carry a
/// non-empty name and the call no funds.
pub fn instantiate(msg: InstantiateMsg, funds: &Vec<Coin>) -> (r: Result<State, ContractError>)
    ensures
        match r {
            Ok(state) => spec_instantiate(msg, funds_view(funds@)) == Ok::<Seq<char>, ErrorV>(
                state.name@,
            ),
            Err(e) => spec_instantiate(msg, funds_view(funds@)) == Err::<Seq<char>, ErrorV>(e@),
        },
{
    match msg.validate() {
        Ok(()) => {}
        Err(e) => {
            return Err(e);
        }
    }
    if funds.len() != 0 {
        return Err(crate::error::contract_err("no funds should be sent during instantiate"));
    }
    Ok(State { name: msg.name })
}

} // verus!
