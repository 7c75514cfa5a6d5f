use vstd::prelude::*;

use crate::state::{lookup, OracleState};
use crate::types::{ContractError, StoredItem};

verus! {

/// The stored admin.
pub fn fetch_admin(state: &OracleState) -> (res: Result<String, ContractError>)
    ensures
        match res {
            Ok(a) => state@.admin == Some(a@),
            Err(e) => state@.admin is None && e == ContractError::NotFound(StoredItem::Admin),
        },
{
    match &state.admin {
        Some(a) => Ok(a.clone()),
        None => Err(ContractError::NotFound(StoredItem::Admin)),
    }
}

/// The payer registered for `tunnel_id`.
pub fn fetch_fee_payer_for_tunnel_id(state: &OracleState, tunnel_id: u64) -> (res: Result<
    String,
    ContractError,
>)
    ensures
        match res {
            Ok(p) => state@.fee_payers.contains_key(tunnel_id) && state@.fee_payers[tunnel_id]
                == p@,
            Err(e) => !state@.fee_payers.contains_key(tunnel_id) && e == ContractError::NotFound(
                StoredItem::FeePayer,
            ),
        },
{
    match lookup(&state.fee_payers, tunnel_id) {
        Some(p) => Ok(p),
        None => Err(ContractError::NotFound(StoredItem::FeePayer)),
    }
}

/// The deposit of `fee_payer`.
pub fn fetch_available_funds(state: &OracleState, fee_payer: String) -> (res: Result<
    u128,
    ContractError,
>)
    requires
        state.wf(),
    ensures
        match res {
            Ok(a) => state@.fee_tank.contains_key(fee_payer@) && state@.fee_tank[fee_payer@] == a,
            Err(e) => !state@.fee_tank.contains_key(fee_payer@) && e == ContractError::NotFound(
                StoredItem::FeeTank,
            ),
        },
{
    match state.fee_tank.get(&fee_payer) {
        Some(a) => Ok(*a),
        None => Err(ContractError::NotFound(StoredItem::FeeTank)),
    }
}

} // verus!
