use vstd::prelude::*;

use crate::bindings::native_denom;
use crate::state::{erase, lookup, OracleModel, OracleState};
use crate::types::{
    result_view, Coin, ContractError, ContractResponse, ResponseView, StoredItem,
    attribute_only_response, attribute_response,
};

verus! {

/// The acknowledgement of a request refunds what its relay did not use to
/// the address that paid for it, and forgets the request.
pub open spec fn sudo_ack_spec(
    s: OracleModel,
    request_identifier: u64,
    refund_amount: (Seq<char>, u128),
) -> (OracleModel, Result<ResponseView, ContractError>) {
    if !s.request_fee_payers.contains_key(request_identifier) {
        (s, Err(ContractError::NotFound(StoredItem::RequestFeePayer)))
    } else {
        let payer = s.request_fee_payers[request_identifier];
        if !s.fee_tank.contains_key(payer) {
            (s, Err(ContractError::NotFound(StoredItem::FeeTank)))
        } else if refund_amount.0 != "route"@ {
            (s, Err(ContractError::DenomMismatch))
        } else if s.fee_tank[payer] + refund_amount.1 > u128::MAX {
            (s, Err(ContractError::Overflow))
        } else {
            (
                OracleModel {
                    fee_tank: s.fee_tank.insert(payer, (s.fee_tank[payer] + refund_amount.1) as u128),
                    request_fee_payers: s.request_fee_payers.remove(request_identifier),
                    ..s
                },
                Ok(attribute_response("action"@, "refund"@)),
            )
        }
    }
}

/// Refunds `refund_amount` to the payer of request `request_identifier`.
pub fn handle_sudo_ack(
    state: &mut OracleState,
    request_identifier: u64,
    exec_flag: bool,
    exec_data: Vec<u8>,
    refund_amount: Coin,
) -> (res: Result<ContractResponse, ContractError>)
    requires
        old(state).wf(),
    ensures
        final(state).wf(),
        (final(state)@, result_view(res)) == sudo_ack_spec(
            old(state)@,
            request_identifier,
            refund_amount@,
        ),
        res is Ok ==> final(state)@.request_fee_payers == old(state)@.request_fee_payers.remove(
            request_identifier,
        ),
{
    let fee_payer = match lookup(&state.request_fee_payers, request_identifier) {
        Some(p) => p,
        None => { return Err(ContractError::NotFound(StoredItem::RequestFeePayer)); },
    };
    let available_funds = match state.fee_tank.get(&fee_payer) {
        Some(a) => *a,
        None => { return Err(ContractError::NotFound(StoredItem::FeeTank)); },
    };
    if refund_amount.denom != native_denom() {
        return Err(ContractError::DenomMismatch);
    }
    let refunded = match available_funds.checked_add(refund_amount.amount) {
        Some(r) => r,
        None => { return Err(ContractError::Overflow); },
    };
    state.fee_tank.set(&fee_payer, refunded);
    erase(&mut state.request_fee_payers, request_identifier);
    Ok(attribute_only_response("action", "refund"))
}

} // verus!
