use vstd::pervasive::arbitrary;
use vstd::prelude::*;

use crate::bindings::{crosschain_response_from_json, parse_crosschain_response};
use crate::execution::{ACK_GAS_LIMIT, ACK_GAS_PRICE, MINIMUM_RELAYER_FEES};
use crate::state::{balance_or_zero, store, OracleModel, OracleState, CREATE_OUTBOUND_REQUEST};
use crate::types::{
    result_view, ContractError, ContractResponse, ResponseView, StoredItem, empty_response,
    new_response,
};

verus! {

/// How a sub-message ended: the data it returned, or the error text.
pub enum SubMsgOutcome {
    Succeeded(Option<Vec<u8>>),
    Failed(String),
}

/// The host's call back about a sub-message.
pub struct ReplyMsg {
    pub id: u64,
    pub result: SubMsgOutcome,
}

/// What the relay of a packet costs: the fee the Router chain deducted, the
/// gas of the acknowledgement and the relayer fee for it.
pub open spec fn required_fee(fee_deducted: u128) -> int {
    fee_deducted + ACK_GAS_PRICE * ACK_GAS_LIMIT + MINIMUM_RELAYER_FEES
}

/// Charges the current payer for an accepted request and remembers it as
/// the payer of that request; the kept event goes out.
pub open spec fn charge_spec(
    s: OracleModel,
    request_identifier: u64,
    fee_deducted: u128,
) -> (OracleModel, Result<ResponseView, ContractError>) {
    match s.current_fee_payer {
        None => (s, Err(ContractError::NotFound(StoredItem::CurrentFeePayer))),
        Some(payer) => {
            let available = balance_or_zero(s.fee_tank, payer);
            let required = required_fee(fee_deducted);
            if required > u128::MAX {
                (s, Err(ContractError::Overflow))
            } else if required > available {
                (
                    s,
                    Err(
                        ContractError::InsufficientFee {
                            available,
                            required: required as u128,
                        },
                    ),
                )
            } else {
                match s.pending_event {
                    None => (s, Err(ContractError::NotFound(StoredItem::Event))),
                    Some(event) => (
                        OracleModel {
                            fee_tank: s.fee_tank.insert(payer, (available - required) as u128),
                            current_fee_payer: None,
                            request_fee_payers: s.request_fee_payers.insert(
                                request_identifier,
                                payer,
                            ),
                            pending_event: None,
                            ..s
                        },
                        Ok(ResponseView { attributes: seq![], events: seq![event], messages: seq![] }),
                    ),
                }
            }
        },
    }
}

/// Charges the current payer for the accepted request `request_identifier`,
/// whose relay fee the Router chain deducted as `fee_deducted`.
pub fn charge_fee_payer(state: &mut OracleState, request_identifier: u64, fee_deducted: u128) -> (res:
    Result<ContractResponse, ContractError>)
    requires
        old(state).wf(),
    ensures
        final(state).wf(),
        (final(state)@, result_view(res)) == charge_spec(
            old(state)@,
            request_identifier,
            fee_deducted,
        ),
        res is Ok ==> final(state)@.request_fee_payers == old(state)@.request_fee_payers.insert(
            request_identifier,
            old(state)@.current_fee_payer->Some_0,
        ),
{
    let fee_payer = match &state.current_fee_payer {
        None => { return Err(ContractError::NotFound(StoredItem::CurrentFeePayer)); },
        Some(p) => p.clone(),
    };
    let available_fee: u128 = match state.fee_tank.get(&fee_payer) {
        Some(a) => *a,
        None => 0,
    };
    let ack_deduct_fee: u128 = match (ACK_GAS_PRICE as u128).checked_mul(ACK_GAS_LIMIT as u128) {
        Some(f) => f,
        None => { return Err(ContractError::Overflow); },
    };
    let relayer_fee_for_ack: u128 = MINIMUM_RELAYER_FEES as u128;
    let partial: u128 = match fee_deducted.checked_add(ack_deduct_fee) {
        Some(f) => f,
        None => { return Err(ContractError::Overflow); },
    };
    let required: u128 = match partial.checked_add(relayer_fee_for_ack) {
        Some(f) => f,
        None => { return Err(ContractError::Overflow); },
    };
    if required > available_fee {
        return Err(ContractError::InsufficientFee { available: available_fee, required });
    }
    let event = match state.pending_event.take() {
        None => { return Err(ContractError::NotFound(StoredItem::Event)); },
        Some(e) => e,
    };
    state.fee_tank.set(&fee_payer, available_fee - required);
    state.current_fee_payer = None;
    store(&mut state.request_fee_payers, request_identifier, fee_payer);
    let mut res = new_response();
    res.events.push(event);
    assert(res@.events =~= seq![event@]);
    Ok(res)
}

/// `handle_reply` panics where the data of an accepted forward does not
/// read as a cross-chain request response.
pub open spec fn handle_reply_panics(reply: ReplyMsg) -> bool {
    &&& reply.id == CREATE_OUTBOUND_REQUEST
    &&& reply.result matches SubMsgOutcome::Succeeded(Some(data))
    &&& crosschain_response_from_json(data@) is None
}

/// The reply to a forwarded packet charges its payer where the call
/// succeeded with data, and does nothing otherwise. Where the call panics
/// (`handle_reply_panics`) nothing is said.
pub open spec fn handle_reply_spec(s: OracleModel, reply: ReplyMsg) -> (OracleModel, Result<
    ResponseView,
    ContractError,
>) {
    if handle_reply_panics(reply) {
        arbitrary()
    } else if reply.id != CREATE_OUTBOUND_REQUEST {
        (s, Err(ContractError::UnknownReplyId(reply.id)))
    } else {
        match reply.result {
            SubMsgOutcome::Succeeded(Some(data)) => {
                let r = crosschain_response_from_json(data@).unwrap();
                charge_spec(s, r.0, r.2)
            },
            _ => (s, Ok(empty_response())),
        }
    }
}

/// Handles the host's reply about the forward of a packet.
pub fn handle_reply(state: &mut OracleState, reply: ReplyMsg) -> (res: Result<
    ContractResponse,
    ContractError,
>)
    requires
        old(state).wf(),
        !handle_reply_panics(reply),
    ensures
        final(state).wf(),
        (final(state)@, result_view(res)) == handle_reply_spec(old(state)@, reply),
{
    if reply.id != CREATE_OUTBOUND_REQUEST {
        return Err(ContractError::UnknownReplyId(reply.id));
    }
    match &reply.result {
        SubMsgOutcome::Succeeded(Some(data)) => {
            let response = parse_crosschain_response(data.as_slice()).unwrap();
            charge_fee_payer(state, response.request_identifier, response.fee_deducted.amount)
        },
        _ => Ok(new_response()),
    }
}

/// `handle_reply` where it does not panic; `None`, with the storage
/// untouched, where it would.
pub fn try_handle_reply(state: &mut OracleState, reply: ReplyMsg) -> (res: Option<
    Result<ContractResponse, ContractError>,
>)
    requires
        old(state).wf(),
    ensures
        final(state).wf(),
        res is None <==> handle_reply_panics(reply),
        res is None ==> final(state)@ == old(state)@,
        res matches Some(r) ==> (final(state)@, result_view(r)) == handle_reply_spec(
            old(state)@,
            reply,
        ),
{
    if handle_reply_would_panic(&reply) {
        None
    } else {
        Some(handle_reply(state, reply))
    }
}

/// Tells whether `handle_reply` would panic on the reply.
pub fn handle_reply_would_panic(reply: &ReplyMsg) -> (res: bool)
    ensures
        res == handle_reply_panics(*reply),
{
    if reply.id == CREATE_OUTBOUND_REQUEST {
        if let SubMsgOutcome::Succeeded(Some(data)) = &reply.result {
            return parse_crosschain_response(data.as_slice()).is_none();
        }
    }
    false
}

} // verus!
