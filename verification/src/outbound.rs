use vstd::prelude::*;

use crate::bindings::{
    abi_encode_reserve_call, abi_encode_reserve_call_evm,
    abi_encode_reserve_call_evm_with_instruction, abi_encode_reserve_call_with_instruction,
    abi_encode_string_bytes, abi_encoded_reserve_call, abi_encoded_reserve_call_evm,
    abi_encoded_reserve_call_evm_with_instruction, abi_encoded_reserve_call_with_instruction,
    abi_encoded_string_bytes,
    metadata_encoding, request_metadata_bytes, AckType,
};
use crate::state::{OracleModel, OracleState, CREATE_OUTBOUND_REPLY_ID};
use crate::types::{
    result_view, ContractError, ContractResponse, CrosschainCall, CrosschainCallView,
    OutboundMsg, OutboundMsgView, OutboundRequest, OutboundView, ReplyOn, ResponseView,
    RouterRequest, new_response, router_request_view,
};

verus! {

/// The response that sends one message and asks for a reply on success.
pub open spec fn outbound_response(msg: OutboundMsgView) -> ResponseView {
    ResponseView {
        attributes: seq![],
        events: seq![],
        messages: seq![
            OutboundView { id: CREATE_OUTBOUND_REPLY_ID, msg, reply_on: ReplyOn::Success },
        ],
    }
}

/// A response that sends `msg` and asks for a reply on success.
fn outbound_only_response(msg: OutboundMsg) -> (res: ContractResponse)
    ensures
        res@ == outbound_response(msg@),
{
    let mut res = new_response();
    let ghost v = msg@;
    res.messages.push(OutboundRequest { id: CREATE_OUTBOUND_REPLY_ID, msg, reply_on: ReplyOn::Success });
    assert(res@.messages =~= outbound_response(v).messages);
    res
}

/// A copy of a cross-chain call.
pub fn clone_call(call: &CrosschainCall) -> (res: CrosschainCall)
    ensures
        res@ == call@,
{
    CrosschainCall {
        version: call.version,
        route_amount: call.route_amount,
        route_recipient: call.route_recipient.clone(),
        dest_chain_id: call.dest_chain_id.clone(),
        request_metadata: call.request_metadata.clone(),
        request_packet: call.request_packet.clone(),
    }
}

/// The cross-chain call that carries `contract_payload` to
/// `destination_contract_address` at the gas price `dest_gas_price`.
pub open spec fn outbound_call(
    destination_contract_address: Seq<char>,
    contract_payload: Seq<u8>,
    dest_chain_id: Seq<char>,
    dest_gas_price: u64,
) -> CrosschainCallView {
    CrosschainCallView {
        version: 1,
        route_amount: 0,
        route_recipient: Seq::empty(),
        dest_chain_id,
        request_metadata: metadata_encoding(
            0,
            dest_gas_price,
            300_000,
            10_000_000,
            0,
            AckType::AckOnBoth,
            false,
            vstd::utf8::encode_utf8(Seq::empty()),
        ),
        request_packet: abi_encoded_string_bytes(destination_contract_address, contract_payload),
    }
}

/// Sending a payload keeps the call in storage and sends it.
pub open spec fn create_outbound_spec(
    s: OracleModel,
    destination_contract_address: Seq<char>,
    contract_payload: Seq<u8>,
    dest_chain_id: Seq<char>,
    gas_info: Seq<u64>,
) -> (OracleModel, Result<ResponseView, ContractError>) {
    let call = outbound_call(
        destination_contract_address,
        contract_payload,
        dest_chain_id,
        gas_info[1],
    );
    (
        OracleModel { outbound_request: Some(call), ..s },
        Ok(outbound_response(OutboundMsgView::Crosschain(call))),
    )
}

/// Sends `contract_payload` to a contract on another chain; the second
/// entry of `gas_info` is the gas price there.
pub fn create_outbound(
    state: &mut OracleState,
    destination_contract_address: String,
    contract_payload: Vec<u8>,
    dest_chain_id: String,
    gas_info: [u64; 2],
) -> (res: Result<ContractResponse, ContractError>)
    requires
        old(state).wf(),
    ensures
        final(state).wf(),
        (final(state)@, result_view(res)) == create_outbound_spec(
            old(state)@,
            destination_contract_address@,
            contract_payload@,
            dest_chain_id@,
            gas_info@,
        ),
{
    let request_packet = abi_encode_string_bytes(&destination_contract_address, &contract_payload);
    let asm_address = String::new();
    let request_metadata = request_metadata_bytes(
        0,
        gas_info[1],
        300_000,
        10_000_000,
        0,
        AckType::AckOnBoth,
        false,
        asm_address.as_str(),
    );
    let call = CrosschainCall {
        version: 1,
        route_amount: 0,
        route_recipient: String::new(),
        dest_chain_id,
        request_metadata,
        request_packet,
    };
    state.outbound_request = Some(clone_call(&call));
    Ok(outbound_only_response(OutboundMsg::Crosschain(call)))
}

/// Sends again a Router chain message that failed.
pub fn send_failed_request(failed_request: RouterRequest) -> (res: Result<
    ContractResponse,
    ContractError,
>)
    ensures
        result_view(res) == Ok::<ResponseView, ContractError>(
            outbound_response(router_request_view(failed_request)),
        ),
{
    let msg = match failed_request {
        RouterRequest::CrosschainCall(c) => OutboundMsg::Crosschain(c),
        RouterRequest::TxlookupCall(t) => OutboundMsg::Txlookup(t),
    };
    Ok(outbound_only_response(msg))
}

/// What a reserve request decides before it sends anything.
pub enum ReserveOutcome {
    /// No contract is registered for the destination chain: the inbound
    /// request goes back to its source chain.
    RevertInbound,
    /// The request was sent.
    Sent(ContractResponse),
}

/// The recipient and the token of a reserve call, both as strings (for a
/// non-EVM chain) or both as EVM addresses.
pub enum ReserveTokens {
    Text { recipient: String, token: String },
    Evm { recipient_address: [u8; 20], token_address: [u8; 20] },
}

/// The payload of a reserve call: flag 1 with an instruction, flag 0 without.
pub open spec fn reserve_payload(
    chain: Seq<u8>,
    tokens: ReserveTokens,
    amount: u128,
    nonce: u64,
    instruction: Option<Seq<u8>>,
) -> Seq<u8> {
    match tokens {
        ReserveTokens::Text { recipient, token } => match instruction {
            Some(i) => abi_encoded_reserve_call_with_instruction(
                1,
                chain,
                recipient@,
                token@,
                amount,
                nonce,
                i,
            ),
            None => abi_encoded_reserve_call(0, chain, recipient@, token@, amount, nonce),
        },
        ReserveTokens::Evm { recipient_address, token_address } => match instruction {
            Some(i) => abi_encoded_reserve_call_evm_with_instruction(
                1,
                chain,
                recipient_address@,
                token_address@,
                amount,
                nonce,
                i,
            ),
            None => abi_encoded_reserve_call_evm(
                0,
                chain,
                recipient_address@,
                token_address@,
                amount,
                nonce,
            ),
        },
    }
}

/// `create_reserve_outbound_request` panics where the source chain's
/// bytes are not 32 bytes long.
pub open spec fn reserve_panics(
    destination_contract: Option<String>,
    src_chain_info_bytes: Result<Vec<u8>, ContractError>,
) -> bool {
    &&& destination_contract is Some
    &&& (src_chain_info_bytes matches Ok(b) && b@.len() != 32)
}

/// Asks a contract on `dest_chain_id` to release `dest_token_amount` of the
/// token in `tokens` to its recipient. `destination_contract` is the
/// contract registered for that chain, if any; `src_chain_info_bytes` is the
/// lookup of the source chain's 32 bytes.
pub fn create_reserve_outbound_request(
    state: &mut OracleState,
    destination_contract: Option<String>,
    src_chain_info_bytes: Result<Vec<u8>, ContractError>,
    dest_chain_id: String,
    tokens: ReserveTokens,
    dest_token_amount: u128,
    deposit_nonce: u64,
    optional_arbitrary_token: Option<Vec<u8>>,
    gas_info: [u64; 2],
) -> (res: Result<ReserveOutcome, ContractError>)
    requires
        old(state).wf(),
        !reserve_panics(destination_contract, src_chain_info_bytes),
    ensures
        final(state).wf(),
        match destination_contract {
            None => res matches Ok(ReserveOutcome::RevertInbound) && final(state)@ == old(
                state,
            )@,
            Some(destination) => match src_chain_info_bytes {
                Err(e) => res == Err::<ReserveOutcome, ContractError>(e) && final(state)@ == old(
                    state,
                )@,
                Ok(chain) => {
                    let payload = reserve_payload(
                        chain@,
                        tokens,
                        dest_token_amount,
                        deposit_nonce,
                        match optional_arbitrary_token {
                            Some(i) => Some(i@),
                            None => None,
                        },
                    );
                    let (s1, r1) = create_outbound_spec(
                        old(state)@,
                        destination@,
                        payload,
                        dest_chain_id@,
                        gas_info@,
                    );
                    &&& final(state)@ == s1
                    &&& res matches Ok(ReserveOutcome::Sent(response))
                    &&& r1 == Ok::<ResponseView, ContractError>(response@)
                },
            },
        },
{
    let destination_contract_address = match destination_contract {
        Some(address) => address,
        None => { return Ok(ReserveOutcome::RevertInbound); },
    };
    let chain = match src_chain_info_bytes {
        Ok(b) => b,
        Err(e) => { return Err(e); },
    };
    let contract_call_payload = match (tokens, optional_arbitrary_token) {
        (ReserveTokens::Text { recipient, token }, Some(instruction)) => {
            abi_encode_reserve_call_with_instruction(
                1,
                chain.as_slice(),
                &recipient,
                &token,
                dest_token_amount,
                deposit_nonce,
                &instruction,
            )
        },
        (ReserveTokens::Text { recipient, token }, None) => abi_encode_reserve_call(
            0,
            chain.as_slice(),
            &recipient,
            &token,
            dest_token_amount,
            deposit_nonce,
        ),
        (ReserveTokens::Evm { recipient_address, token_address }, Some(instruction)) => {
            abi_encode_reserve_call_evm_with_instruction(
                1,
                chain.as_slice(),
                &recipient_address,
                &token_address,
                dest_token_amount,
                deposit_nonce,
                &instruction,
            )
        },
        (ReserveTokens::Evm { recipient_address, token_address }, None) => abi_encode_reserve_call_evm(
            0,
            chain.as_slice(),
            &recipient_address,
            &token_address,
            dest_token_amount,
            deposit_nonce,
        ),
    };
    match create_outbound(
        state,
        destination_contract_address,
        contract_call_payload,
        dest_chain_id,
        gas_info,
    ) {
        Ok(response) => Ok(ReserveOutcome::Sent(response)),
        Err(e) => Err(e),
    }
}

} // verus!
