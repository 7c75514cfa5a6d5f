use vstd::prelude::*;

use crate::bindings::one_entry_json;
use crate::state::{OracleModel, OracleState};
use crate::types::{
    result_view, Coin, ContractError, ContractResponse, IbcTransfer, IbcTransferView,
    OutboundMsg, OutboundMsgView, OutboundRequest, OutboundView, ReplyOn, ResponseView,
    StoredItem, attribute_only_response,
};
use crate::utils::include_callback_inside_memo;

verus! {

/// The reply id of the IBC transfers that return funds to their source chain.
pub const CREATE_IBC_TANSFER: u64 = 3;

/// What the contract knows of the block and of itself.
pub struct ContractEnv {
    pub block_time_nanos: u64,
    pub chain_id: String,
    pub contract_address: String,
}

/// A whitelisted IBC channel towards a chain; a timeout of 0 sets none.
pub struct IbcChannelInfo {
    pub outgoing_port: String,
    pub outgoing_channel: String,
    pub timeout_timestamp: u64,
}

pub struct IbcChannelView {
    pub outgoing_port: Seq<char>,
    pub outgoing_channel: Seq<char>,
    pub timeout_timestamp: u64,
}

impl View for IbcChannelInfo {
    type V = IbcChannelView;

    open spec fn view(&self) -> IbcChannelView {
        IbcChannelView {
            outgoing_port: self.outgoing_port@,
            outgoing_channel: self.outgoing_channel@,
            timeout_timestamp: self.timeout_timestamp,
        }
    }
}

/// An inbound IBC transfer that is being handled.
pub struct TempIncomingCall {
    pub src_chain_id: String,
    pub token_addr: String,
    pub amount: u128,
    pub local_fallback_address: String,
}

pub struct TempIncomingView {
    pub src_chain_id: Seq<char>,
    pub token_addr: Seq<char>,
    pub amount: u128,
    pub local_fallback_address: Seq<char>,
}

impl View for TempIncomingCall {
    type V = TempIncomingView;

    open spec fn view(&self) -> TempIncomingView {
        TempIncomingView {
            src_chain_id: self.src_chain_id@,
            token_addr: self.token_addr@,
            amount: self.amount,
            local_fallback_address: self.local_fallback_address@,
        }
    }
}

/// An outbound IBC transfer that awaits its outcome.
pub struct TempOutgoingCall {
    pub source_channel: String,
    pub src_chain_id: String,
    pub dest_chain_id: String,
    pub amount: u128,
    pub sender: String,
    pub recipient: String,
    pub token_addr: String,
}

pub struct TempOutgoingView {
    pub source_channel: Seq<char>,
    pub src_chain_id: Seq<char>,
    pub dest_chain_id: Seq<char>,
    pub amount: u128,
    pub sender: Seq<char>,
    pub recipient: Seq<char>,
    pub token_addr: Seq<char>,
}

impl View for TempOutgoingCall {
    type V = TempOutgoingView;

    open spec fn view(&self) -> TempOutgoingView {
        TempOutgoingView {
            source_channel: self.source_channel@,
            src_chain_id: self.src_chain_id@,
            dest_chain_id: self.dest_chain_id@,
            amount: self.amount,
            sender: self.sender@,
            recipient: self.recipient@,
            token_addr: self.token_addr@,
        }
    }
}

/// The timeout of the returning transfer: the channel's timeout after the
/// block time, where the channel sets one.
pub open spec fn revert_timeout(channel: IbcChannelView, env: &ContractEnv) -> Option<u64> {
    if channel.timeout_timestamp != 0 {
        Some((env.block_time_nanos + channel.timeout_timestamp * 1_000_000_000) as u64)
    } else {
        None
    }
}

/// The transfer that returns the inbound tokens to the fallback address on
/// their source chain.
pub open spec fn revert_transfer(
    incoming: TempIncomingView,
    channel: IbcChannelView,
    env: &ContractEnv,
) -> IbcTransferView {
    IbcTransferView {
        source_port: channel.outgoing_port,
        source_channel: channel.outgoing_channel,
        token: (incoming.token_addr, incoming.amount),
        sender: env.contract_address@,
        receiver: incoming.local_fallback_address,
        timeout_timestamp: revert_timeout(channel, env),
        memo: one_entry_json("ibc_callback"@, env.contract_address@),
    }
}

/// The outbound record kept while the returning transfer is under way.
pub open spec fn revert_outgoing(
    incoming: TempIncomingView,
    channel: IbcChannelView,
    env: &ContractEnv,
) -> TempOutgoingView {
    TempOutgoingView {
        source_channel: channel.outgoing_channel,
        src_chain_id: env.chain_id@,
        dest_chain_id: incoming.src_chain_id,
        amount: incoming.amount,
        sender: env.contract_address@,
        recipient: incoming.local_fallback_address,
        token_addr: incoming.token_addr,
    }
}

/// The response that sends the returning transfer.
pub open spec fn revert_response(transfer: IbcTransferView) -> ResponseView {
    ResponseView {
        attributes: seq![("action"@, "send_ibc_tokens"@)],
        events: seq![],
        messages: seq![
            OutboundView {
                id: CREATE_IBC_TANSFER,
                msg: OutboundMsgView::IbcTransfer(transfer),
                reply_on: ReplyOn::Always,
            },
        ],
    }
}

/// The revert panics where the timeout leaves the range of `u64` nanoseconds.
pub open spec fn revert_panics(s: OracleModel, env: &ContractEnv) -> bool {
    &&& s.temp_incoming_ibc_call matches Some(incoming)
    &&& s.whitelisted_ibc_channels.contains_key(incoming.src_chain_id)
    &&& {
        let channel = s.whitelisted_ibc_channels[incoming.src_chain_id];
        channel.timeout_timestamp != 0 && env.block_time_nanos + channel.timeout_timestamp
            * 1_000_000_000 > u64::MAX
    }
}

/// Returning the inbound transfer's tokens: the inbound record makes way
/// for the outgoing one, and the transfer goes out on the channel
/// whitelisted for the source chain.
pub open spec fn revert_spec(s: OracleModel, env: &ContractEnv) -> (OracleModel, Result<
    ResponseView,
    ContractError,
>) {
    match s.temp_incoming_ibc_call {
        None => (s, Err(ContractError::NotFound(StoredItem::TempIncomingIbcCall))),
        Some(incoming) => if !s.whitelisted_ibc_channels.contains_key(incoming.src_chain_id) {
            (s, Err(ContractError::NotFound(StoredItem::WhitelistedIbcChannel)))
        } else {
            let channel = s.whitelisted_ibc_channels[incoming.src_chain_id];
            (
                OracleModel {
                    temp_incoming_ibc_call: None,
                    temp_outgoing_ibc_call: Some(revert_outgoing(incoming, channel, env)),
                    ..s
                },
                Ok(revert_response(revert_transfer(incoming, channel, env))),
            )
        },
    }
}

/// Returns the tokens of the inbound transfer under way to its fallback
/// address, through the channel whitelisted towards its source chain.
pub fn revert_funds_to_ibc_chain(state: &mut OracleState, env: &ContractEnv, err: &str) -> (res:
    Result<ContractResponse, ContractError>)
    requires
        old(state).wf(),
        !revert_panics(old(state)@, env),
    ensures
        final(state).wf(),
        (final(state)@, result_view(res)) == revert_spec(old(state)@, env),
        res is Ok ==> (final(state)@.temp_outgoing_ibc_call matches Some(o) && o.source_channel
            == old(state)@.whitelisted_ibc_channels[old(state)@.temp_incoming_ibc_call->Some_0.src_chain_id].outgoing_channel),
{
    let incoming = match &state.temp_incoming_ibc_call {
        None => { return Err(ContractError::NotFound(StoredItem::TempIncomingIbcCall)); },
        Some(i) => i,
    };
    let channel = match state.whitelisted_ibc_channels.get(&incoming.src_chain_id) {
        None => { return Err(ContractError::NotFound(StoredItem::WhitelistedIbcChannel)); },
        Some(c) => c,
    };
    assert(channel@ == old(state)@.whitelisted_ibc_channels[incoming.src_chain_id@]);
    let mut timeout_timestamp: Option<u64> = None;
    if channel.timeout_timestamp != 0 {
        timeout_timestamp = Some(env.block_time_nanos + channel.timeout_timestamp * 1_000_000_000);
    }
    let memo = match include_callback_inside_memo(&env.contract_address) {
        Ok(m) => m,
        Err(e) => { return Err(e); },
    };
    let transfer = IbcTransfer {
        source_port: channel.outgoing_port.clone(),
        source_channel: channel.outgoing_channel.clone(),
        token: Coin { denom: incoming.token_addr.clone(), amount: incoming.amount },
        sender: env.contract_address.clone(),
        receiver: incoming.local_fallback_address.clone(),
        timeout_timestamp,
        memo,
    };
    let outgoing_call = TempOutgoingCall {
        source_channel: channel.outgoing_channel.clone(),
        src_chain_id: env.chain_id.clone(),
        dest_chain_id: incoming.src_chain_id.clone(),
        amount: incoming.amount,
        sender: env.contract_address.clone(),
        recipient: incoming.local_fallback_address.clone(),
        token_addr: incoming.token_addr.clone(),
    };
    let mut response = attribute_only_response("action", "send_ibc_tokens");
    let ghost transfer_view = transfer@;
    response.messages.push(
        OutboundRequest {
            id: CREATE_IBC_TANSFER,
            msg: OutboundMsg::IbcTransfer(transfer),
            reply_on: ReplyOn::Always,
        },
    );
    assert(response@.messages =~= revert_response(transfer_view).messages);
    state.temp_incoming_ibc_call = None;
    state.temp_outgoing_ibc_call = Some(outgoing_call);
    Ok(response)
}

} // verus!
