use vstd::prelude::*;

use crate::state::{OracleModel, OracleState};
use crate::types::{
    result_view, ContractError, ContractEvent, ContractResponse, EventView, ResponseView,
    StoredItem, new_response, text,
};

verus! {

/// The outcome of an IBC transfer.
#[derive(PartialEq, Eq, Structural, Clone, Copy, Debug)]
pub enum TransferStatus {
    Completed,
    Failed,
}

/// The record of an IBC transfer that awaits its acknowledgement, kept
/// under its sequence number; the contract reads its channel and writes its
/// status.
pub struct AwaitingIbcTransfer {
    pub source_channel: String,
    pub status: Option<TransferStatus>,
}

pub struct AwaitingView {
    pub source_channel: Seq<char>,
    pub status: Option<TransferStatus>,
}

impl View for AwaitingIbcTransfer {
    type V = AwaitingView;

    open spec fn view(&self) -> AwaitingView {
        AwaitingView { source_channel: self.source_channel@, status: self.status }
    }
}

/// The awaiting transfers as mathematical values.
pub open spec fn awaiting_view(m: Map<u64, AwaitingIbcTransfer>) -> Map<u64, AwaitingView> {
    m.map_values(|r: AwaitingIbcTransfer| r@)
}

/// The transfer with `sequence` sent over `source_channel` takes `status`;
/// where none is kept the call fails.
pub open spec fn set_status_spec(
    s: OracleModel,
    source_channel: Seq<char>,
    sequence: u64,
    status: TransferStatus,
    kind: Seq<char>,
) -> (OracleModel, Result<ResponseView, ContractError>) {
    if !s.awaiting_ibc_transfers.contains_key(sequence)
        || s.awaiting_ibc_transfers[sequence].source_channel != source_channel {
        (s, Err(ContractError::NotFound(StoredItem::AwaitingIbcTransfer)))
    } else {
        (
            OracleModel {
                awaiting_ibc_transfers: s.awaiting_ibc_transfers.insert(
                    sequence,
                    AwaitingView { source_channel, status: Some(status) },
                ),
                ..s
            },
            Ok(event_response(kind)),
        )
    }
}

/// Loads the transfer, sets its status and stores it.
fn set_status(
    state: &mut OracleState,
    source_channel: &String,
    sequence: u64,
    status: TransferStatus,
    kind: &str,
) -> (res: Result<ContractResponse, ContractError>)
    requires
        old(state).wf(),
    ensures
        final(state).wf(),
        (final(state)@, result_view(res)) == set_status_spec(
            old(state)@,
            source_channel@,
            sequence,
            status,
            kind@,
        ),
{
    let found = match state.awaiting_ibc_transfers.get(&sequence) {
        Some(r) => r.source_channel == *source_channel,
        None => false,
    };
    if !found {
        return Err(ContractError::NotFound(StoredItem::AwaitingIbcTransfer));
    }
    let record = AwaitingIbcTransfer { source_channel: source_channel.clone(), status: Some(status) };
    state.awaiting_ibc_transfers.insert(sequence, record);
    assert(awaiting_view(state.awaiting_ibc_transfers@) =~= awaiting_view(
        old(state).awaiting_ibc_transfers@,
    ).insert(sequence, AwaitingView { source_channel: source_channel@, status: Some(status) }));
    Ok(event_only_response(kind))
}

/// The response that emits one event without attributes.
pub open spec fn event_response(kind: Seq<char>) -> ResponseView {
    ResponseView {
        attributes: seq![],
        events: seq![EventView { kind, attributes: seq![] }],
        messages: seq![],
    }
}

fn event_only_response(kind: &str) -> (res: ContractResponse)
    ensures
        res@ == event_response(kind@),
{
    let mut res = new_response();
    let event = ContractEvent { kind: text(kind), attributes: Vec::new() };
    assert(event@.attributes =~= seq![]);
    res.events.push(event);
    assert(res@.events =~= event_response(kind@).events);
    res
}

/// Records the acknowledgement of the transfer with `sequence` on
/// `source_channel`: completed where it succeeded, failed otherwise.
pub fn receive_ack(state: &mut OracleState, source_channel: String, sequence: u64, success: bool) -> (res:
    Result<ContractResponse, ContractError>)
    requires
        old(state).wf(),
    ensures
        final(state).wf(),
        (final(state)@, result_view(res)) == set_status_spec(
            old(state)@,
            source_channel@,
            sequence,
            if success {
                TransferStatus::Completed
            } else {
                TransferStatus::Failed
            },
            "IBCReceiveAck success"@,
        ),
{
    let status = if !success {
        TransferStatus::Failed
    } else {
        TransferStatus::Completed
    };
    set_status(state, &source_channel, sequence, status, "IBCReceiveAck success")
}

/// Records the timeout of the transfer with `sequence` on `source_channel`
/// as its failure.
pub fn receive_timeout(state: &mut OracleState, source_channel: String, sequence: u64) -> (res:
    Result<ContractResponse, ContractError>)
    requires
        old(state).wf(),
    ensures
        final(state).wf(),
        (final(state)@, result_view(res)) == set_status_spec(
            old(state)@,
            source_channel@,
            sequence,
            TransferStatus::Failed,
            "IBCReceiveTimeOut success"@,
        ),
{
    set_status(state, &source_channel, sequence, TransferStatus::Failed, "IBCReceiveTimeOut success")
}

} // verus!
