use std::collections::HashMap;
use vstd::prelude::*;

use crate::handle_revert::{
    IbcChannelInfo, IbcChannelView, TempIncomingCall, TempIncomingView, TempOutgoingCall,
    TempOutgoingView,
};
use crate::ibc::{awaiting_view, AwaitingIbcTransfer, AwaitingView};
use crate::ledger::{FeeTank, StringMap};
use crate::types::{ContractEvent, ContractVersion, CrosschainCall, CrosschainCallView, EventView};

verus! {

broadcast use vstd::std_specs::hash::group_hash_axioms;

/// The reply id of the cross-chain call that forwards a price packet.
pub const CREATE_OUTBOUND_REQUEST: u64 = 1;

/// The reply id of the cross-chain calls that `create_outbound` and
/// `send_failed_request` send.
pub const CREATE_OUTBOUND_REPLY_ID: u64 = 2;

/// Everything the contract keeps in storage.
pub struct OracleState {
    /// The address allowed to nominate a new admin.
    pub admin: Option<String>,
    /// The address nominated to become admin.
    pub new_admin: Option<String>,
    /// For each tunnel, the address that pays for its packets.
    pub fee_payers: HashMap<u64, String>,
    /// The payer of the packet whose cross-chain call awaits its reply.
    pub current_fee_payer: Option<String>,
    /// The deposits of the fee payers.
    pub fee_tank: FeeTank,
    /// The event to emit once the pending cross-chain call is accepted.
    pub pending_event: Option<ContractEvent>,
    /// For each accepted cross-chain request, the address that paid for it.
    pub request_fee_payers: HashMap<u64, String>,
    /// The name and version of the code that last wrote the storage.
    pub version: Option<ContractVersion>,
    /// The last cross-chain call that `create_outbound` sent.
    pub outbound_request: Option<CrosschainCall>,
    /// For each chain, the IBC channel whitelisted towards it.
    pub whitelisted_ibc_channels: StringMap<IbcChannelInfo>,
    /// The inbound IBC transfer under way.
    pub temp_incoming_ibc_call: Option<TempIncomingCall>,
    /// The outbound IBC transfer under way.
    pub temp_outgoing_ibc_call: Option<TempOutgoingCall>,
    /// The IBC transfers that await their acknowledgement, by sequence.
    pub awaiting_ibc_transfers: HashMap<u64, AwaitingIbcTransfer>,
}

/// The contract's storage as mathematical values.
pub struct OracleModel {
    pub admin: Option<Seq<char>>,
    pub new_admin: Option<Seq<char>>,
    pub fee_payers: Map<u64, Seq<char>>,
    pub current_fee_payer: Option<Seq<char>>,
    pub fee_tank: Map<Seq<char>, u128>,
    pub pending_event: Option<EventView>,
    pub request_fee_payers: Map<u64, Seq<char>>,
    pub version: Option<(Seq<char>, Seq<char>)>,
    pub outbound_request: Option<CrosschainCallView>,
    pub whitelisted_ibc_channels: Map<Seq<char>, IbcChannelView>,
    pub temp_incoming_ibc_call: Option<TempIncomingView>,
    pub temp_outgoing_ibc_call: Option<TempOutgoingView>,
    pub awaiting_ibc_transfers: Map<u64, AwaitingView>,
}

pub open spec fn opt_string_view(o: Option<String>) -> Option<Seq<char>> {
    match o {
        Some(s) => Some(s@),
        None => None,
    }
}

pub open spec fn string_map_view(m: Map<u64, String>) -> Map<u64, Seq<char>> {
    m.map_values(|s: String| s@)
}

impl View for OracleState {
    type V = OracleModel;

    open spec fn view(&self) -> OracleModel {
        OracleModel {
            admin: opt_string_view(self.admin),
            new_admin: opt_string_view(self.new_admin),
            fee_payers: string_map_view(self.fee_payers@),
            current_fee_payer: opt_string_view(self.current_fee_payer),
            fee_tank: self.fee_tank@,
            pending_event: match self.pending_event {
                Some(e) => Some(e@),
                None => None,
            },
            request_fee_payers: string_map_view(self.request_fee_payers@),
            version: match self.version {
                Some(v) => Some(v@),
                None => None,
            },
            outbound_request: match self.outbound_request {
                Some(c) => Some(c@),
                None => None,
            },
            whitelisted_ibc_channels: self.whitelisted_ibc_channels@.map_values(
                |c: IbcChannelInfo| c@,
            ),
            temp_incoming_ibc_call: match self.temp_incoming_ibc_call {
                Some(c) => Some(c@),
                None => None,
            },
            temp_outgoing_ibc_call: match self.temp_outgoing_ibc_call {
                Some(c) => Some(c@),
                None => None,
            },
            awaiting_ibc_transfers: awaiting_view(self.awaiting_ibc_transfers@),
        }
    }
}

/// What `unwrap_or_default` gives for the deposit of `payer`.
pub open spec fn balance_or_zero(tank: Map<Seq<char>, u128>, payer: Seq<char>) -> u128 {
    if tank.contains_key(payer) {
        tank[payer]
    } else {
        0
    }
}

/// Storage in which nothing has been written.
pub open spec fn empty_model() -> OracleModel {
    OracleModel {
        admin: None,
        new_admin: None,
        fee_payers: Map::empty(),
        current_fee_payer: None,
        fee_tank: Map::empty(),
        pending_event: None,
        request_fee_payers: Map::empty(),
        version: None,
        outbound_request: None,
        whitelisted_ibc_channels: Map::empty(),
        temp_incoming_ibc_call: None,
        temp_outgoing_ibc_call: None,
        awaiting_ibc_transfers: Map::empty(),
    }
}

impl OracleState {
    pub open spec fn wf(&self) -> bool {
        &&& self.fee_tank.wf()
        &&& self.whitelisted_ibc_channels.wf()
    }

    /// Storage in which nothing has been written.
    pub fn new() -> (res: OracleState)
        ensures
            res.wf(),
            res@ == empty_model(),
    {
        let res = OracleState {
            admin: None,
            new_admin: None,
            fee_payers: HashMap::new(),
            current_fee_payer: None,
            fee_tank: FeeTank::new(),
            pending_event: None,
            request_fee_payers: HashMap::new(),
            version: None,
            outbound_request: None,
            whitelisted_ibc_channels: StringMap::new(),
            temp_incoming_ibc_call: None,
            temp_outgoing_ibc_call: None,
            awaiting_ibc_transfers: HashMap::new(),
        };
        assert(res@.fee_payers =~= Map::empty());
        assert(res@.request_fee_payers =~= Map::empty());
        assert(res@.whitelisted_ibc_channels =~= Map::empty());
        assert(res@.awaiting_ibc_transfers =~= Map::empty());
        res
    }
}

/// The value that `m` holds at `k`.
pub fn lookup(m: &HashMap<u64, String>, k: u64) -> (res: Option<String>)
    ensures
        match res {
            Some(s) => string_map_view(m@).contains_key(k) && string_map_view(m@)[k] == s@,
            None => !string_map_view(m@).contains_key(k),
        },
{
    match m.get(&k) {
        Some(s) => Some(s.clone()),
        None => None,
    }
}

/// Stores `v` at `k`.
pub fn store(m: &mut HashMap<u64, String>, k: u64, v: String)
    ensures
        string_map_view(final(m)@) == string_map_view(old(m)@).insert(k, v@),
{
    m.insert(k, v);
    assert(string_map_view(m@) =~= string_map_view(old(m)@).insert(k, v@));
}

/// Removes the value at `k`.
pub fn erase(m: &mut HashMap<u64, String>, k: u64)
    ensures
        string_map_view(final(m)@) == string_map_view(old(m)@).remove(k),
{
    m.remove(&k);
    assert(string_map_view(m@) =~= string_map_view(old(m)@).remove(k));
}

} // verus!
