use vstd::prelude::*;

verus! {

/// An amount of one denomination.
pub struct Coin {
    pub denom: String,
    pub amount: u128,
}

impl View for Coin {
    type V = (Seq<char>, u128);

    open spec fn view(&self) -> (Seq<char>, u128) {
        (self.denom@, self.amount)
    }
}

/// A key/value pair attached to a response or an event.
pub struct Attribute {
    pub key: String,
    pub value: String,
}

impl View for Attribute {
    type V = (Seq<char>, Seq<char>);

    open spec fn view(&self) -> (Seq<char>, Seq<char>) {
        (self.key@, self.value@)
    }
}

pub open spec fn attributes_view(attrs: Seq<Attribute>) -> Seq<(Seq<char>, Seq<char>)> {
    attrs.map_values(|a: Attribute| a@)
}

/// An event that the host records with the transaction.
pub struct ContractEvent {
    pub kind: String,
    pub attributes: Vec<Attribute>,
}

pub struct EventView {
    pub kind: Seq<char>,
    pub attributes: Seq<(Seq<char>, Seq<char>)>,
}

impl View for ContractEvent {
    type V = EventView;

    open spec fn view(&self) -> EventView {
        EventView { kind: self.kind@, attributes: attributes_view(self.attributes@) }
    }
}

/// A cross-chain call handed to the Router chain.
pub struct CrosschainCall {
    pub version: u64,
    pub route_amount: u128,
    pub route_recipient: String,
    pub dest_chain_id: String,
    pub request_metadata: Vec<u8>,
    pub request_packet: Vec<u8>,
}

pub struct CrosschainCallView {
    pub version: u64,
    pub route_amount: u128,
    pub route_recipient: Seq<char>,
    pub dest_chain_id: Seq<char>,
    pub request_metadata: Seq<u8>,
    pub request_packet: Seq<u8>,
}

impl View for CrosschainCall {
    type V = CrosschainCallView;

    open spec fn view(&self) -> CrosschainCallView {
        CrosschainCallView {
            version: self.version,
            route_amount: self.route_amount,
            route_recipient: self.route_recipient@,
            dest_chain_id: self.dest_chain_id@,
            request_metadata: self.request_metadata@,
            request_packet: self.request_packet@,
        }
    }
}

/// When the host calls the contract back about a sub-message.
#[derive(PartialEq, Eq, Structural, Clone, Copy)]
pub enum ReplyOn {
    Success,
    Always,
}

/// An IBC transfer of `token` to `receiver`; it sets no timeout height.
pub struct IbcTransfer {
    pub source_port: String,
    pub source_channel: String,
    pub token: Coin,
    pub sender: String,
    pub receiver: String,
    pub timeout_timestamp: Option<u64>,
    pub memo: String,
}

pub struct IbcTransferView {
    pub source_port: Seq<char>,
    pub source_channel: Seq<char>,
    pub token: (Seq<char>, u128),
    pub sender: Seq<char>,
    pub receiver: Seq<char>,
    pub timeout_timestamp: Option<u64>,
    pub memo: Seq<char>,
}

impl View for IbcTransfer {
    type V = IbcTransferView;

    open spec fn view(&self) -> IbcTransferView {
        IbcTransferView {
            source_port: self.source_port@,
            source_channel: self.source_channel@,
            token: self.token@,
            sender: self.sender@,
            receiver: self.receiver@,
            timeout_timestamp: self.timeout_timestamp,
            memo: self.memo@,
        }
    }
}

/// A transaction lookup handed to the Router chain.
pub struct TxlookupCall {
    pub chain_ids: Vec<String>,
    pub tx_hashes: Vec<String>,
    pub metadata: Vec<Vec<u8>>,
    pub middleware_contract_address: String,
    pub fee: u128,
    pub cw_gas_limit: u64,
}

pub struct TxlookupView {
    pub chain_ids: Seq<Seq<char>>,
    pub tx_hashes: Seq<Seq<char>>,
    pub metadata: Seq<Seq<u8>>,
    pub middleware_contract_address: Seq<char>,
    pub fee: u128,
    pub cw_gas_limit: u64,
}

impl View for TxlookupCall {
    type V = TxlookupView;

    open spec fn view(&self) -> TxlookupView {
        TxlookupView {
            chain_ids: self.chain_ids@.map_values(|c: String| c@),
            tx_hashes: self.tx_hashes@.map_values(|h: String| h@),
            metadata: self.metadata@.map_values(|m: Vec<u8>| m@),
            middleware_contract_address: self.middleware_contract_address@,
            fee: self.fee,
            cw_gas_limit: self.cw_gas_limit,
        }
    }
}

/// A message for the Router chain's own module.
pub enum RouterRequest {
    CrosschainCall(CrosschainCall),
    TxlookupCall(TxlookupCall),
}

/// A message that the contract asks the host to send.
pub enum OutboundMsg {
    Crosschain(CrosschainCall),
    Txlookup(TxlookupCall),
    IbcTransfer(IbcTransfer),
}

pub enum OutboundMsgView {
    Crosschain(CrosschainCallView),
    Txlookup(TxlookupView),
    IbcTransfer(IbcTransferView),
}

/// A Router chain message as the message the host sends.
pub open spec fn router_request_view(r: RouterRequest) -> OutboundMsgView {
    match r {
        RouterRequest::CrosschainCall(c) => OutboundMsgView::Crosschain(c@),
        RouterRequest::TxlookupCall(t) => OutboundMsgView::Txlookup(t@),
    }
}

impl View for OutboundMsg {
    type V = OutboundMsgView;

    open spec fn view(&self) -> OutboundMsgView {
        match self {
            OutboundMsg::Crosschain(c) => OutboundMsgView::Crosschain(c@),
            OutboundMsg::Txlookup(t) => OutboundMsgView::Txlookup(t@),
            OutboundMsg::IbcTransfer(t) => OutboundMsgView::IbcTransfer(t@),
        }
    }
}

/// A sub-message; it sets no gas limit of its own.
pub struct OutboundRequest {
    pub id: u64,
    pub msg: OutboundMsg,
    pub reply_on: ReplyOn,
}

pub struct OutboundView {
    pub id: u64,
    pub msg: OutboundMsgView,
    pub reply_on: ReplyOn,
}

impl View for OutboundRequest {
    type V = OutboundView;

    open spec fn view(&self) -> OutboundView {
        OutboundView { id: self.id, msg: self.msg@, reply_on: self.reply_on }
    }
}

/// What a successful call hands back to the host.
pub struct ContractResponse {
    pub attributes: Vec<Attribute>,
    pub events: Vec<ContractEvent>,
    pub messages: Vec<OutboundRequest>,
}

pub struct ResponseView {
    pub attributes: Seq<(Seq<char>, Seq<char>)>,
    pub events: Seq<EventView>,
    pub messages: Seq<OutboundView>,
}

impl View for ContractResponse {
    type V = ResponseView;

    open spec fn view(&self) -> ResponseView {
        ResponseView {
            attributes: attributes_view(self.attributes@),
            events: self.events@.map_values(|e: ContractEvent| e@),
            messages: self.messages@.map_values(|m: OutboundRequest| m@),
        }
    }
}

/// A result as mathematical values.
pub open spec fn result_view(r: Result<ContractResponse, ContractError>) -> Result<ResponseView, ContractError> {
    match r {
        Ok(x) => Ok(x@),
        Err(e) => Err(e),
    }
}

/// The response that carries nothing.
pub open spec fn empty_response() -> ResponseView {
    ResponseView { attributes: seq![], events: seq![], messages: seq![] }
}

/// The response that carries one attribute and nothing else.
pub open spec fn attribute_response(key: Seq<char>, value: Seq<char>) -> ResponseView {
    ResponseView { attributes: seq![(key, value)], events: seq![], messages: seq![] }
}

/// The entries of the contract's storage; a load of an absent one fails.
#[derive(PartialEq, Eq, Structural, Clone, Copy, Debug)]
pub enum StoredItem {
    Admin,
    NewAdmin,
    FeePayer,
    CurrentFeePayer,
    FeeTank,
    Event,
    RequestFeePayer,
    ContractVersion,
    TempIncomingIbcCall,
    WhitelistedIbcChannel,
    AwaitingIbcTransfer,
}

/// Why a call was refused.
#[derive(PartialEq, Eq, Structural, Clone, Copy, Debug)]
pub enum ContractError {
    /// A storage entry that the call reads is absent.
    NotFound(StoredItem),
    /// The host rejected an address.
    InvalidAddress,
    /// The decoded packet does not start with a tuple.
    DecodedTokenNotTuple,
    /// The decoded tuple does not start with an unsigned integer.
    TunnelIdMissing,
    /// The fee tank of the payer holds less than the request costs.
    InsufficientFee { available: u128, required: u128 },
    /// An amount left the range of a `u128`.
    Overflow,
    /// A refund came in another denomination than the native one.
    DenomMismatch,
    /// The host replied about a sub-message that the contract never sent.
    UnknownReplyId(u64),
    /// The call did not carry exactly one coin.
    FundsLengthNotOne,
    /// The coin of the call is not of the native denomination.
    NotNativeDenom,
    /// The sender is not the admin.
    NotAdmin,
    /// The stored contract name is not this contract's.
    WrongContract,
    /// The stored version is not older than this one.
    NewerVersion,
    /// The memo of an IBC transfer could not be written as JSON.
    InvalidMemo,
}

/// Name and version of the code that last wrote the storage.
pub struct ContractVersion {
    pub contract: String,
    pub version: String,
}

impl View for ContractVersion {
    type V = (Seq<char>, Seq<char>);

    open spec fn view(&self) -> (Seq<char>, Seq<char>) {
        (self.contract@, self.version@)
    }
}

/// Builds a string from a literal.
pub fn text(s: &str) -> (res: String)
    ensures
        res@ == s@,
{
    s.to_string()
}

/// A response with no attribute, event or message.
pub fn new_response() -> (res: ContractResponse)
    ensures
        res@ == empty_response(),
{
    let res = ContractResponse { attributes: Vec::new(), events: Vec::new(), messages: Vec::new() };
    assert(res@.attributes =~= seq![]);
    assert(res@.events =~= seq![]);
    assert(res@.messages =~= seq![]);
    res
}

/// A response with one attribute.
pub fn attribute_only_response(key: &str, value: &str) -> (res: ContractResponse)
    ensures
        res@ == attribute_response(key@, value@),
{
    let mut attributes = Vec::new();
    attributes.push(Attribute { key: text(key), value: text(value) });
    let res = ContractResponse { attributes, events: Vec::new(), messages: Vec::new() };
    assert(res@.attributes =~= seq![(key@, value@)]);
    assert(res@.events =~= seq![]);
    assert(res@.messages =~= seq![]);
    res
}

} // verus!
