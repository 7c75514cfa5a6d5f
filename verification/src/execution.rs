use vstd::prelude::*;

use crate::bindings::{
    be8, abi_decode, abi_decoded, abi_encode_string_bytes, abi_encoded_string_bytes, abi_type_models,
    metadata_encoding, request_metadata_bytes, AbiToken, AbiType, AbiTypeView, AckType,
};
use crate::modifiers::{funds_view, is_valid_route_fund_modifier, route_fund_check};
use crate::state::{
    balance_or_zero, lookup, store, OracleModel, OracleState, CREATE_OUTBOUND_REQUEST,
};
use crate::types::{
    result_view, Attribute, Coin, ContractError, ContractEvent, ContractResponse,
    CrosschainCall, CrosschainCallView, EventView, OutboundMsg, OutboundMsgView, OutboundRequest,
    OutboundView, ReplyOn,
    ResponseView, StoredItem, attribute_only_response, attribute_response, empty_response,
    new_response, text,
};

verus! {

/// The deposit above which a sender may become the payer of a tunnel.
pub const MINIMUM_FEE: u128 = 10_000_000_000;

/// The gas price of acknowledgements; the Router chain's inbound gas price.
pub const ACK_GAS_PRICE: u64 = 50_000_000;

/// The gas limit of acknowledgements.
pub const ACK_GAS_LIMIT: u64 = 300_000;

/// The relayer fee charged for an acknowledgement.
pub const MINIMUM_RELAYER_FEES: u64 = 25_000_000_000_000_000;

// ---------------------------------------------------------------- admin

/// `update_admin` panics where the sender is not the stored admin.
pub open spec fn update_admin_panics(s: OracleModel, sender: Seq<char>) -> bool {
    s.admin matches Some(a) && a != sender
}

/// The admin nominates `new_admin`; the host has checked that address.
pub open spec fn update_admin_spec(
    s: OracleModel,
    new_admin: Seq<char>,
    new_admin_valid: bool,
) -> (OracleModel, Result<ResponseView, ContractError>) {
    if s.admin is None {
        (s, Err(ContractError::NotFound(StoredItem::Admin)))
    } else if !new_admin_valid {
        (s, Err(ContractError::InvalidAddress))
    } else {
        (OracleModel { new_admin: Some(new_admin), ..s }, Ok(empty_response()))
    }
}

/// Nominates `new_admin` as the next admin. `new_admin_valid` is the host's
/// verdict on the address.
pub fn update_admin(
    state: &mut OracleState,
    sender: &String,
    new_admin: String,
    new_admin_valid: bool,
) -> (res: Result<ContractResponse, ContractError>)
    requires
        old(state).wf(),
        !update_admin_panics(old(state)@, sender@),
    ensures
        final(state).wf(),
        (final(state)@, result_view(res)) == update_admin_spec(old(state)@, new_admin@, new_admin_valid),
{
    match &state.admin {
        None => { return Err(ContractError::NotFound(StoredItem::Admin)); },
        Some(current_admin) => {
            assert(current_admin@ == sender@);
        },
    }
    if !new_admin_valid {
        return Err(ContractError::InvalidAddress);
    }
    state.new_admin = Some(new_admin);
    Ok(new_response())
}

/// `claim_admin` panics where the sender is not the nominated admin.
pub open spec fn claim_admin_panics(s: OracleModel, sender: Seq<char>) -> bool {
    s.new_admin matches Some(n) && n != sender
}

/// The nominated admin takes over; the host has checked its address.
pub open spec fn claim_admin_spec(
    s: OracleModel,
    new_admin_valid: bool,
) -> (OracleModel, Result<ResponseView, ContractError>) {
    if s.new_admin is None {
        (s, Err(ContractError::NotFound(StoredItem::NewAdmin)))
    } else if !new_admin_valid {
        (s, Err(ContractError::InvalidAddress))
    } else {
        (OracleModel { admin: s.new_admin, ..s }, Ok(empty_response()))
    }
}

/// The nominated admin becomes the admin. `new_admin_valid` is the host's
/// verdict on the nominated address.
pub fn claim_admin(state: &mut OracleState, sender: &String, new_admin_valid: bool) -> (res: Result<
    ContractResponse,
    ContractError,
>)
    requires
        old(state).wf(),
        !claim_admin_panics(old(state)@, sender@),
    ensures
        final(state).wf(),
        (final(state)@, result_view(res)) == claim_admin_spec(old(state)@, new_admin_valid),
{
    let new_admin = match &state.new_admin {
        None => { return Err(ContractError::NotFound(StoredItem::NewAdmin)); },
        Some(n) => n.clone(),
    };
    if !new_admin_valid {
        return Err(ContractError::InvalidAddress);
    }
    state.admin = Some(new_admin);
    Ok(new_response())
}

// ---------------------------------------------------------------- funding

/// The amount a call deposits: its one native coin, or nothing.
pub open spec fn deposit_of(funds: Seq<(Seq<char>, u128)>) -> u128 {
    if route_fund_check(funds) is Ok {
        funds[0].1
    } else {
        0
    }
}

/// `register_fee_payer_or_fund` panics where the deposit overflows the
/// sender's balance.
pub open spec fn register_panics(s: OracleModel, sender: Seq<char>, funds: Seq<(Seq<char>, u128)>) -> bool {
    route_fund_check(funds) is Ok && balance_or_zero(s.fee_tank, sender) + funds[0].1 > u128::MAX
}

/// Tells whether `register_fee_payer_or_fund` would panic.
pub fn register_would_panic(state: &OracleState, sender: &String, funds: &Vec<Coin>) -> (res: bool)
    requires
        state.wf(),
    ensures
        res == register_panics(state@, sender@, funds_view(funds@)),
{
    if is_valid_route_fund_modifier(funds).is_ok() {
        let available_fee = match state.fee_tank.get(sender) {
            Some(a) => *a,
            None => 0,
        };
        available_fee.checked_add(funds[0].amount).is_none()
    } else {
        false
    }
}

/// A deposit of one native coin goes to the sender's tank; a deposit above
/// the minimum fee also makes the sender the payer of the named tunnel.
pub open spec fn register_spec(
    s: OracleModel,
    sender: Seq<char>,
    funds: Seq<(Seq<char>, u128)>,
    tunnel_id: Option<u64>,
) -> (OracleModel, Result<ResponseView, ContractError>) {
    let fund = deposit_of(funds);
    let fee_tank = if route_fund_check(funds) is Ok {
        s.fee_tank.insert(sender, (balance_or_zero(s.fee_tank, sender) + fund) as u128)
    } else {
        s.fee_tank
    };
    let fee_payers = if tunnel_id is Some && fund > MINIMUM_FEE {
        s.fee_payers.insert(tunnel_id->0, sender)
    } else {
        s.fee_payers
    };
    (
        OracleModel { fee_tank, fee_payers, ..s },
        Ok(attribute_response("action"@, "register_fee_payer"@)),
    )
}

/// Adds the sender's native coin to its deposit and, where the deposit of
/// this call exceeds the minimum fee, makes it the payer of `tunnel_id`.
pub fn register_fee_payer_or_fund(
    state: &mut OracleState,
    sender: &String,
    funds: &Vec<Coin>,
    tunnel_id: Option<u64>,
) -> (res: Result<ContractResponse, ContractError>)
    requires
        old(state).wf(),
        !register_panics(old(state)@, sender@, funds_view(funds@)),
    ensures
        final(state).wf(),
        (final(state)@, result_view(res)) == register_spec(
            old(state)@,
            sender@,
            funds_view(funds@),
            tunnel_id,
        ),
{
    let mut fund: u128 = 0;
    if is_valid_route_fund_modifier(funds).is_ok() {
        fund = funds[0].amount;
        let available_fee = match state.fee_tank.get(sender) {
            Some(a) => *a,
            None => 0,
        };
        state.fee_tank.set(sender, available_fee + fund);
    }
    if tunnel_id.is_some() && fund > MINIMUM_FEE {
        store(&mut state.fee_payers, tunnel_id.unwrap(), sender.clone());
    }
    Ok(attribute_only_response("action", "register_fee_payer"))
}

// ---------------------------------------------------------------- band data

/// The layout of a price packet: tunnel id, sequence, the signal prices as
/// pairs of signal id and price, and the creation time.
pub open spec fn band_packet_layout() -> Seq<AbiTypeView> {
    seq![
        AbiTypeView::Tuple(
            seq![
                AbiTypeView::Uint(64),
                AbiTypeView::Uint(64),
                AbiTypeView::Array(
                    Box::new(
                        AbiTypeView::Tuple(seq![AbiTypeView::FixedBytes(32), AbiTypeView::Uint(64)]),
                    ),
                ),
                AbiTypeView::Int(64),
            ],
        ),
    ]
}

/// The layout of a price packet as the decoder takes it.
pub fn band_packet_types() -> (res: Vec<AbiType>)
    ensures
        abi_type_models(res@) == band_packet_layout(),
{
    let mut signal: Vec<AbiType> = Vec::new();
    signal.push(AbiType::FixedBytes(32));
    signal.push(AbiType::Uint(64));
    let mut fields: Vec<AbiType> = Vec::new();
    fields.push(AbiType::Uint(64));
    fields.push(AbiType::Uint(64));
    fields.push(AbiType::Array(Box::new(AbiType::Tuple(signal))));
    fields.push(AbiType::Int(64));
    let mut res: Vec<AbiType> = Vec::new();
    res.push(AbiType::Tuple(fields));
    proof {
        reveal_with_fuel(abi_type_models, 5);
        assert(abi_type_models(signal@) =~= seq![
            AbiTypeView::FixedBytes(32),
            AbiTypeView::Uint(64),
        ]);
        assert(abi_type_models(fields@) =~= seq![
            AbiTypeView::Uint(64),
            AbiTypeView::Uint(64),
            AbiTypeView::Array(
                Box::new(
                    AbiTypeView::Tuple(seq![AbiTypeView::FixedBytes(32), AbiTypeView::Uint(64)]),
                ),
            ),
            AbiTypeView::Int(64),
        ]);
        assert(abi_type_models(res@) =~= band_packet_layout());
    }
    res
}

/// The tunnel id that a decoded packet names, as its first field.
pub open spec fn tunnel_id_of(tokens: Seq<AbiToken>) -> Result<u64, ContractError> {
    if tokens.len() > 0 && tokens[0] is Tuple {
        let values = tokens[0]->Tuple_0@;
        if values.len() > 0 && values[0] is Uint {
            Ok(values[0]->Uint_0@[0])
        } else {
            Err(ContractError::TunnelIdMissing)
        }
    } else {
        Err(ContractError::DecodedTokenNotTuple)
    }
}

/// Reading the tunnel id as a `u64` panics where it does not fit.
pub open spec fn tunnel_id_overflows(tokens: Seq<AbiToken>) -> bool {
    &&& tokens.len() > 0
    &&& tokens[0] is Tuple
    &&& tokens[0]->Tuple_0@.len() > 0
    &&& tokens[0]->Tuple_0@[0] is Uint
    &&& {
        let w = tokens[0]->Tuple_0@[0]->Uint_0@;
        w[1] != 0 || w[2] != 0 || w[3] != 0
    }
}

/// Reads the tunnel id of a decoded packet.
pub fn tunnel_id_from_tokens(tokens: &Vec<AbiToken>) -> (res: Result<u64, ContractError>)
    requires
        !tunnel_id_overflows(tokens@),
    ensures
        res == tunnel_id_of(tokens@),
{
    if tokens.len() > 0 {
        match &tokens[0] {
            AbiToken::Tuple(values) => {
                if values.len() > 0 {
                    match &values[0] {
                        AbiToken::Uint(w) => {
                            return Ok(w[0]);
                        },
                        _ => {},
                    }
                }
                Err(ContractError::TunnelIdMissing)
            },
            _ => Err(ContractError::DecodedTokenNotTuple),
        }
    } else {
        Err(ContractError::DecodedTokenNotTuple)
    }
}

/// The cross-chain call that forwards a packet: the packet with its sender
/// prepended, addressed to the destination contract.
pub open spec fn band_request_call(
    sender: Seq<char>,
    dest_chain_id: Seq<char>,
    dest_contract_address: Seq<char>,
    gas_limit: u64,
    gas_price: u64,
    payload: Seq<u8>,
) -> CrosschainCallView {
    CrosschainCallView {
        version: 1,
        route_amount: 0,
        route_recipient: Seq::empty(),
        dest_chain_id,
        request_metadata: metadata_encoding(
            gas_limit,
            gas_price,
            ACK_GAS_LIMIT,
            ACK_GAS_PRICE,
            0,
            AckType::AckOnBoth,
            false,
            vstd::utf8::encode_utf8(Seq::empty()),
        ),
        request_packet: abi_encoded_string_bytes(
            dest_contract_address,
            abi_encoded_string_bytes(sender, payload),
        ),
    }
}

/// The event that the reply to a forwarded packet emits.
pub open spec fn band_data_event(fee_payer: Seq<char>) -> EventView {
    EventView {
        kind: "ReceiveBandDataEvent"@,
        attributes: seq![("action"@, "ReceiveBandData"@), ("fee_payer"@, fee_payer)],
    }
}

/// Forwards a decoded packet: its tunnel's payer becomes the current payer,
/// the event for the reply is kept, and the call goes out.
pub open spec fn receive_band_data_spec(
    s: OracleModel,
    sender: Seq<char>,
    dest_chain_id: Seq<char>,
    dest_contract_address: Seq<char>,
    gas_limit: u64,
    gas_price: u64,
    payload: Seq<u8>,
    tokens: Seq<AbiToken>,
) -> (OracleModel, Result<ResponseView, ContractError>) {
    match tunnel_id_of(tokens) {
        Err(e) => (s, Err(e)),
        Ok(tunnel_id) => if !s.fee_payers.contains_key(tunnel_id) {
            (s, Err(ContractError::NotFound(StoredItem::FeePayer)))
        } else {
            let fee_payer = s.fee_payers[tunnel_id];
            (
                OracleModel {
                    current_fee_payer: Some(fee_payer),
                    pending_event: Some(band_data_event(fee_payer)),
                    ..s
                },
                Ok(
                    ResponseView {
                        attributes: seq![("action"@, "ReceiveIbcTokens"@)],
                        events: seq![],
                        messages: seq![
                            OutboundView {
                                id: CREATE_OUTBOUND_REQUEST,
                                msg: OutboundMsgView::Crosschain(
                                    band_request_call(
                                        sender,
                                        dest_chain_id,
                                        dest_contract_address,
                                        gas_limit,
                                        gas_price,
                                        payload,
                                    ),
                                ),
                                reply_on: ReplyOn::Success,
                            },
                        ],
                    },
                ),
            )
        },
    }
}

/// Forwards a price packet whose decoding is `tokens`.
pub fn receive_band_data_decoded(
    state: &mut OracleState,
    sender: &String,
    dest_chain_id: String,
    dest_contract_address: String,
    gas_limit: u64,
    gas_price: u64,
    payload: Vec<u8>,
    tokens: Vec<AbiToken>,
) -> (res: Result<ContractResponse, ContractError>)
    requires
        old(state).wf(),
        !tunnel_id_overflows(tokens@),
    ensures
        final(state).wf(),
        (final(state)@, result_view(res)) == receive_band_data_spec(
            old(state)@,
            sender@,
            dest_chain_id@,
            dest_contract_address@,
            gas_limit,
            gas_price,
            payload@,
            tokens@,
        ),
        final(state)@.fee_payers == old(state)@.fee_payers,
{
    let tunnel_id = match tunnel_id_from_tokens(&tokens) {
        Ok(t) => t,
        Err(e) => { return Err(e); },
    };
    let fee_payer = match lookup(&state.fee_payers, tunnel_id) {
        Some(p) => p,
        None => { return Err(ContractError::NotFound(StoredItem::FeePayer)); },
    };
    let payload_with_caller = abi_encode_string_bytes(sender, &payload);
    let request_packet = abi_encode_string_bytes(&dest_contract_address, &payload_with_caller);
    let asm_address = String::new();
    let request_metadata = request_metadata_bytes(
        gas_limit,
        gas_price,
        ACK_GAS_LIMIT,
        ACK_GAS_PRICE,
        0,
        AckType::AckOnBoth,
        false,
        asm_address.as_str(),
    );
    let call = CrosschainCall {
        version: 1,
        route_amount: 0,
        route_recipient: String::new(),
        dest_chain_id,
        request_metadata,
        request_packet,
    };
    let mut event_attributes = Vec::new();
    event_attributes.push(Attribute { key: text("action"), value: text("ReceiveBandData") });
    event_attributes.push(Attribute { key: text("fee_payer"), value: fee_payer.clone() });
    let event = ContractEvent { kind: text("ReceiveBandDataEvent"), attributes: event_attributes };
    let mut res = attribute_only_response("action", "ReceiveIbcTokens");
    res.messages.push(
        OutboundRequest {
            id: CREATE_OUTBOUND_REQUEST,
            msg: OutboundMsg::Crosschain(call),
            reply_on: ReplyOn::Success,
        },
    );
    proof {
        assert(event@.attributes =~= band_data_event(fee_payer@).attributes);
        assert(res@.messages =~= seq![
            OutboundView {
                id: CREATE_OUTBOUND_REQUEST,
                msg: OutboundMsgView::Crosschain(
                    band_request_call(
                        sender@,
                        dest_chain_id@,
                        dest_contract_address@,
                        gas_limit,
                        gas_price,
                        payload@,
                    ),
                ),
                reply_on: ReplyOn::Success,
            },
        ]);
    }
    state.current_fee_payer = Some(fee_payer);
    state.pending_event = Some(event);
    Ok(res)
}

/// `receive_band_data` panics where the decoder's offset arithmetic may
/// overflow, where the payload does not decode as a price packet, or where
/// its tunnel id does not fit in a `u64`.
pub open spec fn receive_band_data_panics(payload: Seq<u8>) -> bool {
    ||| !band_packet_offsets_bounded(payload)
    ||| match abi_decoded(band_packet_layout(), payload) {
        None => true,
        Some(tokens) => tunnel_id_overflows(tokens),
    }
}

/// The tunnel id of a price packet: the low 64 bits of the first word of
/// the tuple.
pub open spec fn packet_tunnel_id(payload: Seq<u8>) -> int {
    be8(payload, word_low32(payload, 0) + 24)
}

/// Decodes a price packet and forwards it, with its sender, to the
/// destination contract; the payer of its tunnel becomes the current payer.
pub fn receive_band_data(
    state: &mut OracleState,
    sender: &String,
    dest_chain_id: String,
    dest_contract_address: String,
    gas_limit: u64,
    gas_price: u64,
    payload: Vec<u8>,
) -> (res: Result<ContractResponse, ContractError>)
    requires
        old(state).wf(),
        !receive_band_data_panics(payload@),
    ensures
        final(state).wf(),
        abi_decoded(band_packet_layout(), payload@) matches Some(tokens) && (
        final(state)@,
        result_view(res),
        ) == receive_band_data_spec(
            old(state)@,
            sender@,
            dest_chain_id@,
            dest_contract_address@,
            gas_limit,
            gas_price,
            payload@,
            tokens,
        ),
        res is Ok ==> (exists|t: u64|
            #![trigger old(state)@.fee_payers[t]]
            t == packet_tunnel_id(payload@) && old(state)@.fee_payers.contains_key(t)
                && final(state)@.current_fee_payer == Some(old(state)@.fee_payers[t])),
        final(state)@.fee_payers == old(state)@.fee_payers,
{
    let types = band_packet_types();
    let tokens = abi_decode(&types, payload.as_slice()).unwrap();
    proof {
        let values = tokens@[0]->Tuple_0@;
        assert(values[0]->Uint_0@[0] as int == be8(payload@, word_low32(payload@, 0) + 24));
    }
    receive_band_data_decoded(
        state,
        sender,
        dest_chain_id,
        dest_contract_address,
        gas_limit,
        gas_price,
        payload,
        tokens,
    )
}

/// `receive_band_data` where it does not panic; `None`, with the storage
/// untouched, where it would.
pub fn try_receive_band_data(
    state: &mut OracleState,
    sender: &String,
    dest_chain_id: String,
    dest_contract_address: String,
    gas_limit: u64,
    gas_price: u64,
    payload: Vec<u8>,
) -> (res: Option<Result<ContractResponse, ContractError>>)
    requires
        old(state).wf(),
    ensures
        final(state).wf(),
        res is None <==> receive_band_data_panics(payload@),
        res is None ==> final(state)@ == old(state)@,
        res matches Some(r) ==> abi_decoded(band_packet_layout(), payload@) matches Some(tokens) && (
        final(state)@,
        result_view(r),
        ) == receive_band_data_spec(
            old(state)@,
            sender@,
            dest_chain_id@,
            dest_contract_address@,
            gas_limit,
            gas_price,
            payload@,
            tokens,
        ),
{
    if receive_band_data_would_panic(&payload) {
        None
    } else {
        Some(
            receive_band_data(
                state,
                sender,
                dest_chain_id,
                dest_contract_address,
                gas_limit,
                gas_price,
                payload,
            ),
        )
    }
}

/// Tells whether `receive_band_data` would panic on `payload`.
pub fn receive_band_data_would_panic(payload: &Vec<u8>) -> (res: bool)
    ensures
        res == receive_band_data_panics(payload@),
{
    if !band_packet_offsets_bounded_check(payload.as_slice()) {
        return true;
    }
    let types = band_packet_types();
    match abi_decode(&types, payload.as_slice()) {
        None => true,
        Some(tokens) => tunnel_id_overflow_check(&tokens),
    }
}

/// The 28 high bytes of the 32-byte word at `start` are zero.
pub open spec fn word_high_zero(data: Seq<u8>, start: int) -> bool {
    forall|i: int| start <= i < start + 28 ==> data[i] == 0
}

/// The value of the 4 low bytes of the big-endian 32-byte word at `start`.
pub open spec fn word_low32(data: Seq<u8>, start: int) -> int {
    data[start + 28] * 0x1000000 + data[start + 29] * 0x10000 + data[start + 30] * 0x100 + data[
        start + 31
    ]
}

/// The offsets that the decoder reads from a price packet cannot overflow
/// its offset arithmetic: the data leaves room above its length, and where
/// the decoder reaches the word that locates the signal array (the word at
/// 64 past the tuple's offset), that word is at most the data's length.
pub open spec fn band_packet_offsets_bounded(data: Seq<u8>) -> bool {
    &&& data.len() + 128 <= usize::MAX
    &&& ({
        let off = word_low32(data, 0);
        (data.len() >= 32 && word_high_zero(data, 0) && off + 96 <= data.len() && word_high_zero(
            data,
            off + 64,
        )) ==> word_low32(data, off + 64) <= data.len()
    })
}

fn word_is_high_zero(data: &[u8], start: usize) -> (res: bool)
    requires
        start + 32 <= data.len(),
    ensures
        res == word_high_zero(data@, start as int),
{
    let mut i: usize = 0;
    while i < 28
        invariant
            i <= 28,
            start + 32 <= data.len(),
            forall|j: int| start <= j < start + i ==> data@[j] == 0,
        decreases 28 - i,
    {
        if data[start + i] != 0 {
            return false;
        }
        i = i + 1;
    }
    true
}

fn word_low32_value(data: &[u8], start: usize) -> (res: u64)
    requires
        start + 32 <= data.len(),
    ensures
        res == word_low32(data@, start as int),
{
    (data[start + 28] as u64) * 0x1000000 + (data[start + 29] as u64) * 0x10000 + (data[start
        + 30] as u64) * 0x100 + (data[start + 31] as u64)
}

/// Tells whether the offsets of a price packet are bounded.
pub fn band_packet_offsets_bounded_check(data: &[u8]) -> (res: bool)
    ensures
        res == band_packet_offsets_bounded(data@),
{
    let n = data.len();
    if n > usize::MAX - 128 {
        return false;
    }
    if n < 32 || !word_is_high_zero(data, 0) {
        return true;
    }
    let off = word_low32_value(data, 0);
    if off + 96 > n as u64 {
        return true;
    }
    let off = off as usize;
    if !word_is_high_zero(data, off + 64) {
        return true;
    }
    word_low32_value(data, off + 64) <= n as u64
}

/// Tells whether reading the tunnel id of a decoded packet would overflow.
pub fn tunnel_id_overflow_check(tokens: &Vec<AbiToken>) -> (res: bool)
    ensures
        res == tunnel_id_overflows(tokens@),
{
    if tokens.len() > 0 {
        match &tokens[0] {
            AbiToken::Tuple(values) => {
                if values.len() > 0 {
                    match &values[0] {
                        AbiToken::Uint(w) => {
                            return w[1] != 0 || w[2] != 0 || w[3] != 0;
                        },
                        _ => {},
                    }
                }
                false
            },
            _ => false,
        }
    } else {
        false
    }
}

} // verus!
