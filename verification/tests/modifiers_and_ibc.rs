use oracle_manager::handle_revert::{
    revert_funds_to_ibc_chain, ContractEnv, IbcChannelInfo, TempIncomingCall, CREATE_IBC_TANSFER,
};
use oracle_manager::ibc::{receive_ack, receive_timeout, AwaitingIbcTransfer, TransferStatus};
use oracle_manager::ledger::StringMap;
use oracle_manager::modifiers::{is_ibc, is_valid_route_fund_modifier, validate_funds};
use oracle_manager::outbound::{
    create_outbound, create_reserve_outbound_request, send_failed_request, ReserveOutcome,
    ReserveTokens,
};
use oracle_manager::state::{OracleState, CREATE_OUTBOUND_REPLY_ID};
use oracle_manager::types::{
    Coin, ContractError, StoredItem, CrosschainCall, OutboundMsg, ReplyOn, RouterRequest, TxlookupCall,
};
use oracle_manager::utils::{include_callback_inside_memo, insert_callback_key};

fn s(x: &str) -> String {
    x.to_string()
}

fn coin(denom: &str, amount: u128) -> Coin {
    Coin { denom: s(denom), amount }
}

#[test]
fn ibc_denominations() {
    assert!(is_ibc(&s("ibc/27394FB092D2ECCD56123C74F36E4C1F926001CEADA9CA97EA622B25F41E5EB2")));
    assert!(is_ibc(&s("ibc/")));
    assert!(!is_ibc(&s("ibc")));
    assert!(!is_ibc(&s("IBC/x")));
    assert!(!is_ibc(&s("route")));
    assert!(!is_ibc(&s("")));
    assert!(!is_ibc(&s("xibc/")));
}

#[test]
fn route_fund_modifier() {
    assert_eq!(is_valid_route_fund_modifier(&vec![]), Err(ContractError::FundsLengthNotOne));
    assert_eq!(
        is_valid_route_fund_modifier(&vec![coin("route", 1), coin("route", 1)]),
        Err(ContractError::FundsLengthNotOne)
    );
    assert_eq!(is_valid_route_fund_modifier(&vec![coin("uatom", 1)]), Err(ContractError::NotNativeDenom));
    assert_eq!(is_valid_route_fund_modifier(&vec![coin("route", 1)]), Ok(()));
}

#[test]
fn funds_split() {
    assert_eq!(validate_funds(&vec![coin("route", 9)]), Ok((9, s(""), 0)));
    assert_eq!(validate_funds(&vec![coin("ibc/AB", 4)]), Ok((0, s("ibc/AB"), 4)));
    assert_eq!(validate_funds(&vec![coin("route", 2), coin("ibc/CD", 3)]), Ok((2, s("ibc/CD"), 3)));
}

#[test]
fn callback_memo_json() {
    assert_eq!(include_callback_inside_memo(&s("router1contract")), Ok(s(r#"{"ibc_callback":"router1contract"}"#)));
    let mut m: StringMap<String> = StringMap::new();
    m.set(&s("ibc_callback"), s("old"));
    m.set(&s("z"), s("1"));
    let m = insert_callback_key(m, &s("new"));
    assert_eq!(m.entries.len(), 2);
    assert_eq!(m.get(&s("ibc_callback")).map(|x| x.as_str()), Some("new"));
}

fn incoming() -> TempIncomingCall {
    TempIncomingCall {
        src_chain_id: s("osmosis-1"),
        token_addr: s("ibc/XYZ"),
        amount: 55,
        local_fallback_address: s("osmo1fallback"),
    }
}

fn ibc_state(timeout: u64) -> OracleState {
    let mut st = OracleState::new();
    st.whitelisted_ibc_channels.set(
        &s("osmosis-1"),
        IbcChannelInfo { outgoing_port: s("transfer"), outgoing_channel: s("channel-3"), timeout_timestamp: timeout },
    );
    st.temp_incoming_ibc_call = Some(incoming());
    st
}

fn env() -> ContractEnv {
    ContractEnv { block_time_nanos: 1_000, chain_id: s("router_9600-1"), contract_address: s("router1me") }
}

#[test]
fn revert_returns_funds() {
    let mut st = ibc_state(600);
    let response = revert_funds_to_ibc_chain(&mut st, &env(), "err").unwrap();
    assert!(st.temp_incoming_ibc_call.is_none());
    let out = st.temp_outgoing_ibc_call.as_ref().unwrap();
    assert_eq!(out.source_channel, "channel-3");
    assert_eq!(out.src_chain_id, "router_9600-1");
    assert_eq!(out.dest_chain_id, "osmosis-1");
    assert_eq!(out.amount, 55);
    assert_eq!(out.sender, "router1me");
    assert_eq!(out.recipient, "osmo1fallback");
    assert_eq!(out.token_addr, "ibc/XYZ");
    assert_eq!(response.attributes[0].value, "send_ibc_tokens");
    assert_eq!(response.messages[0].id, CREATE_IBC_TANSFER);
    assert!(response.messages[0].reply_on == ReplyOn::Always);
    match &response.messages[0].msg {
        OutboundMsg::IbcTransfer(t) => {
            assert_eq!(t.timeout_timestamp, Some(1_000 + 600 * 1_000_000_000));
            assert_eq!(t.memo, r#"{"ibc_callback":"router1me"}"#);
            assert_eq!(t.token.denom, "ibc/XYZ");
            assert_eq!(t.token.amount, 55);
            assert_eq!(t.receiver, "osmo1fallback");
            assert_eq!(t.source_port, "transfer");
        }
        _ => panic!("expected a transfer"),
    }
    let mut st = ibc_state(0);
    let response = revert_funds_to_ibc_chain(&mut st, &env(), "err").unwrap();
    match &response.messages[0].msg {
        OutboundMsg::IbcTransfer(t) => assert_eq!(t.timeout_timestamp, None),
        _ => panic!("expected a transfer"),
    }
}

#[test]
fn revert_without_records_is_refused() {
    let mut st = ibc_state(0);
    st.temp_incoming_ibc_call = None;
    assert_eq!(
        revert_funds_to_ibc_chain(&mut st, &env(), "err").err(),
        Some(ContractError::NotFound(StoredItem::TempIncomingIbcCall))
    );
    let mut st = OracleState::new();
    st.temp_incoming_ibc_call = Some(incoming());
    assert_eq!(
        revert_funds_to_ibc_chain(&mut st, &env(), "err").err(),
        Some(ContractError::NotFound(StoredItem::WhitelistedIbcChannel))
    );
    assert!(st.temp_incoming_ibc_call.is_some());
    assert!(st.temp_outgoing_ibc_call.is_none());
}

#[test]
fn ack_and_timeout_set_status() {
    let mut st = OracleState::new();
    st.awaiting_ibc_transfers.insert(4, AwaitingIbcTransfer { source_channel: s("channel-1"), status: None });
    let r = receive_ack(&mut st, s("channel-1"), 4, true).unwrap();
    assert_eq!(st.awaiting_ibc_transfers[&4].status, Some(TransferStatus::Completed));
    assert_eq!(r.events[0].kind, "IBCReceiveAck success");
    receive_ack(&mut st, s("channel-1"), 4, false).unwrap();
    assert_eq!(st.awaiting_ibc_transfers[&4].status, Some(TransferStatus::Failed));
    st.awaiting_ibc_transfers.insert(4, AwaitingIbcTransfer { source_channel: s("channel-1"), status: Some(TransferStatus::Completed) });
    let r = receive_timeout(&mut st, s("channel-1"), 4).unwrap();
    assert_eq!(st.awaiting_ibc_transfers[&4].status, Some(TransferStatus::Failed));
    assert_eq!(r.events[0].kind, "IBCReceiveTimeOut success");
}

#[test]
fn ack_for_unknown_transfer_is_refused() {
    let mut st = OracleState::new();
    st.awaiting_ibc_transfers.insert(4, AwaitingIbcTransfer { source_channel: s("channel-1"), status: None });
    assert_eq!(receive_ack(&mut st, s("channel-2"), 4, true).err(), Some(ContractError::NotFound(StoredItem::AwaitingIbcTransfer)));
    assert_eq!(receive_timeout(&mut st, s("channel-1"), 5).err(), Some(ContractError::NotFound(StoredItem::AwaitingIbcTransfer)));
    assert_eq!(st.awaiting_ibc_transfers[&4].status, None);
}

fn text_tokens() -> ReserveTokens {
    ReserveTokens::Text { recipient: s("r"), token: s("t") }
}

fn call() -> CrosschainCall {
    CrosschainCall {
        version: 1,
        route_amount: 0,
        route_recipient: s(""),
        dest_chain_id: s("5"),
        request_metadata: vec![1],
        request_packet: vec![2],
    }
}

#[test]
fn outbound_calls() {
    let r = send_failed_request(RouterRequest::CrosschainCall(call())).unwrap();
    assert_eq!(r.messages[0].id, CREATE_OUTBOUND_REPLY_ID);
    let mut st = OracleState::new();
    let r = create_outbound(&mut st, s("0xabc"), vec![9, 9], s("43114"), [0, 77]).unwrap();
    let kept = st.outbound_request.as_ref().unwrap();
    assert_eq!(kept.request_packet, solabi::encode(&(s("0xabc"), solabi::Bytes(vec![9u8, 9]))));
    let mut meta = Vec::new();
    meta.extend_from_slice(&0u64.to_be_bytes());
    meta.extend_from_slice(&77u64.to_be_bytes());
    meta.extend_from_slice(&300_000u64.to_be_bytes());
    meta.extend_from_slice(&10_000_000u64.to_be_bytes());
    meta.extend_from_slice(&0u128.to_be_bytes());
    meta.push(3);
    meta.push(0);
    assert_eq!(kept.request_metadata, meta);
    match &r.messages[0].msg {
        OutboundMsg::Crosschain(c) => assert_eq!(c.dest_chain_id, "43114"),
        _ => panic!("expected a call"),
    }
}

#[test]
fn reserve_request() {
    let mut st = OracleState::new();
    let r = create_reserve_outbound_request(&mut st, None, Ok(vec![0; 32]), s("1"), text_tokens(), 5, 6, None, [0, 1]);
    assert!(matches!(r, Ok(ReserveOutcome::RevertInbound)));
    let r = create_reserve_outbound_request(&mut st, Some(s("d")), Err(ContractError::Overflow), s("1"), text_tokens(), 5, 6, None, [0, 1]);
    assert!(matches!(r, Err(ContractError::Overflow)));
    let chain = vec![7u8; 32];
    let r = create_reserve_outbound_request(&mut st, Some(s("d")), Ok(chain.clone()), s("1"), text_tokens(), 5, 6, Some(vec![1, 2]), [0, 1]);
    assert!(matches!(r, Ok(ReserveOutcome::Sent(_))));
    let mut fixed = [0u8; 32];
    fixed.copy_from_slice(&chain);
    let payload = solabi::encode(&(
        solabi::U256::new(1u128),
        solabi::Bytes(fixed),
        (s("r"), s("t"), solabi::U256::new(5u128), solabi::U256::new(6u128)),
        solabi::Bytes(vec![1u8, 2]),
    ));
    let kept = st.outbound_request.as_ref().unwrap();
    assert_eq!(kept.request_packet, solabi::encode(&(s("d"), solabi::Bytes(payload))));
}

#[test]
fn reserve_request_without_instruction() {
    let mut st = OracleState::new();
    let chain = vec![3u8; 32];
    let r = create_reserve_outbound_request(&mut st, Some(s("d")), Ok(chain.clone()), s("9"), text_tokens(), 11, 12, None, [0, 4]);
    let response = match r {
        Ok(ReserveOutcome::Sent(response)) => response,
        _ => panic!("expected a sent request"),
    };
    let mut fixed = [0u8; 32];
    fixed.copy_from_slice(&chain);
    let payload = solabi::encode(&(
        solabi::U256::new(0u128),
        solabi::Bytes(fixed),
        (s("r"), s("t"), solabi::U256::new(11u128), solabi::U256::new(12u128)),
    ));
    match &response.messages[0].msg {
        OutboundMsg::Crosschain(c) => {
            assert_eq!(c.request_packet, solabi::encode(&(s("d"), solabi::Bytes(payload))));
            assert_eq!(c.dest_chain_id, "9");
        }
        _ => panic!("expected a call"),
    }
}

#[test]
fn reserve_request_with_evm_addresses() {
    let mut st = OracleState::new();
    let chain = vec![5u8; 32];
    let tokens = ReserveTokens::Evm { recipient_address: [1u8; 20], token_address: [2u8; 20] };
    let r = create_reserve_outbound_request(&mut st, Some(s("d")), Ok(chain.clone()), s("9"), tokens, 11, 12, None, [0, 4]);
    assert!(matches!(r, Ok(ReserveOutcome::Sent(_))));
    let mut fixed = [0u8; 32];
    fixed.copy_from_slice(&chain);
    let payload = solabi::encode(&(
        solabi::U256::new(0u128),
        solabi::Bytes(fixed),
        (solabi::Address([1u8; 20]), solabi::Address([2u8; 20]), solabi::U256::new(11u128), solabi::U256::new(12u128)),
    ));
    let kept = st.outbound_request.as_ref().unwrap();
    assert_eq!(kept.request_packet, solabi::encode(&(s("d"), solabi::Bytes(payload))));
    let tokens = ReserveTokens::Evm { recipient_address: [1u8; 20], token_address: [2u8; 20] };
    let r = create_reserve_outbound_request(&mut st, Some(s("d")), Ok(chain.clone()), s("9"), tokens, 11, 12, Some(vec![7]), [0, 4]);
    assert!(matches!(r, Ok(ReserveOutcome::Sent(_))));
    let payload = solabi::encode(&(
        solabi::U256::new(1u128),
        solabi::Bytes(fixed),
        (solabi::Address([1u8; 20]), solabi::Address([2u8; 20]), solabi::U256::new(11u128), solabi::U256::new(12u128)),
        solabi::Bytes(vec![7u8]),
    ));
    let kept = st.outbound_request.as_ref().unwrap();
    assert_eq!(kept.request_packet, solabi::encode(&(s("d"), solabi::Bytes(payload))));
}

#[test]
fn failed_lookup_is_sent_again() {
    let lookup = TxlookupCall {
        chain_ids: vec![s("1")],
        tx_hashes: vec![s("0xaa")],
        metadata: vec![vec![1, 2]],
        middleware_contract_address: s("mw"),
        fee: 9,
        cw_gas_limit: 100,
    };
    let r = send_failed_request(RouterRequest::TxlookupCall(lookup)).unwrap();
    assert_eq!(r.messages[0].id, CREATE_OUTBOUND_REPLY_ID);
    match &r.messages[0].msg {
        OutboundMsg::Txlookup(t) => {
            assert_eq!(t.fee, 9);
            assert_eq!(t.tx_hashes, vec![s("0xaa")]);
        }
        _ => panic!("expected a lookup"),
    }
}

#[test]
fn memo_escapes_json() {
    assert_eq!(
        include_callback_inside_memo(&s("a\"b\\c\n\u{1}")),
        Ok(s(r#"{"ibc_callback":"a\"b\\c\n\u0001"}"#))
    );
}

fn abi_word(n: usize) -> Vec<u8> {
    let mut w = vec![0u8; 24];
    w.extend_from_slice(&(n as u64).to_be_bytes());
    w
}

fn padded(b: &[u8]) -> Vec<u8> {
    let mut v = b.to_vec();
    while v.len() % 32 != 0 {
        v.push(0);
    }
    v
}

#[test]
fn string_bytes_encoding_layout() {
    let mut st = OracleState::new();
    let payload: Vec<u8> = (0..40u8).collect();
    create_outbound(&mut st, s("é0x"), payload.clone(), s("1"), [0, 0]).unwrap();
    let sb = "é0x".as_bytes();
    let mut expected = abi_word(64);
    expected.extend(abi_word(64 + 32 + padded(sb).len()));
    expected.extend(abi_word(sb.len()));
    expected.extend(padded(sb));
    expected.extend(abi_word(payload.len()));
    expected.extend(padded(&payload));
    assert_eq!(st.outbound_request.as_ref().unwrap().request_packet, expected);
}

fn word_of(n: u128) -> Vec<u8> {
    let mut w = vec![0u8; 16];
    w.extend_from_slice(&n.to_be_bytes());
    w
}

#[test]
fn reserve_encoding_layouts() {
    let chain = vec![9u8; 32];
    let mut st = OracleState::new();
    let tokens = ReserveTokens::Text { recipient: s("rcpt"), token: s("tok") };
    create_reserve_outbound_request(&mut st, Some(s("d")), Ok(chain.clone()), s("1"), tokens, 11, 12, Some(vec![4, 5]), [0, 0]).unwrap();
    let mut inner = word_of(128);
    inner.extend(word_of(128 + 32 + 32));
    inner.extend(word_of(11));
    inner.extend(word_of(12));
    inner.extend(word_of(4));
    inner.extend(padded(b"rcpt"));
    inner.extend(word_of(3));
    inner.extend(padded(b"tok"));
    let mut payload = word_of(1);
    payload.extend(chain.clone());
    payload.extend(word_of(128));
    payload.extend(word_of(128 + inner.len() as u128));
    payload.extend(inner);
    payload.extend(word_of(2));
    payload.extend(padded(&[4, 5]));
    let mut expected = word_of(64);
    expected.extend(word_of(64 + 32 + 32));
    expected.extend(word_of(1));
    expected.extend(padded(b"d"));
    expected.extend(word_of(payload.len() as u128));
    expected.extend(padded(&payload));
    let got = st.outbound_request.as_ref().unwrap().request_packet.clone();
    let i = got.iter().zip(expected.iter()).position(|(a, b)| a != b);
    assert!(i.is_none() && got.len() == expected.len(), "len {} {} at {:?}: {:?} vs {:?}", got.len(), expected.len(), i, &got[i.unwrap_or(0)..(i.unwrap_or(0) + 40).min(got.len())], &expected[i.unwrap_or(0)..(i.unwrap_or(0) + 40).min(expected.len())]);

    let tokens = ReserveTokens::Evm { recipient_address: [1u8; 20], token_address: [2u8; 20] };
    create_reserve_outbound_request(&mut st, Some(s("d")), Ok(chain.clone()), s("1"), tokens, 11, 12, None, [0, 0]).unwrap();
    let mut payload = word_of(0);
    payload.extend(chain.clone());
    payload.extend(vec![0u8; 12]);
    payload.extend([1u8; 20]);
    payload.extend(vec![0u8; 12]);
    payload.extend([2u8; 20]);
    payload.extend(word_of(11));
    payload.extend(word_of(12));
    let mut expected = word_of(64);
    expected.extend(word_of(64 + 32 + 32));
    expected.extend(word_of(1));
    expected.extend(padded(b"d"));
    expected.extend(word_of(payload.len() as u128));
    expected.extend(padded(&payload));
    assert_eq!(st.outbound_request.as_ref().unwrap().request_packet, expected);
}
