use oracle_manager::contract::{
    execute, instantiate, migrate, query, sudo, text_at_least, try_execute, try_reply,
    QueryAnswer, CONTRACT_NAME, CONTRACT_VERSION,
};
use oracle_manager::execution::{
    band_packet_types, claim_admin, receive_band_data, register_fee_payer_or_fund,
    band_packet_offsets_bounded_check, try_receive_band_data, tunnel_id_from_tokens, update_admin, ACK_GAS_LIMIT, ACK_GAS_PRICE,
    MINIMUM_FEE, MINIMUM_RELAYER_FEES,
};
use oracle_manager::bindings::{abi_decode, AbiToken};
use oracle_manager::modifiers::is_admin_modifier;
use oracle_manager::msg::{ExecuteMsg, InstantiateMsg, MigrateMsg, QueryMsg, SudoMsg};
use oracle_manager::queries::{fetch_admin, fetch_available_funds, fetch_fee_payer_for_tunnel_id};
use oracle_manager::reply::{handle_reply, try_handle_reply, ReplyMsg, SubMsgOutcome};
use oracle_manager::state::{OracleState, CREATE_OUTBOUND_REQUEST};
use oracle_manager::sudo::handle_sudo_ack;
use oracle_manager::types::{Coin, ContractError, ContractVersion, OutboundMsg, ReplyOn, StoredItem};

use ethabi::Token;

fn s(x: &str) -> String {
    x.to_string()
}

fn coin(denom: &str, amount: u128) -> Coin {
    Coin { denom: s(denom), amount }
}

fn band_packet(tunnel_id: ethabi::Uint) -> Vec<u8> {
    ethabi::encode(&[Token::Tuple(vec![
        Token::Uint(tunnel_id),
        Token::Uint(ethabi::Uint::from(7u64)),
        Token::Array(vec![Token::Tuple(vec![
            Token::FixedBytes(vec![0xab; 32]),
            Token::Uint(ethabi::Uint::from(123_456u64)),
        ])]),
        Token::Int(ethabi::Uint::from(1_700_000_000u64)),
    ])])
}

fn fresh() -> OracleState {
    let mut st = OracleState::new();
    instantiate(&mut st, &s("owner"), InstantiateMsg {}).unwrap();
    st
}

const REQUIRED_EXTRA: u128 = 15_000_000_000_000 + 25_000_000_000_000_000;

#[test]
fn instantiate_makes_creator_admin() {
    let st = fresh();
    assert_eq!(fetch_admin(&st).unwrap(), "owner");
    assert_eq!(is_admin_modifier(&st, "owner"), Ok(()));
    assert_eq!(is_admin_modifier(&st, "mallory"), Err(ContractError::NotAdmin));
    let v = st.version.as_ref().unwrap();
    assert_eq!(v.contract, "BandProtocol::OracleManager");
    assert_eq!(v.version, "0.1.2");
    assert_eq!(CONTRACT_NAME, "BandProtocol::OracleManager");
    assert_eq!(CONTRACT_VERSION, "0.1.2");
}

#[test]
fn instantiate_response_attribute() {
    let mut st = OracleState::new();
    let res = instantiate(&mut st, &s("owner"), InstantiateMsg {}).unwrap();
    assert_eq!(res.attributes.len(), 1);
    assert_eq!(res.attributes[0].key, "action");
    assert_eq!(res.attributes[0].value, "BandProtocol::OracleManager::INIT");
}

#[test]
fn admin_check_without_admin() {
    let st = OracleState::new();
    assert_eq!(is_admin_modifier(&st, "x"), Err(ContractError::NotFound(StoredItem::Admin)));
    assert_eq!(fetch_admin(&st), Err(ContractError::NotFound(StoredItem::Admin)));
}

#[test]
fn admin_handover_in_two_steps() {
    let mut st = fresh();
    let r = update_admin(&mut st, &s("owner"), s("heir"), true);
    assert!(r.is_ok());
    assert_eq!(st.admin.as_deref(), Some("owner"));
    assert_eq!(st.new_admin.as_deref(), Some("heir"));
    let r = claim_admin(&mut st, &s("heir"), true);
    assert!(r.is_ok());
    assert_eq!(st.admin.as_deref(), Some("heir"));
}

#[test]
fn update_admin_refusals_leave_state() {
    let mut st = OracleState::new();
    assert_eq!(
        update_admin(&mut st, &s("a"), s("b"), true).err(),
        Some(ContractError::NotFound(StoredItem::Admin))
    );
    let mut st = fresh();
    assert_eq!(update_admin(&mut st, &s("owner"), s("bad"), false).err(), Some(ContractError::InvalidAddress));
    assert!(st.new_admin.is_none());
    assert_eq!(claim_admin(&mut st, &s("x"), true).err(), Some(ContractError::NotFound(StoredItem::NewAdmin)));
}

#[test]
fn claim_admin_with_invalid_address() {
    let mut st = fresh();
    update_admin(&mut st, &s("owner"), s("heir"), true).unwrap();
    assert_eq!(claim_admin(&mut st, &s("heir"), false).err(), Some(ContractError::InvalidAddress));
    assert_eq!(st.admin.as_deref(), Some("owner"));
    assert_eq!(st.new_admin.as_deref(), Some("heir"));
}

#[test]
fn execute_refuses_wrong_admin_by_panic_marker() {
    let mut st = fresh();
    let msg = ExecuteMsg::UpdateAdmin { new_admin: s("x") };
    assert!(try_execute(&mut st, &s("mallory"), &vec![], msg, true).is_none());
    assert!(st.new_admin.is_none());
    let msg = ExecuteMsg::ClaimAdmin {};
    update_admin(&mut st, &s("owner"), s("heir"), true).unwrap();
    assert!(try_execute(&mut st, &s("mallory"), &vec![], msg, true).is_none());
}

#[test]
fn deposit_accumulates() {
    let mut st = fresh();
    let r = register_fee_payer_or_fund(&mut st, &s("payer"), &vec![coin("route", 5)], None).unwrap();
    assert_eq!(r.attributes[0].key, "action");
    assert_eq!(r.attributes[0].value, "register_fee_payer");
    register_fee_payer_or_fund(&mut st, &s("payer"), &vec![coin("route", 7)], None).unwrap();
    assert_eq!(fetch_available_funds(&st, s("payer")), Ok(12));
    assert_eq!(fetch_available_funds(&st, s("other")), Err(ContractError::NotFound(StoredItem::FeeTank)));
}

#[test]
fn foreign_coins_are_not_deposited() {
    let mut st = fresh();
    register_fee_payer_or_fund(&mut st, &s("payer"), &vec![coin("uatom", 5)], Some(1)).unwrap();
    register_fee_payer_or_fund(&mut st, &s("payer"), &vec![coin("route", 5), coin("route", 5)], Some(1)).unwrap();
    assert!(fetch_available_funds(&st, s("payer")).is_err());
    assert!(fetch_fee_payer_for_tunnel_id(&st, 1).is_err());
}

#[test]
fn fee_payer_needs_more_than_minimum_fee() {
    let mut st = fresh();
    register_fee_payer_or_fund(&mut st, &s("small"), &vec![coin("route", MINIMUM_FEE)], Some(4)).unwrap();
    assert_eq!(fetch_fee_payer_for_tunnel_id(&st, 4), Err(ContractError::NotFound(StoredItem::FeePayer)));
    register_fee_payer_or_fund(&mut st, &s("big"), &vec![coin("route", MINIMUM_FEE + 1)], Some(4)).unwrap();
    assert_eq!(fetch_fee_payer_for_tunnel_id(&st, 4).unwrap(), "big");
    assert_eq!(MINIMUM_FEE, 10_000_000_000);
}

#[test]
fn register_overflow_is_a_panic_marker() {
    let mut st = fresh();
    register_fee_payer_or_fund(&mut st, &s("p"), &vec![coin("route", u128::MAX)], None).unwrap();
    let msg = ExecuteMsg::RegisterFeePayerOrFund { band_fee_payer: None };
    assert!(try_execute(&mut st, &s("p"), &vec![coin("route", 1)], msg, true).is_none());
    assert_eq!(fetch_available_funds(&st, s("p")), Ok(u128::MAX));
}

fn funded_with_payer(tunnel: u64, amount: u128) -> OracleState {
    let mut st = fresh();
    register_fee_payer_or_fund(&mut st, &s("payer"), &vec![coin("route", amount)], Some(tunnel)).unwrap();
    st
}

#[test]
fn band_packet_decodes_to_tunnel_id() {
    let payload = band_packet(ethabi::Uint::from(42u64));
    let tokens = abi_decode(&band_packet_types(), &payload).unwrap();
    assert_eq!(tunnel_id_from_tokens(&tokens), Ok(42));
    assert!(matches!(tokens[0], AbiToken::Tuple(_)));
    assert!(abi_decode(&band_packet_types(), &[1, 2, 3]).is_none());
}

#[test]
fn tunnel_id_errors() {
    assert_eq!(tunnel_id_from_tokens(&vec![]), Err(ContractError::DecodedTokenNotTuple));
    assert_eq!(tunnel_id_from_tokens(&vec![AbiToken::Bool(true)]), Err(ContractError::DecodedTokenNotTuple));
    assert_eq!(
        tunnel_id_from_tokens(&vec![AbiToken::Tuple(vec![AbiToken::Bool(true)])]),
        Err(ContractError::TunnelIdMissing)
    );
    assert_eq!(tunnel_id_from_tokens(&vec![AbiToken::Tuple(vec![])]), Err(ContractError::TunnelIdMissing));
}

#[test]
fn receive_band_data_without_payer_is_refused() {
    let mut st = fresh();
    let r = receive_band_data(&mut st, &s("relayer"), s("1"), s("0xdest"), 100, 5, band_packet(ethabi::Uint::from(9u64)));
    assert_eq!(r.err(), Some(ContractError::NotFound(StoredItem::FeePayer)));
    assert!(st.current_fee_payer.is_none());
    assert!(st.pending_event.is_none());
}

#[test]
fn receive_band_data_forwards_packet() {
    let mut st = funded_with_payer(9, 30_000_000_000_000_000);
    let payload = band_packet(ethabi::Uint::from(9u64));
    let r = receive_band_data(&mut st, &s("relayer"), s("80001"), s("0xdest"), 100, 5, payload.clone()).unwrap();
    assert_eq!(st.current_fee_payer.as_deref(), Some("payer"));
    let ev = st.pending_event.as_ref().unwrap();
    assert_eq!(ev.kind, "ReceiveBandDataEvent");
    assert_eq!(ev.attributes[0].key, "action");
    assert_eq!(ev.attributes[0].value, "ReceiveBandData");
    assert_eq!(ev.attributes[1].key, "fee_payer");
    assert_eq!(ev.attributes[1].value, "payer");
    assert_eq!(r.attributes[0].value, "ReceiveIbcTokens");
    assert_eq!(r.messages.len(), 1);
    assert_eq!(r.messages[0].id, CREATE_OUTBOUND_REQUEST);
    assert!(r.messages[0].reply_on == ReplyOn::Success);
    match &r.messages[0].msg {
        OutboundMsg::Crosschain(c) => {
            assert_eq!(c.version, 1);
            assert_eq!(c.route_amount, 0);
            assert_eq!(c.route_recipient, "");
            assert_eq!(c.dest_chain_id, "80001");
            let inner = solabi::encode(&(s("relayer"), solabi::Bytes(payload.clone())));
            let expected = solabi::encode(&(s("0xdest"), solabi::Bytes(inner)));
            assert_eq!(c.request_packet, expected);
            assert_ne!(c.request_packet, payload);
            let mut meta = Vec::new();
            meta.extend_from_slice(&100u64.to_be_bytes());
            meta.extend_from_slice(&5u64.to_be_bytes());
            meta.extend_from_slice(&ACK_GAS_LIMIT.to_be_bytes());
            meta.extend_from_slice(&ACK_GAS_PRICE.to_be_bytes());
            meta.extend_from_slice(&0u128.to_be_bytes());
            meta.push(3);
            meta.push(0);
            assert_eq!(c.request_metadata, meta);
        }
        _ => panic!("expected a cross-chain call"),
    }
}

#[test]
fn receive_band_data_undecodable_payload_is_a_panic_marker() {
    let mut st = funded_with_payer(9, MINIMUM_FEE + 1);
    assert!(try_receive_band_data(&mut st, &s("r"), s("1"), s("d"), 1, 1, vec![0u8; 5]).is_none());
    let huge = ethabi::Uint::from(u64::MAX) + ethabi::Uint::from(1u64);
    assert!(try_receive_band_data(&mut st, &s("r"), s("1"), s("d"), 1, 1, band_packet(huge)).is_none());
    assert!(st.current_fee_payer.is_none());
    let ok = try_receive_band_data(&mut st, &s("r"), s("1"), s("d"), 1, 1, band_packet(ethabi::Uint::from(9u64)));
    assert!(matches!(ok, Some(Ok(_))));
}

fn reply_with(data: &str) -> ReplyMsg {
    ReplyMsg { id: CREATE_OUTBOUND_REQUEST, result: SubMsgOutcome::Succeeded(Some(data.as_bytes().to_vec())) }
}

fn forwarded(deposit: u128) -> OracleState {
    let mut st = funded_with_payer(9, deposit);
    receive_band_data(&mut st, &s("relayer"), s("1"), s("d"), 1, 1, band_packet(ethabi::Uint::from(9u64))).unwrap();
    st
}

#[test]
fn reply_charges_the_tunnel_payer() {
    let deposit = 30_000_000_000_000_000u128;
    let mut st = forwarded(deposit);
    let r = handle_reply(&mut st, reply_with(r#"{"request_identifier":77,"fee_deducted":{"denom":"route","amount":"1000"}}"#)).unwrap();
    let required = 1000 + REQUIRED_EXTRA;
    assert_eq!(required, 1000 + (ACK_GAS_PRICE as u128) * (ACK_GAS_LIMIT as u128) + MINIMUM_RELAYER_FEES as u128);
    assert_eq!(fetch_available_funds(&st, s("payer")), Ok(deposit - required));
    assert!(st.current_fee_payer.is_none());
    assert!(st.pending_event.is_none());
    assert_eq!(st.request_fee_payers.get(&77).map(|x| x.as_str()), Some("payer"));
    assert_eq!(r.events.len(), 1);
    assert_eq!(r.events[0].kind, "ReceiveBandDataEvent");
}

#[test]
fn reply_with_insufficient_fee() {
    let mut st = forwarded(MINIMUM_FEE + 1);
    let r = handle_reply(&mut st, reply_with(r#"{"request_identifier":77,"fee_deducted":{"denom":"route","amount":"5"}}"#));
    assert_eq!(r.err(), Some(ContractError::InsufficientFee { available: MINIMUM_FEE + 1, required: 5 + REQUIRED_EXTRA }));
    assert_eq!(st.current_fee_payer.as_deref(), Some("payer"));
    assert!(st.pending_event.is_some());
}

#[test]
fn reply_overflow() {
    let mut st = forwarded(MINIMUM_FEE + 1);
    let data = format!(r#"{{"request_identifier":1,"fee_deducted":{{"denom":"route","amount":"{}"}}}}"#, u128::MAX - 10);
    let r = handle_reply(&mut st, reply_with(&data));
    assert_eq!(r.err(), Some(ContractError::Overflow));
}

#[test]
fn reply_other_cases() {
    let mut st = fresh();
    let r = handle_reply(&mut st, ReplyMsg { id: 7, result: SubMsgOutcome::Succeeded(None) });
    assert_eq!(r.err(), Some(ContractError::UnknownReplyId(7)));
    let r = handle_reply(&mut st, ReplyMsg { id: CREATE_OUTBOUND_REQUEST, result: SubMsgOutcome::Failed(s("boom")) }).unwrap();
    assert!(r.events.is_empty() && r.attributes.is_empty() && r.messages.is_empty());
    let r = handle_reply(&mut st, ReplyMsg { id: CREATE_OUTBOUND_REQUEST, result: SubMsgOutcome::Succeeded(None) }).unwrap();
    assert!(r.events.is_empty());
    let r = handle_reply(&mut st, reply_with(r#"{"request_identifier":1,"fee_deducted":{"denom":"route","amount":"1"}}"#));
    assert_eq!(r.err(), Some(ContractError::NotFound(StoredItem::CurrentFeePayer)));
    assert!(try_handle_reply(&mut st, reply_with("not json")).is_none());
    assert!(try_reply(&mut st, reply_with("{}")).is_none());
}

#[test]
fn reply_without_pending_event() {
    let mut st = forwarded(30_000_000_000_000_000);
    st.pending_event = None;
    let r = handle_reply(&mut st, reply_with(r#"{"request_identifier":3,"fee_deducted":{"denom":"route","amount":"0"}}"#));
    assert_eq!(r.err(), Some(ContractError::NotFound(StoredItem::Event)));
    assert_eq!(fetch_available_funds(&st, s("payer")), Ok(30_000_000_000_000_000));
}

#[test]
fn charge_then_refund() {
    let deposit = 30_000_000_000_000_000u128;
    let mut st = forwarded(deposit);
    handle_reply(&mut st, reply_with(r#"{"request_identifier":77,"fee_deducted":{"denom":"route","amount":"1000"}}"#)).unwrap();
    let r = handle_sudo_ack(&mut st, 77, true, vec![], coin("route", 400)).unwrap();
    assert_eq!(r.attributes[0].value, "refund");
    assert_eq!(fetch_available_funds(&st, s("payer")), Ok(deposit - 1000 - REQUIRED_EXTRA + 400));
    assert!(st.request_fee_payers.get(&77).is_none());
    assert_eq!(
        handle_sudo_ack(&mut st, 77, true, vec![], coin("route", 400)).err(),
        Some(ContractError::NotFound(StoredItem::RequestFeePayer))
    );
}

#[test]
fn sudo_refusals() {
    let deposit = 30_000_000_000_000_000u128;
    let mut st = forwarded(deposit);
    handle_reply(&mut st, reply_with(r#"{"request_identifier":77,"fee_deducted":{"denom":"route","amount":"1000"}}"#)).unwrap();
    let msg = SudoMsg::HandleIAck { request_identifier: 77, exec_flag: false, exec_data: vec![], refund_amount: coin("uatom", 1) };
    assert_eq!(sudo(&mut st, msg).err(), Some(ContractError::DenomMismatch));
    let msg = SudoMsg::HandleIAck { request_identifier: 77, exec_flag: false, exec_data: vec![], refund_amount: coin("route", u128::MAX) };
    assert_eq!(sudo(&mut st, msg).err(), Some(ContractError::Overflow));
    assert!(st.request_fee_payers.get(&77).is_some());
    st.request_fee_payers.insert(5, s("ghost"));
    assert_eq!(
        handle_sudo_ack(&mut st, 5, true, vec![], coin("route", 1)).err(),
        Some(ContractError::NotFound(StoredItem::FeeTank))
    );
}

#[test]
fn migrate_once() {
    let mut st = OracleState::new();
    assert_eq!(migrate(&mut st, MigrateMsg {}).err(), Some(ContractError::NotFound(StoredItem::ContractVersion)));
    st.version = Some(ContractVersion { contract: s("BandProtocol::OracleManager"), version: s("0.1.1") });
    assert!(migrate(&mut st, MigrateMsg {}).is_ok());
    assert_eq!(st.version.as_ref().unwrap().version, "0.1.2");
    assert_eq!(migrate(&mut st, MigrateMsg {}).err(), Some(ContractError::NewerVersion));
    st.version = Some(ContractVersion { contract: s("Other"), version: s("0.0.1") });
    assert_eq!(migrate(&mut st, MigrateMsg {}).err(), Some(ContractError::WrongContract));
}

#[test]
fn version_order_is_string_order() {
    assert!(text_at_least("0.1.2", "0.1.2"));
    assert!(text_at_least("0.1.10", "0.1.1"));
    assert!(!text_at_least("0.1.10", "0.1.2"));
    assert!(text_at_least("1", "0.9"));
    assert!(!text_at_least("", "a"));
    assert!(text_at_least("a", ""));
    assert!(!text_at_least("0.1", "0.1.0"));
}

#[test]
fn queries_answer_from_storage() {
    let mut st = funded_with_payer(3, MINIMUM_FEE + 5);
    match query(&st, QueryMsg::GetContractVersion {}) {
        Ok(QueryAnswer::ContractVersion(v)) => assert_eq!(v.version, "0.1.2"),
        _ => panic!("version"),
    }
    match query(&st, QueryMsg::FetchAdmin {}) {
        Ok(QueryAnswer::Admin(a)) => assert_eq!(a, "owner"),
        _ => panic!("admin"),
    }
    match query(&st, QueryMsg::FetchFeePayer { band_fee_payer: 3 }) {
        Ok(QueryAnswer::FeePayer(p)) => assert_eq!(p, "payer"),
        _ => panic!("payer"),
    }
    match query(&st, QueryMsg::FetchAvailableFunds { fee_payer: s("payer") }) {
        Ok(QueryAnswer::AvailableFunds(a)) => assert_eq!(a, MINIMUM_FEE + 5),
        _ => panic!("funds"),
    }
    assert!(matches!(query(&st, QueryMsg::FetchFeePayer { band_fee_payer: 4 }), Err(ContractError::NotFound(StoredItem::FeePayer))));
    st.version = None;
    assert!(matches!(query(&st, QueryMsg::GetContractVersion {}), Err(ContractError::NotFound(StoredItem::ContractVersion))));
}

#[test]
fn execute_dispatches() {
    let mut st = fresh();
    let msg = ExecuteMsg::RegisterFeePayerOrFund { band_fee_payer: Some(2) };
    execute(&mut st, &s("payer"), &vec![coin("route", MINIMUM_FEE * 3)], msg, true).unwrap();
    let msg = ExecuteMsg::ReceiveBandData {
        dest_chain_id: s("1"),
        dest_contract_address: s("d"),
        gas_limit: 10,
        gas_price: 20,
        payload: band_packet(ethabi::Uint::from(2u64)),
    };
    let r = execute(&mut st, &s("relayer"), &vec![], msg, true).unwrap();
    assert_eq!(r.messages.len(), 1);
    assert_eq!(st.current_fee_payer.as_deref(), Some("payer"));
    let msg = ExecuteMsg::UpdateAdmin { new_admin: s("n") };
    execute(&mut st, &s("owner"), &vec![], msg, true).unwrap();
    let msg = ExecuteMsg::ClaimAdmin {};
    let r = try_execute(&mut st, &s("n"), &vec![], msg, true);
    assert!(matches!(r, Some(Ok(_))));
    assert_eq!(st.admin.as_deref(), Some("n"));
}

#[test]
fn refused_execute_changes_nothing() {
    let mut st = funded_with_payer(1, MINIMUM_FEE + 1);
    let msg = ExecuteMsg::ReceiveBandData {
        dest_chain_id: s("1"),
        dest_contract_address: s("d"),
        gas_limit: 1,
        gas_price: 1,
        payload: band_packet(ethabi::Uint::from(2u64)),
    };
    let r = execute(&mut st, &s("relayer"), &vec![], msg, true);
    assert_eq!(r.err(), Some(ContractError::NotFound(StoredItem::FeePayer)));
    assert!(st.current_fee_payer.is_none());
    assert!(st.pending_event.is_none());
    assert_eq!(fetch_fee_payer_for_tunnel_id(&st, 1).unwrap(), "payer");
}

fn word(v: u32) -> Vec<u8> {
    let mut w = vec![0u8; 28];
    w.extend_from_slice(&v.to_be_bytes());
    w
}

#[test]
fn packet_with_huge_array_offset_is_a_panic_marker() {
    let mut payload = word(32);
    payload.extend(word(9));
    payload.extend(word(7));
    payload.extend(word(0xFFFF_FFFF));
    payload.extend(word(0));
    assert_eq!(payload.len(), 160);
    assert!(!band_packet_offsets_bounded_check(&payload));
    let mut st = funded_with_payer(9, MINIMUM_FEE + 1);
    assert!(try_receive_band_data(&mut st, &s("r"), s("1"), s("d"), 1, 1, payload.clone()).is_none());
    let msg = ExecuteMsg::ReceiveBandData {
        dest_chain_id: s("1"),
        dest_contract_address: s("d"),
        gas_limit: 1,
        gas_price: 1,
        payload,
    };
    assert!(try_execute(&mut st, &s("r"), &vec![], msg, true).is_none());
    assert!(st.current_fee_payer.is_none());
    assert!(band_packet_offsets_bounded_check(&band_packet(ethabi::Uint::from(9u64))));
    assert!(band_packet_offsets_bounded_check(&[1, 2, 3]));
}
