use vstd::pervasive::arbitrary;
use vstd::prelude::*;

use crate::bindings::abi_decoded;
use crate::execution::{
    band_packet_layout, claim_admin, claim_admin_panics, claim_admin_spec, receive_band_data,
    receive_band_data_panics, receive_band_data_spec, register_fee_payer_or_fund,
    receive_band_data_would_panic, register_panics, register_spec, register_would_panic,
    update_admin, update_admin_panics, update_admin_spec,
};
use crate::modifiers::funds_view;
use crate::msg::{ExecuteMsg, InstantiateMsg, MigrateMsg, QueryMsg, SudoMsg};
use crate::queries::{fetch_admin, fetch_available_funds, fetch_fee_payer_for_tunnel_id};
use crate::reply::{handle_reply, handle_reply_panics, handle_reply_spec, handle_reply_would_panic, ReplyMsg};
use crate::state::{OracleModel, OracleState};
use crate::sudo::{handle_sudo_ack, sudo_ack_spec};
use crate::types::{
    result_view, Coin, ContractError, ContractResponse, ContractVersion, ResponseView,
    StoredItem, attribute_only_response, attribute_response, empty_response, new_response, text,
};

verus! {

/// The name under which the contract records its code.
pub const CONTRACT_NAME: &'static str = "BandProtocol::OracleManager";

/// The version of this code.
pub const CONTRACT_VERSION: &'static str = "0.1.2";

// ---------------------------------------------------------------- instantiate

/// Creating the contract makes its creator the admin and records this code.
pub open spec fn instantiate_spec(s: OracleModel, sender: Seq<char>) -> (OracleModel, Result<
    ResponseView,
    ContractError,
>) {
    (
        OracleModel {
            admin: Some(sender),
            version: Some((CONTRACT_NAME@, CONTRACT_VERSION@)),
            ..s
        },
        Ok(attribute_response("action"@, "BandProtocol::OracleManager::INIT"@)),
    )
}

/// Creates the contract: the sender becomes its admin.
pub fn instantiate(state: &mut OracleState, sender: &String, msg: InstantiateMsg) -> (res: Result<
    ContractResponse,
    ContractError,
>)
    requires
        old(state).wf(),
    ensures
        final(state).wf(),
        (final(state)@, result_view(res)) == instantiate_spec(old(state)@, sender@),
{
    state.admin = Some(sender.clone());
    state.version = Some(ContractVersion { contract: text(CONTRACT_NAME), version: text(CONTRACT_VERSION) });
    Ok(attribute_only_response("action", "BandProtocol::OracleManager::INIT"))
}

// ---------------------------------------------------------------- sudo

/// What the Router chain's call does.
pub open spec fn sudo_spec(s: OracleModel, msg: SudoMsg) -> (OracleModel, Result<ResponseView, ContractError>) {
    match msg {
        SudoMsg::HandleIAck { request_identifier, refund_amount, .. } => sudo_ack_spec(
            s,
            request_identifier,
            refund_amount@,
        ),
    }
}

/// Handles a call of the Router chain.
pub fn sudo(state: &mut OracleState, msg: SudoMsg) -> (res: Result<ContractResponse, ContractError>)
    requires
        old(state).wf(),
    ensures
        final(state).wf(),
        (final(state)@, result_view(res)) == sudo_spec(old(state)@, msg),
{
    match msg {
        SudoMsg::HandleIAck { request_identifier, exec_flag, exec_data, refund_amount } => {
            handle_sudo_ack(state, request_identifier, exec_flag, exec_data, refund_amount)
        },
    }
}

// ---------------------------------------------------------------- execute

/// Where a call panics.
pub open spec fn execute_panics(
    s: OracleModel,
    sender: Seq<char>,
    funds: Seq<(Seq<char>, u128)>,
    msg: ExecuteMsg,
) -> bool {
    match msg {
        ExecuteMsg::ReceiveBandData { payload, .. } => receive_band_data_panics(payload@),
        ExecuteMsg::UpdateAdmin { .. } => update_admin_panics(s, sender),
        ExecuteMsg::ClaimAdmin {  } => claim_admin_panics(s, sender),
        ExecuteMsg::RegisterFeePayerOrFund { .. } => register_panics(s, sender, funds),
    }
}

/// What a call does. `address_valid` is the host's verdict on the address
/// that the call validates: the nominee of `UpdateAdmin`, the stored
/// nominee for `ClaimAdmin`. Where the call panics (`execute_panics`)
/// nothing is said.
pub open spec fn execute_spec(
    s: OracleModel,
    sender: Seq<char>,
    funds: Seq<(Seq<char>, u128)>,
    msg: ExecuteMsg,
    address_valid: bool,
) -> (OracleModel, Result<ResponseView, ContractError>) {
    if execute_panics(s, sender, funds, msg) {
        arbitrary()
    } else {
        match msg {
            ExecuteMsg::ReceiveBandData {
                dest_chain_id,
                dest_contract_address,
                gas_limit,
                gas_price,
                payload,
            } => receive_band_data_spec(
                s,
                sender,
                dest_chain_id@,
                dest_contract_address@,
                gas_limit,
                gas_price,
                payload@,
                abi_decoded(band_packet_layout(), payload@).unwrap(),
            ),
        ExecuteMsg::UpdateAdmin { new_admin } => update_admin_spec(s, new_admin@, address_valid),
        ExecuteMsg::ClaimAdmin {  } => claim_admin_spec(s, address_valid),
            ExecuteMsg::RegisterFeePayerOrFund { band_fee_payer } => register_spec(
                s,
                sender,
                funds,
                band_fee_payer,
            ),
        }
    }
}

/// Handles a call of anyone.
pub fn execute(
    state: &mut OracleState,
    sender: &String,
    funds: &Vec<Coin>,
    msg: ExecuteMsg,
    address_valid: bool,
) -> (res: Result<ContractResponse, ContractError>)
    requires
        old(state).wf(),
        !execute_panics(old(state)@, sender@, funds_view(funds@), msg),
    ensures
        final(state).wf(),
        (final(state)@, result_view(res)) == execute_spec(
            old(state)@,
            sender@,
            funds_view(funds@),
            msg,
            address_valid,
        ),
{
    match msg {
        ExecuteMsg::ReceiveBandData {
            dest_chain_id,
            dest_contract_address,
            gas_limit,
            gas_price,
            payload,
        } => receive_band_data(
            state,
            sender,
            dest_chain_id,
            dest_contract_address,
            gas_limit,
            gas_price,
            payload,
        ),
        ExecuteMsg::UpdateAdmin { new_admin } => update_admin(
            state,
            sender,
            new_admin,
            address_valid,
        ),
        ExecuteMsg::ClaimAdmin {  } => claim_admin(state, sender, address_valid),
        ExecuteMsg::RegisterFeePayerOrFund { band_fee_payer } => register_fee_payer_or_fund(
            state,
            sender,
            funds,
            band_fee_payer,
        ),
    }
}

/// Tells whether `execute` would panic on the call.
pub fn execute_would_panic(state: &OracleState, sender: &String, funds: &Vec<Coin>, msg: &ExecuteMsg) -> (res:
    bool)
    requires
        state.wf(),
    ensures
        res == execute_panics(state@, sender@, funds_view(funds@), *msg),
{
    match msg {
        ExecuteMsg::ReceiveBandData { payload, .. } => receive_band_data_would_panic(payload),
        ExecuteMsg::UpdateAdmin { .. } => match &state.admin {
            Some(admin) => *admin != *sender,
            None => false,
        },
        ExecuteMsg::ClaimAdmin {  } => match &state.new_admin {
            Some(nominee) => *nominee != *sender,
            None => false,
        },
        ExecuteMsg::RegisterFeePayerOrFund { .. } => register_would_panic(state, sender, funds),
    }
}

/// `execute` where it does not panic; `None`, with the storage untouched,
/// where it would.
pub fn try_execute(
    state: &mut OracleState,
    sender: &String,
    funds: &Vec<Coin>,
    msg: ExecuteMsg,
    address_valid: bool,
) -> (res: Option<Result<ContractResponse, ContractError>>)
    requires
        old(state).wf(),
    ensures
        final(state).wf(),
        res is None <==> execute_panics(old(state)@, sender@, funds_view(funds@), msg),
        res is None ==> final(state)@ == old(state)@,
        res matches Some(r) ==> (final(state)@, result_view(r)) == execute_spec(
            old(state)@,
            sender@,
            funds_view(funds@),
            msg,
            address_valid,
        ),
{
    if execute_would_panic(state, sender, funds, &msg) {
        None
    } else {
        Some(execute(state, sender, funds, msg, address_valid))
    }
}

// ---------------------------------------------------------------- reply

/// Handles the host's reply about a sub-message.
pub fn reply(state: &mut OracleState, msg: ReplyMsg) -> (res: Result<ContractResponse, ContractError>)
    requires
        old(state).wf(),
        !handle_reply_panics(msg),
    ensures
        final(state).wf(),
        (final(state)@, result_view(res)) == handle_reply_spec(old(state)@, msg),
{
    handle_reply(state, msg)
}

/// `reply` where it does not panic; `None`, with the storage untouched,
/// where it would.
pub fn try_reply(state: &mut OracleState, msg: ReplyMsg) -> (res: Option<
    Result<ContractResponse, ContractError>,
>)
    requires
        old(state).wf(),
    ensures
        final(state).wf(),
        res is None <==> handle_reply_panics(msg),
        res is None ==> final(state)@ == old(state)@,
        res matches Some(r) ==> (final(state)@, result_view(r)) == handle_reply_spec(
            old(state)@,
            msg,
        ),
{
    if handle_reply_would_panic(&msg) {
        None
    } else {
        Some(reply(state, msg))
    }
}

// ---------------------------------------------------------------- migrate

/// `a` comes before `b` in the order of their characters' code points, which
/// is the order of their UTF-8 bytes, the order of Rust's strings.
pub open spec fn text_less(a: Seq<char>, b: Seq<char>) -> bool
    decreases a.len(),
{
    if a.len() == 0 {
        b.len() > 0
    } else if b.len() == 0 {
        false
    } else if a[0] != b[0] {
        (a[0] as u32) < (b[0] as u32)
    } else {
        text_less(a.drop_first(), b.drop_first())
    }
}

/// Compares two strings as Rust's `>=` does.
pub fn text_at_least(a: &str, b: &str) -> (res: bool)
    ensures
        res == !text_less(a@, b@),
{
    let la = a.unicode_len();
    let lb = b.unicode_len();
    let mut i: usize = 0;
    assert(a@.skip(0) =~= a@);
    assert(b@.skip(0) =~= b@);
    while i < la && i < lb
        invariant
            la == a@.len(),
            lb == b@.len(),
            i <= la,
            i <= lb,
            text_less(a@, b@) == text_less(a@.skip(i as int), b@.skip(i as int)),
        decreases la - i,
    {
        let ca = a.get_char(i);
        let cb = b.get_char(i);
        proof {
            assert(a@.skip(i as int)[0] == ca);
            assert(b@.skip(i as int)[0] == cb);
        }
        if ca != cb {
            return (cb as u32) < (ca as u32);
        }
        proof {
            assert(a@.skip(i as int).drop_first() =~= a@.skip(i + 1));
            assert(b@.skip(i as int).drop_first() =~= b@.skip(i + 1));
        }
        i = i + 1;
    }
    proof {
        assert(a@.skip(i as int).len() == la - i);
        assert(b@.skip(i as int).len() == lb - i);
    }
    !(i == la && i < lb)
}

/// Migration records this code where the storage was written by an older
/// version of the same contract.
pub open spec fn migrate_spec(s: OracleModel) -> (OracleModel, Result<ResponseView, ContractError>) {
    match s.version {
        None => (s, Err(ContractError::NotFound(StoredItem::ContractVersion))),
        Some(v) => if v.0 != CONTRACT_NAME@ {
            (s, Err(ContractError::WrongContract))
        } else if !text_less(v.1, CONTRACT_VERSION@) {
            (s, Err(ContractError::NewerVersion))
        } else {
            (
                OracleModel { version: Some((CONTRACT_NAME@, CONTRACT_VERSION@)), ..s },
                Ok(empty_response()),
            )
        },
    }
}

/// Moves the contract to this code.
pub fn migrate(state: &mut OracleState, msg: MigrateMsg) -> (res: Result<ContractResponse, ContractError>)
    requires
        old(state).wf(),
    ensures
        final(state).wf(),
        (final(state)@, result_view(res)) == migrate_spec(old(state)@),
        res is Ok ==> (old(state)@.version matches Some(v) && text_less(v.1, CONTRACT_VERSION@)),
{
    match &state.version {
        None => { return Err(ContractError::NotFound(StoredItem::ContractVersion)); },
        Some(v) => {
            if v.contract != text(CONTRACT_NAME) {
                return Err(ContractError::WrongContract);
            }
            if text_at_least(v.version.as_str(), CONTRACT_VERSION) {
                return Err(ContractError::NewerVersion);
            }
        },
    }
    state.version = Some(ContractVersion { contract: text(CONTRACT_NAME), version: text(CONTRACT_VERSION) });
    Ok(new_response())
}

// ---------------------------------------------------------------- query

/// The answer to a query.
pub enum QueryAnswer {
    ContractVersion(ContractVersion),
    Admin(String),
    FeePayer(String),
    AvailableFunds(u128),
}

/// Answers a query.
pub fn query(state: &OracleState, msg: QueryMsg) -> (res: Result<QueryAnswer, ContractError>)
    requires
        state.wf(),
    ensures
        match msg {
            QueryMsg::GetContractVersion {  } => match res {
                Ok(QueryAnswer::ContractVersion(v)) => state@.version == Some(v@),
                Err(e) => state@.version is None && e == ContractError::NotFound(
                    StoredItem::ContractVersion,
                ),
                _ => false,
            },
            QueryMsg::FetchAdmin {  } => match res {
                Ok(QueryAnswer::Admin(a)) => state@.admin == Some(a@),
                Err(e) => state@.admin is None && e == ContractError::NotFound(StoredItem::Admin),
                _ => false,
            },
            QueryMsg::FetchFeePayer { band_fee_payer } => match res {
                Ok(QueryAnswer::FeePayer(p)) => state@.fee_payers.contains_key(band_fee_payer)
                    && state@.fee_payers[band_fee_payer] == p@,
                Err(e) => !state@.fee_payers.contains_key(band_fee_payer) && e
                    == ContractError::NotFound(StoredItem::FeePayer),
                _ => false,
            },
            QueryMsg::FetchAvailableFunds { fee_payer } => match res {
                Ok(QueryAnswer::AvailableFunds(a)) => state@.fee_tank.contains_key(fee_payer@)
                    && state@.fee_tank[fee_payer@] == a,
                Err(e) => !state@.fee_tank.contains_key(fee_payer@) && e == ContractError::NotFound(
                    StoredItem::FeeTank,
                ),
                _ => false,
            },
        },
{
    match msg {
        QueryMsg::GetContractVersion {  } => match &state.version {
            Some(v) => Ok(
                QueryAnswer::ContractVersion(
                    ContractVersion { contract: v.contract.clone(), version: v.version.clone() },
                ),
            ),
            None => Err(ContractError::NotFound(StoredItem::ContractVersion)),
        },
        QueryMsg::FetchAdmin {  } => match fetch_admin(state) {
            Ok(a) => Ok(QueryAnswer::Admin(a)),
            Err(e) => Err(e),
        },
        QueryMsg::FetchFeePayer { band_fee_payer } => match fetch_fee_payer_for_tunnel_id(
            state,
            band_fee_payer,
        ) {
            Ok(p) => Ok(QueryAnswer::FeePayer(p)),
            Err(e) => Err(e),
        },
        QueryMsg::FetchAvailableFunds { fee_payer } => match fetch_available_funds(
            state,
            fee_payer,
        ) {
            Ok(a) => Ok(QueryAnswer::AvailableFunds(a)),
            Err(e) => Err(e),
        },
    }
}

} // verus!
