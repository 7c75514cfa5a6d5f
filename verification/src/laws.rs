//! Properties that span several calls of the contract.
use vstd::prelude::*;

use crate::bindings::AbiToken;
use crate::bindings::abi_decoded;
use crate::contract::{
    execute_panics, execute_spec, instantiate_spec, migrate_spec, sudo_spec, text_less, CONTRACT_NAME,
    CONTRACT_VERSION,
};
use crate::handle_revert::{revert_spec, ContractEnv};
use crate::execution::{
    band_data_event, band_packet_layout, claim_admin_panics, claim_admin_spec,
    receive_band_data_panics, receive_band_data_spec, register_panics, register_spec,
    tunnel_id_of, update_admin_panics, update_admin_spec, MINIMUM_FEE,
};
use crate::modifiers::admin_check;
use crate::msg::{ExecuteMsg, SudoMsg};
use crate::reply::{charge_spec, handle_reply_panics, handle_reply_spec, required_fee, ReplyMsg};
use crate::state::{balance_or_zero, OracleModel};
use crate::sudo::sudo_ack_spec;
use crate::types::{ContractError, OutboundMsgView};

verus! {

/// No string comes before itself.
pub proof fn lemma_text_less_irreflexive(a: Seq<char>)
    ensures
        !text_less(a, a),
    decreases a.len(),
{
    if a.len() > 0 {
        lemma_text_less_irreflexive(a.drop_first());
    }
}

/// The admin hands over in two steps: once the admin has nominated an
/// address, that address can claim the role and then holds it, while the
/// nomination stays stored. Each step asks the host to check the nominee's
/// address: `valid_at_nomination` and `valid_at_claim` are its two answers.
/// Where the host refuses the address at nomination, the nomination is
/// refused and nothing changes; where it refuses it at the claim, the claim
/// is refused and the nomination stays as it was.
pub proof fn law_admin_handover(
    s: OracleModel,
    admin: Seq<char>,
    nominee: Seq<char>,
    valid_at_nomination: bool,
    valid_at_claim: bool,
)
    requires
        s.admin == Some(admin),
    ensures
        ({
            let (s1, r1) = update_admin_spec(s, nominee, valid_at_nomination);
            let (s2, r2) = claim_admin_spec(s1, valid_at_claim);
            &&& valid_at_nomination ==> {
                &&& r1 == Ok::<crate::types::ResponseView, ContractError>(crate::types::empty_response())
                &&& s1.admin == Some(admin)
                &&& s1.new_admin == Some(nominee)
                &&& !claim_admin_panics(s1, nominee)
            }
            &&& valid_at_nomination && valid_at_claim ==> {
                &&& r2 == Ok::<crate::types::ResponseView, ContractError>(crate::types::empty_response())
                &&& s2.admin == Some(nominee)
                &&& s2.new_admin == Some(nominee)
            }
            &&& valid_at_nomination && !valid_at_claim ==> {
                &&& r2 == Err::<crate::types::ResponseView, ContractError>(ContractError::InvalidAddress)
                &&& s2 == s1
            }
            &&& !valid_at_nomination ==> {
                &&& r1 == Err::<crate::types::ResponseView, ContractError>(ContractError::InvalidAddress)
                &&& s1 == s
            }
        }),
{
}

/// A call does what its handler does, with the message's fields in order,
/// and panics exactly where its handler panics.
pub proof fn law_execute_dispatches(
    s: OracleModel,
    sender: Seq<char>,
    funds: Seq<(Seq<char>, u128)>,
    msg: ExecuteMsg,
    address_valid: bool,
)
    ensures
        match msg {
            ExecuteMsg::ReceiveBandData {
                dest_chain_id,
                dest_contract_address,
                gas_limit,
                gas_price,
                payload,
            } => {
                &&& execute_panics(s, sender, funds, msg) == receive_band_data_panics(payload@)
                &&& !execute_panics(s, sender, funds, msg) ==> (abi_decoded(
                    band_packet_layout(),
                    payload@,
                ) matches Some(tokens) && execute_spec(s, sender, funds, msg, address_valid)
                    == receive_band_data_spec(
                    s,
                    sender,
                    dest_chain_id@,
                    dest_contract_address@,
                    gas_limit,
                    gas_price,
                    payload@,
                    tokens,
                ))
            },
            ExecuteMsg::UpdateAdmin { new_admin } => {
                &&& execute_panics(s, sender, funds, msg) == update_admin_panics(s, sender)
                &&& !execute_panics(s, sender, funds, msg) ==> execute_spec(
                    s,
                    sender,
                    funds,
                    msg,
                    address_valid,
                ) == update_admin_spec(s, new_admin@, address_valid)
            },
            ExecuteMsg::ClaimAdmin {  } => {
                &&& execute_panics(s, sender, funds, msg) == claim_admin_panics(s, sender)
                &&& !execute_panics(s, sender, funds, msg) ==> execute_spec(
                    s,
                    sender,
                    funds,
                    msg,
                    address_valid,
                ) == claim_admin_spec(s, address_valid)
            },
            ExecuteMsg::RegisterFeePayerOrFund { band_fee_payer } => {
                &&& execute_panics(s, sender, funds, msg) == register_panics(s, sender, funds)
                &&& !execute_panics(s, sender, funds, msg) ==> execute_spec(
                    s,
                    sender,
                    funds,
                    msg,
                    address_valid,
                ) == register_spec(s, sender, funds, band_fee_payer)
            },
        },
{
}

/// A call that the contract refuses leaves the storage as it was.
pub proof fn law_refused_execute_changes_nothing(
    s: OracleModel,
    sender: Seq<char>,
    funds: Seq<(Seq<char>, u128)>,
    msg: ExecuteMsg,
    address_valid: bool,
)
    requires
        !execute_panics(s, sender, funds, msg),
    ensures
        execute_spec(s, sender, funds, msg, address_valid).1 is Err ==> execute_spec(
            s,
            sender,
            funds,
            msg,
            address_valid,
        ).0 == s,
{
}

/// A reply that the contract refuses leaves the storage as it was.
pub proof fn law_refused_reply_changes_nothing(s: OracleModel, reply: ReplyMsg)
    requires
        !handle_reply_panics(reply),
    ensures
        handle_reply_spec(s, reply).1 is Err ==> handle_reply_spec(s, reply).0 == s,
{
}

/// A Router chain call that the contract refuses leaves the storage as it was.
pub proof fn law_refused_sudo_changes_nothing(s: OracleModel, msg: SudoMsg)
    ensures
        sudo_spec(s, msg).1 is Err ==> sudo_spec(s, msg).0 == s,
{
}

/// A refused migration leaves the storage as it was.
pub proof fn law_refused_migrate_changes_nothing(s: OracleModel)
    ensures
        migrate_spec(s).1 is Err ==> migrate_spec(s).0 == s,
{
}

/// A deposit of one native coin adds its amount to the sender's balance and
/// to no one else's.
pub proof fn law_deposit_accumulates(
    s: OracleModel,
    sender: Seq<char>,
    amount: u128,
    tunnel_id: Option<u64>,
    other: Seq<char>,
)
    requires
        !register_panics(s, sender, seq![("route"@, amount)]),
        other != sender,
    ensures
        ({
            let (s1, r) = register_spec(s, sender, seq![("route"@, amount)], tunnel_id);
            &&& r is Ok
            &&& s1.fee_tank[sender] == balance_or_zero(s.fee_tank, sender) + amount
            &&& balance_or_zero(s1.fee_tank, other) == balance_or_zero(s.fee_tank, other)
        }),
{
}

/// A sender becomes the payer of a tunnel only with a deposit above the
/// minimum fee in the same call; otherwise the payers stay as they were.
pub proof fn law_fee_payer_needs_minimum_fee(
    s: OracleModel,
    sender: Seq<char>,
    funds: Seq<(Seq<char>, u128)>,
    tunnel_id: u64,
)
    ensures
        ({
            let (s1, r) = register_spec(s, sender, funds, Some(tunnel_id));
            &&& (funds.len() == 1 && funds[0].0 == "route"@ && funds[0].1 > MINIMUM_FEE)
                ==> s1.fee_payers == s.fee_payers.insert(tunnel_id, sender)
            &&& !(funds.len() == 1 && funds[0].0 == "route"@ && funds[0].1 > MINIMUM_FEE)
                ==> s1.fee_payers == s.fee_payers
        }),
{
}

/// The reply to a forwarded packet charges the payer of the packet's tunnel:
/// where the charge goes through, that payer's balance drops by the relay's
/// cost, the request is booked to that payer, and the event names it.
pub proof fn law_forward_then_reply_charges_tunnel_payer(
    s: OracleModel,
    sender: Seq<char>,
    dest_chain_id: Seq<char>,
    dest_contract_address: Seq<char>,
    gas_limit: u64,
    gas_price: u64,
    payload: Seq<u8>,
    tokens: Seq<AbiToken>,
    request_identifier: u64,
    fee_deducted: u128,
)
    requires
        receive_band_data_spec(
            s,
            sender,
            dest_chain_id,
            dest_contract_address,
            gas_limit,
            gas_price,
            payload,
            tokens,
        ).1 is Ok,
    ensures
        ({
            let (s1, _) = receive_band_data_spec(
                s,
                sender,
                dest_chain_id,
                dest_contract_address,
                gas_limit,
                gas_price,
                payload,
                tokens,
            );
            let payer = s.fee_payers[tunnel_id_of(tokens)->Ok_0];
            let (s2, r2) = charge_spec(s1, request_identifier, fee_deducted);
            &&& s1.current_fee_payer == Some(payer)
            &&& r2 is Ok ==> {
                &&& s2.fee_tank[payer] == balance_or_zero(s.fee_tank, payer) - required_fee(
                    fee_deducted,
                )
                &&& s2.request_fee_payers[request_identifier] == payer
                &&& s2.current_fee_payer is None
                &&& s2.pending_event is None
                &&& r2->Ok_0.events == seq![band_data_event(payer)]
            }
            &&& r2 is Err ==> s2 == s1
        }),
{
}

/// The acknowledgement of a request refunds the address that paid for it:
/// after a charge and the refund of `refund` native coins, the payer's
/// balance is its balance before the charge, less the relay's cost, plus the
/// refund, and the request is forgotten.
pub proof fn law_charge_then_refund(
    s: OracleModel,
    request_identifier: u64,
    fee_deducted: u128,
    refund: u128,
)
    requires
        charge_spec(s, request_identifier, fee_deducted).1 is Ok,
    ensures
        ({
            let payer = s.current_fee_payer->Some_0;
            let (s1, _) = charge_spec(s, request_identifier, fee_deducted);
            let (s2, r2) = sudo_ack_spec(s1, request_identifier, ("route"@, refund));
            &&& balance_or_zero(s.fee_tank, payer) - required_fee(fee_deducted) + refund
                <= u128::MAX ==> {
                &&& r2 is Ok
                &&& s2.fee_tank[payer] == balance_or_zero(s.fee_tank, payer) - required_fee(
                    fee_deducted,
                ) + refund
                &&& !s2.request_fee_payers.contains_key(request_identifier)
            }
        }),
{
}

/// A refund in another denomination than the native one is refused.
pub proof fn law_foreign_refund_refused(
    s: OracleModel,
    request_identifier: u64,
    refund: (Seq<char>, u128),
)
    requires
        refund.0 != "route"@,
    ensures
        sudo_ack_spec(s, request_identifier, refund).1 is Err,
        sudo_ack_spec(s, request_identifier, refund).0 == s,
{
}

/// Creating the contract makes the creator pass the admin check.
pub proof fn law_creator_is_admin(s: OracleModel, sender: Seq<char>)
    ensures
        admin_check(instantiate_spec(s, sender).0.admin, sender) is Ok,
{
}

/// A contract migrates to this code once: after a migration, another one is
/// refused as not older.
pub proof fn law_migrate_once(s: OracleModel)
    requires
        migrate_spec(s).1 is Ok,
    ensures
        migrate_spec(migrate_spec(s).0).1 == Err::<crate::types::ResponseView, ContractError>(
            ContractError::NewerVersion,
        ),
{
    lemma_text_less_irreflexive(CONTRACT_VERSION@);
}

/// Forwarding a packet only reads the tunnel-to-payer registrations, the
/// deposits and the booked requests: whatever it answers, they are as they
/// were. So a second packet of the same tunnel, whatever it carries, is
/// forwarded too and charged to the same payer.
pub proof fn law_forward_keeps_registrations(
    s: OracleModel,
    sender: Seq<char>,
    dest_chain_id: Seq<char>,
    dest_contract_address: Seq<char>,
    gas_limit: u64,
    gas_price: u64,
    payload: Seq<u8>,
    tokens: Seq<AbiToken>,
    sender2: Seq<char>,
    dest_chain_id2: Seq<char>,
    dest_contract_address2: Seq<char>,
    gas_limit2: u64,
    gas_price2: u64,
    payload2: Seq<u8>,
    tokens2: Seq<AbiToken>,
)
    ensures
        ({
            let (s1, r1) = receive_band_data_spec(
                s,
                sender,
                dest_chain_id,
                dest_contract_address,
                gas_limit,
                gas_price,
                payload,
                tokens,
            );
            let (s2, r2) = receive_band_data_spec(
                s1,
                sender2,
                dest_chain_id2,
                dest_contract_address2,
                gas_limit2,
                gas_price2,
                payload2,
                tokens2,
            );
            &&& s1.fee_payers == s.fee_payers
            &&& s1.fee_tank == s.fee_tank
            &&& s1.request_fee_payers == s.request_fee_payers
            &&& r1 is Ok ==> {
                &&& tunnel_id_of(tokens) is Ok
                &&& s.fee_payers.contains_key(tunnel_id_of(tokens)->Ok_0)
                &&& s1.current_fee_payer == Some(s.fee_payers[tunnel_id_of(tokens)->Ok_0])
            }
            &&& (r1 is Ok && tunnel_id_of(tokens2) == tunnel_id_of(tokens)) ==> {
                &&& r2 is Ok
                &&& s2.current_fee_payer == s1.current_fee_payer
                &&& s2.fee_payers == s.fee_payers
            }
        }),
{
}

/// A charge for request `r` books `r` to the current payer and keeps every
/// other request's payer; a refused charge changes nothing. So two charges
/// in turn leave both requests booked.
pub proof fn law_charge_books_one_request(
    s: OracleModel,
    request_identifier: u64,
    fee_deducted: u128,
    other: u64,
)
    requires
        other != request_identifier,
    ensures
        ({
            let (s1, r1) = charge_spec(s, request_identifier, fee_deducted);
            &&& r1 is Ok ==> {
                &&& s.current_fee_payer is Some
                &&& s1.request_fee_payers == s.request_fee_payers.insert(
                    request_identifier,
                    s.current_fee_payer->Some_0,
                )
                &&& s1.request_fee_payers.contains_key(other) == s.request_fee_payers.contains_key(
                    other,
                )
                &&& s1.request_fee_payers[other] == s.request_fee_payers[other]
            }
            &&& r1 is Err ==> s1 == s
            &&& s1.fee_payers == s.fee_payers
        }),
{
}

/// Two requests charged in turn, each after the packet of its tunnel was
/// forwarded, are both booked to their payers afterwards.
pub proof fn law_two_charges_keep_both(
    s: OracleModel,
    first: u64,
    fee_first: u128,
    second: u64,
    fee_second: u128,
    next_payer: Seq<char>,
    next_event: crate::types::EventView,
)
    requires
        first != second,
        charge_spec(s, first, fee_first).1 is Ok,
    ensures
        ({
            let (s1, _) = charge_spec(s, first, fee_first);
            let s1b = OracleModel {
                current_fee_payer: Some(next_payer),
                pending_event: Some(next_event),
                ..s1
            };
            let (s2, r2) = charge_spec(s1b, second, fee_second);
            r2 is Ok ==> {
                &&& s2.request_fee_payers[first] == s.current_fee_payer->Some_0
                &&& s2.request_fee_payers[second] == next_payer
                &&& s2.request_fee_payers.contains_key(first)
            }
        }),
{
}

/// Acknowledging request `r` forgets `r` only: every other booked request
/// keeps its payer, so its own acknowledgement can still refund it. A
/// refused acknowledgement changes nothing.
pub proof fn law_ack_forgets_one_request(
    s: OracleModel,
    request_identifier: u64,
    refund_amount: (Seq<char>, u128),
    other: u64,
)
    requires
        other != request_identifier,
    ensures
        ({
            let (s1, r1) = sudo_ack_spec(s, request_identifier, refund_amount);
            &&& r1 is Ok ==> {
                &&& s1.request_fee_payers == s.request_fee_payers.remove(request_identifier)
                &&& s1.request_fee_payers.contains_key(other) == s.request_fee_payers.contains_key(
                    other,
                )
                &&& s1.request_fee_payers[other] == s.request_fee_payers[other]
            }
            &&& r1 is Err ==> s1 == s
            &&& s1.fee_payers == s.fee_payers
        }),
{
}

/// Two booked requests paid by the same payer are refunded in turn: after
/// the first acknowledgement the second still finds its payer, and the payer
/// ends with both refunds.
pub proof fn law_two_acks_refund_both(
    s: OracleModel,
    first: u64,
    refund_first: u128,
    second: u64,
    refund_second: u128,
)
    requires
        first != second,
        s.request_fee_payers.contains_key(first),
        s.request_fee_payers.contains_key(second),
        s.request_fee_payers[first] == s.request_fee_payers[second],
        s.fee_tank.contains_key(s.request_fee_payers[first]),
        s.fee_tank[s.request_fee_payers[first]] + refund_first + refund_second <= u128::MAX,
    ensures
        ({
            let payer = s.request_fee_payers[first];
            let (s1, r1) = sudo_ack_spec(s, first, ("route"@, refund_first));
            let (s2, r2) = sudo_ack_spec(s1, second, ("route"@, refund_second));
            &&& r1 is Ok
            &&& r2 is Ok
            &&& s2.fee_tank[payer] == s.fee_tank[payer] + refund_first + refund_second
            &&& !s2.request_fee_payers.contains_key(first)
            &&& !s2.request_fee_payers.contains_key(second)
        }),
{
}

/// Migration succeeds only from a stored version of this contract that
/// orders strictly before this code's version, and records this code's
/// version; a stored version that is this one or orders after it is refused
/// as newer, with nothing changed.
pub proof fn law_migrate_only_upgrades(s: OracleModel)
    ensures
        migrate_spec(s).1 is Ok ==> {
            &&& s.version matches Some(v)
            &&& v.0 == CONTRACT_NAME@
            &&& text_less(v.1, CONTRACT_VERSION@)
            &&& migrate_spec(s).0.version == Some((CONTRACT_NAME@, CONTRACT_VERSION@))
        },
        (s.version matches Some(v) && v.0 == CONTRACT_NAME@ && !text_less(v.1, CONTRACT_VERSION@))
            ==> {
            &&& migrate_spec(s).1 == Err::<crate::types::ResponseView, ContractError>(
                ContractError::NewerVersion,
            )
            &&& migrate_spec(s).0 == s
        },
{
}

/// `text_less` is a strict order: no string comes before one that comes
/// before it.
pub proof fn lemma_text_less_asymmetric(a: Seq<char>, b: Seq<char>)
    ensures
        !(text_less(a, b) && text_less(b, a)),
    decreases a.len(),
{
    if a.len() > 0 && b.len() > 0 && a[0] == b[0] {
        lemma_text_less_asymmetric(a.drop_first(), b.drop_first());
    }
}

/// A downgrade is refused: a stored version of this contract that orders
/// after this code's version is not migrated.
pub proof fn law_migrate_refuses_downgrade(s: OracleModel, stored: Seq<char>)
    requires
        s.version == Some((CONTRACT_NAME@, stored)),
        text_less(CONTRACT_VERSION@, stored),
    ensures
        migrate_spec(s).1 == Err::<crate::types::ResponseView, ContractError>(
            ContractError::NewerVersion,
        ),
        migrate_spec(s).0 == s,
{
    lemma_text_less_asymmetric(CONTRACT_VERSION@, stored);
}

/// Returning an inbound transfer sends its tokens, from this contract, to
/// its fallback address, out of the port and channel whitelisted for its
/// source chain; the outgoing record keeps that channel and that chain.
pub proof fn law_revert_uses_whitelisted_channel(s: OracleModel, env: &ContractEnv)
    ensures
        revert_spec(s, env).1 is Ok ==> {
            let incoming = s.temp_incoming_ibc_call->Some_0;
            let channel = s.whitelisted_ibc_channels[incoming.src_chain_id];
            let resp = revert_spec(s, env).1->Ok_0;
            &&& s.temp_incoming_ibc_call is Some
            &&& s.whitelisted_ibc_channels.contains_key(incoming.src_chain_id)
            &&& resp.messages.len() == 1
            &&& resp.messages[0].msg matches OutboundMsgView::IbcTransfer(t) && {
                &&& t.source_port == channel.outgoing_port
                &&& t.source_channel == channel.outgoing_channel
                &&& t.token == (incoming.token_addr, incoming.amount)
                &&& t.receiver == incoming.local_fallback_address
                &&& t.sender == env.contract_address@
            }
            &&& revert_spec(s, env).0.temp_outgoing_ibc_call matches Some(o) && {
                &&& o.source_channel == channel.outgoing_channel
                &&& o.dest_chain_id == incoming.src_chain_id
                &&& o.amount == incoming.amount
                &&& o.recipient == incoming.local_fallback_address
            }
            &&& revert_spec(s, env).0.temp_incoming_ibc_call is None
        },
        revert_spec(s, env).1 is Err ==> revert_spec(s, env).0 == s,
{
}

/// A forwarded packet goes out as one cross-chain call to the destination
/// chain, whose request packet is the packet with its sender prepended,
/// addressed to the destination contract; a packet of a tunnel that no
/// payer registered is refused with nothing changed.
pub proof fn law_forward_sends_packet_with_sender(
    s: OracleModel,
    sender: Seq<char>,
    dest_chain_id: Seq<char>,
    dest_contract_address: Seq<char>,
    gas_limit: u64,
    gas_price: u64,
    payload: Seq<u8>,
    tokens: Seq<AbiToken>,
)
    ensures
        ({
            let (s1, r1) = receive_band_data_spec(
                s,
                sender,
                dest_chain_id,
                dest_contract_address,
                gas_limit,
                gas_price,
                payload,
                tokens,
            );
            &&& r1 is Ok ==> {
                let resp = r1->Ok_0;
                &&& resp.messages.len() == 1
                &&& resp.messages[0].reply_on == crate::types::ReplyOn::Success
                &&& resp.messages[0].msg matches OutboundMsgView::Crosschain(c) && {
                    &&& c.dest_chain_id == dest_chain_id
                    &&& c.request_packet == crate::bindings::abi_encoded_string_bytes(
                        dest_contract_address,
                        crate::bindings::abi_encoded_string_bytes(sender, payload),
                    )
                }
            }
            &&& (tunnel_id_of(tokens) matches Ok(t) && !s.fee_payers.contains_key(t)) ==> {
                &&& r1 == Err::<crate::types::ResponseView, ContractError>(
                    ContractError::NotFound(crate::types::StoredItem::FeePayer),
                )
                &&& s1 == s
            }
        }),
{
}

} // verus!
