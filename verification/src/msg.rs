use vstd::prelude::*;

use crate::types::Coin;

verus! {

/// The message that creates the contract; it carries nothing.
pub struct InstantiateMsg {}

/// The message that migrates the contract to this code; it carries nothing.
pub struct MigrateMsg {}

/// Calls that only the Router chain makes.
pub enum SudoMsg {
    /// The acknowledgement of a cross-chain request, with what is refunded.
    HandleIAck {
        request_identifier: u64,
        exec_flag: bool,
        exec_data: Vec<u8>,
        refund_amount: Coin,
    },
}

/// Calls that anyone may make.
pub enum ExecuteMsg {
    /// Forward a price packet to a contract on another chain.
    ReceiveBandData {
        dest_chain_id: String,
        dest_contract_address: String,
        gas_limit: u64,
        gas_price: u64,
        payload: Vec<u8>,
    },
    /// Nominate the next admin (admin only).
    UpdateAdmin { new_admin: String },
    /// Take over as admin (nominated admin only).
    ClaimAdmin {},
    /// Deposit native fees and, with enough of them, pay for a tunnel.
    RegisterFeePayerOrFund { band_fee_payer: Option<u64> },
}

/// Read-only requests.
pub enum QueryMsg {
    GetContractVersion {},
    FetchAdmin {},
    FetchFeePayer { band_fee_payer: u64 },
    FetchAvailableFunds { fee_payer: String },
}

} // verus!
