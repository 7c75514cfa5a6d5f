//! Fee accounting and request routing of an oracle relay contract.
//!
//! The contract forwards price packets to other chains through the Router
//! chain. Senders deposit native fees into a fee tank, register themselves as
//! the payer of a tunnel, and each forwarded packet charges its payer; the
//! acknowledgement later refunds what the relay did not use.
pub mod modifiers;
pub mod types;
pub mod ledger;
pub mod state;
pub mod bindings;
pub mod execution;
pub mod reply;
pub mod sudo;
pub mod outbound;
pub mod utils;
pub mod handle_revert;
pub mod ibc;
pub mod queries;
pub mod msg;
pub mod contract;
pub mod laws;
