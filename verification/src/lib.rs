//! A verified ticket-lifecycle engine over a host key-value ledger.
//!
//! Tickets are issued with dense, monotonically increasing identifiers, may be
//! refunded by their owner, and may be redeemed by their owner at most once.
//! All state lives in the host's persistent key-value store: every operation
//! is a read-modify-write sequence whose effect on the store is stated exactly
//! in its contract, over a mathematical view of what the store holds.

use vstd::prelude::*;

pub mod keys;
pub mod store;
pub mod lifecycle;
pub mod laws;

verus! {

/// One ticket record, as persisted in the ledger. `owner` and `price` never
/// change after issuance; `used` and `refunded` are independent one-way flags.
#[derive(Clone, Debug)]
pub struct TicketData {
    pub owner: soroban_sdk::Address,
    pub price: i128,
    pub used: bool,
    pub refunded: bool,
}

/// Failures signalled by the lifecycle operations. A caller that cannot prove
/// control of its own identity never sees these: the host aborts the whole
/// invocation inside the authorization check, before any ticket data is read,
/// so a missing authorization leaves no value to return.
#[derive(Clone, Copy, Debug, PartialEq, Eq, Structural)]
pub enum Error {
    /// The referenced ticket id has no stored record.
    NotFound,
    /// The caller is authorized as themselves but is not the ticket's owner.
    AuthorizationMismatch,
    /// Redemption was attempted on a ticket whose `used` flag is already set.
    AlreadyUsed,
}

} // verus!
