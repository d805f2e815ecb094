//! Ticket lifecycle engine: the mutating operations (issue, request-refund,
//! redeem) and the read operations (get ticket, get stats), each an atomic
//! read-modify-write sequence against the ledger.
//!
//! Each operation's effect is captured by a pair of spec functions — a
//! decision (which result it returns) and a transition (the store it leaves
//! behind) — and its contract says the executable code realizes exactly that
//! pair.

use vstd::prelude::*;

use soroban_sdk::Address;

use crate::{Error, TicketData};
use crate::keys::{lemma_tags_distinct, next_id_tag, redeem_tag, refund_tag, sales_tag, ticket_tag};
use crate::store;
use crate::store::{ctr_or_zero, ticket_at, view_of, Ledger, StoreView};

verus! {

/// The lifecycle engine. It holds no state of its own: every operation reads
/// whatever it needs from the ledger first and writes its whole effect back.
pub struct TicketingContract;

/// The identifier the next successful issuance returns.
pub open spec fn issue_id(s: StoreView) -> u32 {
    ctr_or_zero(s, next_id_tag())
}

/// Total tickets sold.
pub open spec fn sales_of(s: StoreView) -> u32 {
    ctr_or_zero(s, sales_tag())
}

/// Total refunds requested.
pub open spec fn refunds_of(s: StoreView) -> u32 {
    ctr_or_zero(s, refund_tag())
}

/// Total redemptions.
pub open spec fn redeems_of(s: StoreView) -> u32 {
    ctr_or_zero(s, redeem_tag())
}

/// The store after a successful issuance: the fresh record — unused,
/// unrefunded, owned by the buyer at the recorded price — is filed under the
/// fresh id, and the id and sales counters each move up by one.
pub open spec fn issue_next(s: StoreView, buyer: Address, price: i128) -> StoreView {
    StoreView {
        tickets: s.tickets.insert(
            (ticket_tag(), issue_id(s)),
            TicketData { owner: buyer, price, used: false, refunded: false },
        ),
        counters: s.counters.insert(next_id_tag(), (issue_id(s) + 1) as u32).insert(
            sales_tag(),
            (sales_of(s) + 1) as u32,
        ),
    }
}

/// Whether a refund request succeeds, and which failure it signals otherwise:
/// a missing record before an ownership mismatch.
pub open spec fn refund_decision(s: StoreView, caller: Address, id: u32) -> Result<(), Error> {
    match ticket_at(s, id) {
        Some(t) => if t.owner != caller {
            Err(Error::AuthorizationMismatch)
        } else {
            Ok(())
        },
        None => Err(Error::NotFound),
    }
}

/// The store after a refund request: on success the record's `refunded` flag
/// is set (whatever it was before) and the refund counter moves up by one; on
/// failure the store is untouched.
pub open spec fn refund_next(s: StoreView, caller: Address, id: u32) -> StoreView {
    match ticket_at(s, id) {
        Some(t) => if t.owner == caller {
            StoreView {
                tickets: s.tickets.insert(
                    (ticket_tag(), id),
                    TicketData { owner: t.owner, price: t.price, used: t.used, refunded: true },
                ),
                counters: s.counters.insert(refund_tag(), (refunds_of(s) + 1) as u32),
            }
        } else {
            s
        },
        None => s,
    }
}

/// Whether a redemption succeeds, and which failure it signals otherwise: a
/// missing record, then an ownership mismatch, then an already-used flag.
pub open spec fn redeem_decision(s: StoreView, caller: Address, id: u32) -> Result<(), Error> {
    match ticket_at(s, id) {
        Some(t) => if t.owner != caller {
            Err(Error::AuthorizationMismatch)
        } else if t.used {
            Err(Error::AlreadyUsed)
        } else {
            Ok(())
        },
        None => Err(Error::NotFound),
    }
}

/// The store after a redemption: on success the record's `used` flag is set
/// and the redemption counter moves up by one; on failure the store is
/// untouched.
pub open spec fn redeem_next(s: StoreView, caller: Address, id: u32) -> StoreView {
    match ticket_at(s, id) {
        Some(t) => if t.owner == caller && !t.used {
            StoreView {
                tickets: s.tickets.insert(
                    (ticket_tag(), id),
                    TicketData { owner: t.owner, price: t.price, used: true, refunded: t.refunded },
                ),
                counters: s.counters.insert(redeem_tag(), (redeems_of(s) + 1) as u32),
            }
        } else {
            s
        },
        None => s,
    }
}

/// What a lookup returns: the stored record, or NotFound.
pub open spec fn get_ticket_spec(s: StoreView, id: u32) -> Result<TicketData, Error> {
    match ticket_at(s, id) {
        Some(t) => Ok(t),
        None => Err(Error::NotFound),
    }
}

impl TicketingContract {
    /// Storage key of the ticket record with identifier `id`.
    fn ticket_key(id: u32) -> (r: (&'static str, u32))
        ensures
            r.0@ == ticket_tag(),
            r.1 == id,
    {
        ("TICKET", id)
    }

    /// Storage key of the next unallocated identifier.
    fn next_id_key() -> (r: &'static str)
        ensures
            r@ == next_id_tag(),
    {
        "NEXT_ID"
    }

    /// Storage key of the sales counter.
    fn sales_key() -> (r: &'static str)
        ensures
            r@ == sales_tag(),
    {
        "TOTAL_SALES"
    }

    /// Storage key of the refund counter.
    fn refund_key() -> (r: &'static str)
        ensures
            r@ == refund_tag(),
    {
        "TOTAL_REFUNDS"
    }

    /// Storage key of the redemption counter.
    fn redeem_key() -> (r: &'static str)
        ensures
            r@ == redeem_tag(),
    {
        "TOTAL_REDEEM"
    }

    /// The identifier the next issuance will return. Lets a caller rule out
    /// counter saturation before issuing.
    pub fn peek_next_id(l: &Ledger) -> (r: u32)
        ensures
            r == issue_id(view_of(*l)),
    {
        match store::load_counter(l, Self::next_id_key()) {
            Some(n) => n,
            None => 0,
        }
    }

    /// Issue a ticket to `buyer` at `price` and return its fresh identifier.
    /// The invocation must carry `buyer`'s authorization — the host aborts it
    /// otherwise, before anything is written. Each successful call allocates a
    /// never-before-used identifier and moves the sales counter up by one.
    pub fn buy_ticket(l: &mut Ledger, buyer: Address, price: i128) -> (r: u32)
        requires
            issue_id(view_of(*old(l))) < u32::MAX,
            sales_of(view_of(*old(l))) < u32::MAX,
        ensures
            r == issue_id(view_of(*old(l))),
            view_of(*final(l)) == issue_next(view_of(*old(l)), buyer, price),
    {
        store::require_auth(&buyer);
        proof {
            lemma_tags_distinct();
        }
        let next: u32 = match store::load_counter(l, Self::next_id_key()) {
            Some(n) => n,
            None => 0,
        };
        let ticket = TicketData { owner: buyer, price, used: false, refunded: false };
        let key = Self::ticket_key(next);
        store::store_ticket(l, key.0, key.1, &ticket);
        store::store_counter(l, Self::next_id_key(), next + 1);
        let sales: u32 = match store::load_counter(l, Self::sales_key()) {
            Some(n) => n,
            None => 0,
        };
        store::store_counter(l, Self::sales_key(), sales + 1);
        proof {
            assert(view_of(*l) =~= issue_next(view_of(*old(l)), buyer, price));
        }
        next
    }

    /// Mark the caller's ticket refunded and move the refund counter up by
    /// one. Signals NotFound where no record exists and
    /// AuthorizationMismatch where the caller is not the owner; on failure
    /// the ledger is left exactly as it was. A repeated request succeeds
    /// again — the flag is already set, the counter still moves (deliberate
    /// behaviour; see the laws module).
    pub fn request_refund(l: &mut Ledger, caller: Address, ticket_id: u32) -> (r: Result<
        (),
        Error,
    >)
        requires
            refund_decision(view_of(*old(l)), caller, ticket_id) is Ok ==> refunds_of(
                view_of(*old(l)),
            ) < u32::MAX,
        ensures
            r == refund_decision(view_of(*old(l)), caller, ticket_id),
            view_of(*final(l)) == refund_next(view_of(*old(l)), caller, ticket_id),
            !(r is Ok) ==> *final(l) == *old(l),
    {
        store::require_auth(&caller);
        let key = Self::ticket_key(ticket_id);
        let mut ticket = match store::load_ticket(l, key.0, key.1) {
            Some(t) => t,
            None => {
                return Err(Error::NotFound);
            },
        };
        if !store::address_eq(&ticket.owner, &caller) {
            return Err(Error::AuthorizationMismatch);
        }
        ticket.refunded = true;
        store::store_ticket(l, key.0, key.1, &ticket);
        let refunded: u32 = match store::load_counter(l, Self::refund_key()) {
            Some(n) => n,
            None => 0,
        };
        store::store_counter(l, Self::refund_key(), refunded + 1);
        proof {
            lemma_tags_distinct();
            assert(view_of(*l) =~= refund_next(view_of(*old(l)), caller, ticket_id));
        }
        Ok(())
    }

    /// Mark the caller's ticket used and move the redemption counter up by
    /// one. Signals NotFound where no record exists, AuthorizationMismatch
    /// where the caller is not the owner, and AlreadyUsed where the ticket was
    /// redeemed before; on failure the ledger is left exactly as it was, so
    /// redemption happens at most once per ticket.
    pub fn redeem_ticket(l: &mut Ledger, caller: Address, ticket_id: u32) -> (r: Result<
        (),
        Error,
    >)
        requires
            redeem_decision(view_of(*old(l)), caller, ticket_id) is Ok ==> redeems_of(
                view_of(*old(l)),
            ) < u32::MAX,
        ensures
            r == redeem_decision(view_of(*old(l)), caller, ticket_id),
            view_of(*final(l)) == redeem_next(view_of(*old(l)), caller, ticket_id),
            !(r is Ok) ==> *final(l) == *old(l),
    {
        store::require_auth(&caller);
        let key = Self::ticket_key(ticket_id);
        let mut ticket = match store::load_ticket(l, key.0, key.1) {
            Some(t) => t,
            None => {
                return Err(Error::NotFound);
            },
        };
        if !store::address_eq(&ticket.owner, &caller) {
            return Err(Error::AuthorizationMismatch);
        }
        if ticket.used {
            return Err(Error::AlreadyUsed);
        }
        ticket.used = true;
        store::store_ticket(l, key.0, key.1, &ticket);
        let redeemed: u32 = match store::load_counter(l, Self::redeem_key()) {
            Some(n) => n,
            None => 0,
        };
        store::store_counter(l, Self::redeem_key(), redeemed + 1);
        proof {
            lemma_tags_distinct();
            assert(view_of(*l) =~= redeem_next(view_of(*old(l)), caller, ticket_id));
        }
        Ok(())
    }

    /// Look a ticket up by id. Signals NotFound where no record exists. No
    /// authorization is required: ticket details are not confidential.
    pub fn get_ticket(l: &Ledger, ticket_id: u32) -> (r: Result<TicketData, Error>)
        ensures
            r == get_ticket_spec(view_of(*l), ticket_id),
    {
        let key = Self::ticket_key(ticket_id);
        match store::load_ticket(l, key.0, key.1) {
            Some(t) => Ok(t),
            None => Err(Error::NotFound),
        }
    }

    /// The three aggregate counters — (sales, refunds, redemptions) — each
    /// independently zero where never written. No authorization is required.
    pub fn get_stats(l: &Ledger) -> (r: (u32, u32, u32))
        ensures
            r.0 == sales_of(view_of(*l)),
            r.1 == refunds_of(view_of(*l)),
            r.2 == redeems_of(view_of(*l)),
    {
        let total_sales: u32 = match store::load_counter(l, Self::sales_key()) {
            Some(n) => n,
            None => 0,
        };
        let total_refunds: u32 = match store::load_counter(l, Self::refund_key()) {
            Some(n) => n,
            None => 0,
        };
        let total_redeem: u32 = match store::load_counter(l, Self::redeem_key()) {
            Some(n) => n,
            None => 0,
        };
        (total_sales, total_refunds, total_redeem)
    }
}

} // verus!
