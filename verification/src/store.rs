//! Ledger adapter: a handle on the host's persistent key-value store, a
//! mathematical view of what that store holds, and the trusted boundary
//! through which the engine reads and writes it.
//!
//! The view keeps the two key shapes apart: ticket records live under
//! `(Symbol, u32)` tuple keys, scalar counters under plain `Symbol` keys, and
//! the host never lets a value of one shape alias a key of the other.

use vstd::prelude::*;

use crate::TicketData;
use crate::keys::{next_id_tag, redeem_tag, refund_tag, sales_tag, ticket_tag};

verus! {

/// soroban_sdk::Env, the host environment handle, carried opaquely: the engine
/// reads it only through the trusted functions below.
#[verifier::external_type_specification]
#[verifier::external_body]
pub struct ExEnv(soroban_sdk::Env);

/// soroban_sdk::Address, an opaque identity; the engine only stores, clones
/// and compares addresses.
#[verifier::external_type_specification]
#[verifier::external_body]
pub struct ExAddress(soroban_sdk::Address);

/// Relies on soroban_sdk::Address's derived `Clone`: a clone denotes the same
/// address as the original.
pub assume_specification[ <soroban_sdk::Address as Clone>::clone ](
    a: &soroban_sdk::Address,
) -> (r: soroban_sdk::Address)
    ensures
        r == *a,
;

/// A handle on the host ledger's persistent storage. All reads and writes the
/// engine performs go through this handle, so the view below is a function of
/// it.
pub struct Ledger {
    env: soroban_sdk::Env,
}

/// The ticket records the ledger holds, by `(tag, id)` storage key.
pub uninterp spec fn stored_tickets(l: Ledger) -> Map<(Seq<char>, u32), TicketData>;

/// The scalar counters the ledger holds, by symbol storage key.
pub uninterp spec fn stored_counters(l: Ledger) -> Map<Seq<char>, u32>;

/// Both facets of the persistent store as one mathematical value.
#[verifier::ext_equal]
pub ghost struct StoreView {
    pub tickets: Map<(Seq<char>, u32), TicketData>,
    pub counters: Map<Seq<char>, u32>,
}

/// What the ledger behind `l` holds.
pub open spec fn view_of(l: Ledger) -> StoreView {
    StoreView { tickets: stored_tickets(l), counters: stored_counters(l) }
}

/// The counter stored under `k`, taken as zero where none was ever written.
pub open spec fn ctr_or_zero(s: StoreView, k: Seq<char>) -> u32 {
    if s.counters.dom().contains(k) {
        s.counters[k]
    } else {
        0u32
    }
}

/// The ticket record filed under id `id`, if any.
pub open spec fn ticket_at(s: StoreView, id: u32) -> Option<TicketData> {
    if s.tickets.dom().contains((ticket_tag(), id)) {
        Some(s.tickets[(ticket_tag(), id)])
    } else {
        None
    }
}

impl Ledger {
    /// Wrap the host environment handle; every later read and write of the
    /// persistent store goes through it.
    pub fn attach(env: soroban_sdk::Env) -> Ledger {
        Ledger { env }
    }
}

/// Relies on soroban_sdk persistent storage `get` under a `(Symbol, u32)` key:
/// it returns exactly the record a prior `set` stored there, or `None` where
/// none was. `Symbol::new` accepts the ticket tag (short, alphanumeric). Only
/// this engine writes under the ticket tag, so whatever such a key holds is a
/// record of the shape stored below and converts back losslessly.
#[verifier::external_body]
pub(crate) fn load_ticket(l: &Ledger, tag: &str, id: u32) -> (r: Option<TicketData>)
    requires
        tag@ == ticket_tag(),
    ensures
        r == ticket_at(view_of(*l), id),
{
    let key = (soroban_sdk::Symbol::new(&l.env, tag), id);
    let loaded: Option<(soroban_sdk::Address, i128, bool, bool)> =
        l.env.storage().persistent().get(&key);
    loaded.map(|(owner, price, used, refunded)| TicketData { owner, price, used, refunded })
}

/// Relies on soroban_sdk persistent storage `set` under a `(Symbol, u32)` key:
/// it durably stores the record there, visible to later `get` calls, and
/// leaves every other key — in particular every plain-symbol counter key —
/// unchanged. `Symbol::new` accepts the ticket tag.
#[verifier::external_body]
pub(crate) fn store_ticket(l: &mut Ledger, tag: &str, id: u32, t: &TicketData)
    requires
        tag@ == ticket_tag(),
    ensures
        stored_tickets(*final(l)) == stored_tickets(*old(l)).insert((tag@, id), *t),
        stored_counters(*final(l)) == stored_counters(*old(l)),
{
    let key = (soroban_sdk::Symbol::new(&l.env, tag), id);
    l.env.storage().persistent().set(&key, &(t.owner.clone(), t.price, t.used, t.refunded));
}

/// Relies on soroban_sdk persistent storage `get` under a plain `Symbol` key:
/// it returns exactly the value a prior `set` stored there, or `None` where
/// none was. `Symbol::new` accepts each admitted key name.
#[verifier::external_body]
pub(crate) fn load_counter(l: &Ledger, key: &str) -> (r: Option<u32>)
    requires
        key@ == next_id_tag() || key@ == sales_tag() || key@ == refund_tag() || key@
            == redeem_tag(),
    ensures
        r == (if stored_counters(*l).dom().contains(key@) {
            Some(stored_counters(*l)[key@])
        } else {
            None::<u32>
        }),
{
    l.env.storage().persistent().get(&soroban_sdk::Symbol::new(&l.env, key))
}

/// Relies on soroban_sdk persistent storage `set` under a plain `Symbol` key:
/// it durably stores the value there, visible to later `get` calls, and leaves
/// every other key — in particular every tuple-keyed ticket record — unchanged.
#[verifier::external_body]
pub(crate) fn store_counter(l: &mut Ledger, key: &str, v: u32)
    requires
        key@ == next_id_tag() || key@ == sales_tag() || key@ == refund_tag() || key@
            == redeem_tag(),
    ensures
        stored_counters(*final(l)) == stored_counters(*old(l)).insert(key@, v),
        stored_tickets(*final(l)) == stored_tickets(*old(l)),
{
    l.env.storage().persistent().set(&soroban_sdk::Symbol::new(&l.env, key), &v);
}

/// Relies on soroban_sdk::Address::require_auth: it returns only when the
/// current invocation carries cryptographic proof that `a` authorized it;
/// otherwise the host aborts the whole invocation, so nothing this engine
/// wrote is kept and no partial state is ever observed.
#[verifier::external_body]
pub(crate) fn require_auth(a: &soroban_sdk::Address) {
    a.require_auth();
}

/// Relies on soroban_sdk::Address's `PartialEq`: addresses compare by the
/// address value they denote, not by handle, so the result decides whether
/// the two identities are the same.
#[verifier::external_body]
pub(crate) fn address_eq(a: &soroban_sdk::Address, b: &soroban_sdk::Address) -> (r: bool)
    ensures
        r == (a == b),
{
    a == b
}

} // verus!
