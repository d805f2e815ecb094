//! Key space manager: the deterministic storage keys under which ticket
//! records and the four scalar counters live. Derivation is pure and total,
//! and injective: distinct ticket ids never share a key, and no two counter
//! keys collide.

use vstd::prelude::*;

verus! {

/// Tag component of every ticket record's storage key.
pub open spec fn ticket_tag() -> Seq<char> {
    "TICKET"@
}

/// Key of the next unallocated ticket identifier.
pub open spec fn next_id_tag() -> Seq<char> {
    "NEXT_ID"@
}

/// Key of the total-tickets-sold counter.
pub open spec fn sales_tag() -> Seq<char> {
    "TOTAL_SALES"@
}

/// Key of the total-refunds-requested counter.
pub open spec fn refund_tag() -> Seq<char> {
    "TOTAL_REFUNDS"@
}

/// Key of the total-redemptions counter.
pub open spec fn redeem_tag() -> Seq<char> {
    "TOTAL_REDEEM"@
}

/// The four counter keys are pairwise distinct, so writing one counter can
/// never alias another.
pub proof fn lemma_tags_distinct()
    ensures
        next_id_tag() != sales_tag(),
        next_id_tag() != refund_tag(),
        next_id_tag() != redeem_tag(),
        sales_tag() != refund_tag(),
        sales_tag() != redeem_tag(),
        refund_tag() != redeem_tag(),
{
    reveal_strlit("NEXT_ID");
    reveal_strlit("TOTAL_SALES");
    reveal_strlit("TOTAL_REFUNDS");
    reveal_strlit("TOTAL_REDEEM");
    assert(next_id_tag().len() == 7);
    assert(sales_tag().len() == 11);
    assert(refund_tag().len() == 13);
    assert(redeem_tag().len() == 12);
}

/// Ticket-key derivation is injective: distinct ids give distinct storage
/// keys, so no two tickets can ever share a slot.
pub proof fn lemma_ticket_keys_injective(a: u32, b: u32)
    requires
        a != b,
    ensures
        (ticket_tag(), a) != (ticket_tag(), b),
{
}

} // verus!
