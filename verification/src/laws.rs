//! Laws of the lifecycle engine, stated and proved over the decision and
//! transition functions that the operations' contracts pin down. Each public
//! proof function here is part of what the library promises.

use vstd::prelude::*;

use soroban_sdk::Address;

use crate::Error;
use crate::keys::{lemma_tags_distinct, ticket_tag};
use crate::lifecycle::{
    issue_id, issue_next, redeem_decision, redeem_next, redeems_of, refund_decision, refund_next,
    refunds_of, sales_of,
};
use crate::store::{ticket_at, StoreView};

verus! {

/// A well-formed store: every ticket record sits strictly below the id
/// counter, so the next identifier has never been used.
pub open spec fn wf(s: StoreView) -> bool {
    forall|k: (Seq<char>, u32)| #[trigger] s.tickets.dom().contains(k) ==> k.1 < issue_id(s)
}

/// A run of successful issuances: `views` are the stores seen before and
/// after each call, `ids` the identifiers returned, and each step is exactly
/// what one successful issue call leaves behind. The two counter bounds
/// mirror the operation's own preconditions, which every real call meets.
pub open spec fn issue_run(
    views: Seq<StoreView>,
    buyers: Seq<Address>,
    prices: Seq<i128>,
    ids: Seq<u32>,
) -> bool {
    &&& views.len() == ids.len() + 1
    &&& buyers.len() == ids.len()
    &&& prices.len() == ids.len()
    &&& forall|i: int|
        0 <= i < ids.len() ==> {
            &&& #[trigger] ids[i] == issue_id(views[i])
            &&& views[i + 1] == issue_next(views[i], buyers[i], prices[i])
            &&& issue_id(views[i]) < u32::MAX
            &&& sales_of(views[i]) < u32::MAX
        }
}

/// One successful issuance moves the id counter and the sales counter up by
/// one each and leaves the refund and redemption counters alone.
pub proof fn lemma_issue_counters(s: StoreView, buyer: Address, price: i128)
    requires
        issue_id(s) < u32::MAX,
        sales_of(s) < u32::MAX,
    ensures
        issue_id(issue_next(s, buyer, price)) == issue_id(s) + 1,
        sales_of(issue_next(s, buyer, price)) == sales_of(s) + 1,
        refunds_of(issue_next(s, buyer, price)) == refunds_of(s),
        redeems_of(issue_next(s, buyer, price)) == redeems_of(s),
{
    lemma_tags_distinct();
}

/// In a well-formed store the identifier an issuance allocates is fresh — no
/// record was ever filed under it — and the store it leaves is well-formed
/// again, so identifiers are never reused.
pub proof fn lemma_issue_fresh(s: StoreView, buyer: Address, price: i128)
    requires
        wf(s),
        issue_id(s) < u32::MAX,
        sales_of(s) < u32::MAX,
    ensures
        !s.tickets.dom().contains((ticket_tag(), issue_id(s))),
        wf(issue_next(s, buyer, price)),
{
    lemma_tags_distinct();
}

/// A refund request leaves the store well-formed: it files nothing above the
/// id counter and does not touch the id counter.
pub proof fn lemma_refund_preserves_wf(s: StoreView, caller: Address, id: u32)
    requires
        wf(s),
    ensures
        wf(refund_next(s, caller, id)),
{
    lemma_tags_distinct();
}

/// A redemption leaves the store well-formed: it files nothing above the id
/// counter and does not touch the id counter.
pub proof fn lemma_redeem_preserves_wf(s: StoreView, caller: Address, id: u32)
    requires
        wf(s),
    ensures
        wf(redeem_next(s, caller, id)),
{
    lemma_tags_distinct();
}

/// Along any run of successful issuances the identifiers returned go up by
/// exactly one per call from wherever the id counter started — no gaps, no
/// repeats — and the sales counter rises by exactly the number of calls.
/// Started on a fresh store (both counters zero), the identifiers are
/// exactly 0, 1, 2, … and the sales counter ends at the number of calls.
pub proof fn lemma_issue_run_dense(
    views: Seq<StoreView>,
    buyers: Seq<Address>,
    prices: Seq<i128>,
    ids: Seq<u32>,
)
    requires
        issue_run(views, buyers, prices, ids),
    ensures
        forall|i: int|
            0 <= i < ids.len() ==> (#[trigger] ids[i]) as int == issue_id(views[0]) + i,
        sales_of(views.last()) as int == sales_of(views[0]) + ids.len(),
    decreases ids.len(),
{
    if ids.len() == 0 {
        assert(views.last() == views[0]);
    } else {
        let views2 = views.subrange(1, views.len() as int);
        let buyers2 = buyers.subrange(1, buyers.len() as int);
        let prices2 = prices.subrange(1, prices.len() as int);
        let ids2 = ids.subrange(1, ids.len() as int);
        assert forall|i: int| 0 <= i < ids2.len() implies {
            &&& #[trigger] ids2[i] == issue_id(views2[i])
            &&& views2[i + 1] == issue_next(views2[i], buyers2[i], prices2[i])
            &&& issue_id(views2[i]) < u32::MAX
            &&& sales_of(views2[i]) < u32::MAX
        } by {
            assert(ids[i + 1] == issue_id(views[i + 1]));
        }
        assert(issue_run(views2, buyers2, prices2, ids2));
        lemma_issue_run_dense(views2, buyers2, prices2, ids2);
        assert(ids[0] == issue_id(views[0]));
        lemma_issue_counters(views[0], buyers[0], prices[0]);
        assert(views2[0] == views[1]);
        assert(views2.last() == views.last());
        assert(issue_id(views2[0]) == issue_id(views[0]) + 1);
        assert(sales_of(views2[0]) == sales_of(views[0]) + 1);
        assert forall|i: int| 0 <= i < ids.len() implies (#[trigger] ids[i]) as int == issue_id(
            views[0],
        ) + i by {
            if i > 0 {
                assert(ids2[i - 1] == ids[i]);
                assert((ids2[i - 1]) as int == issue_id(views2[0]) + (i - 1));
            }
        }
    }
}

/// A refund request for an id with no record signals NotFound and moves
/// nothing: the store — in particular the refund counter — is unchanged.
pub proof fn lemma_refund_nonexistent(s: StoreView, caller: Address, id: u32)
    requires
        ticket_at(s, id) is None,
    ensures
        refund_decision(s, caller, id) == Err::<(), Error>(Error::NotFound),
        refund_next(s, caller, id) == s,
{
}

/// A refund request by anyone but the owner signals AuthorizationMismatch and
/// moves nothing: the record keeps its flags — `refunded` stays as it was —
/// and the refund counter keeps its value.
pub proof fn lemma_refund_wrong_caller(s: StoreView, caller: Address, id: u32)
    requires
        ticket_at(s, id) matches Some(t) && t.owner != caller,
    ensures
        refund_decision(s, caller, id) == Err::<(), Error>(Error::AuthorizationMismatch),
        refund_next(s, caller, id) == s,
{
}

/// A redemption of an already-used ticket by its owner signals AlreadyUsed
/// and moves nothing: the store — in particular the redemption counter — is
/// unchanged. (Anyone else is turned away as a mismatch before the flag is
/// even looked at.)
pub proof fn lemma_redeem_used(s: StoreView, caller: Address, id: u32)
    requires
        ticket_at(s, id) matches Some(t) && t.owner == caller && t.used,
    ensures
        redeem_decision(s, caller, id) == Err::<(), Error>(Error::AlreadyUsed),
        redeem_next(s, caller, id) == s,
{
}

/// Idempotence asymmetry, redemption side: where a redemption succeeds, an
/// identical second attempt signals AlreadyUsed and leaves the store exactly
/// as the first attempt left it — redemption happens at most once per ticket.
pub proof fn lemma_redeem_twice(s: StoreView, caller: Address, id: u32)
    requires
        redeem_decision(s, caller, id) is Ok,
    ensures
        redeem_decision(redeem_next(s, caller, id), caller, id) == Err::<(), Error>(
            Error::AlreadyUsed,
        ),
        redeem_next(redeem_next(s, caller, id), caller, id) == redeem_next(s, caller, id),
{
}

/// Idempotence asymmetry, refund side: where a refund request succeeds, an
/// identical second request succeeds as well, and the two together move the
/// refund counter up by exactly two — the repetition is deliberately not
/// guarded against.
pub proof fn lemma_refund_twice(s: StoreView, caller: Address, id: u32)
    requires
        refund_decision(s, caller, id) is Ok,
        refunds_of(s) + 2 <= u32::MAX,
    ensures
        refund_decision(refund_next(s, caller, id), caller, id) is Ok,
        refunds_of(refund_next(refund_next(s, caller, id), caller, id)) as int == refunds_of(s)
            + 2,
{
    lemma_tags_distinct();
}

} // verus!
