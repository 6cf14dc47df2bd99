//! The guarantees of the reconciliation protocol, stated and proved over
//! the merge rule: monotonicity, idempotence under redelivery, convergence
//! under reordering, lazy expiry and terminal absorption.
//!
//! Every local acceptance and every remote application of a bid moves an
//! entity by [`merge_bid`], so these laws govern both paths.

use vstd::prelude::*;

use crate::auction::{insert_bidder, merge_bid, with_bid, AuctionModel, AuctionStatus};

verus! {

/// One bid event for a fixed auction, as carried by a `Message::BidPlaced`.
#[derive(Clone, Copy, Debug, PartialEq, Eq, Structural)]
pub struct BidEvent {
    pub bidder: u64,
    pub amount: u128,
}

/// The entity after a batch of bid events has been applied in the order of
/// the sequence, every application evaluated at the same timestamp.
pub open spec fn apply_events(a: AuctionModel, events: Seq<BidEvent>, now: u64) -> AuctionModel
    decreases events.len(),
{
    if events.len() == 0 {
        a
    } else {
        apply_events(merge_bid(a, events[0].bidder, events[0].amount, now), events.drop_first(), now)
    }
}

/// No two events carry the same amount.
pub open spec fn distinct_amounts(events: Seq<BidEvent>) -> bool {
    forall|i: int, j: int|
        0 <= i < j < events.len() ==> events[i].amount != events[j].amount
}

/// Two entities that agree everywhere, up to the order in which the active
/// bidders were recorded.
pub open spec fn equiv(x: AuctionModel, y: AuctionModel) -> bool {
    &&& x.auction_id == y.auction_id
    &&& x.item == y.item
    &&& x.start_time == y.start_time
    &&& x.duration == y.duration
    &&& x.highest_bid == y.highest_bid
    &&& x.highest_bidder == y.highest_bidder
    &&& x.status == y.status
    &&& x.creator == y.creator
    &&& x.active_bidders.to_set() == y.active_bidders.to_set()
}

/// Recording a bidder adds exactly that identity to the set of bidders.
proof fn lemma_insert_bidder_set(bidders: Seq<u64>, bidder: u64)
    ensures
        insert_bidder(bidders, bidder).to_set() == bidders.to_set().insert(bidder),
        insert_bidder(bidders, bidder).contains(bidder),
{
    if bidders.contains(bidder) {
        assert(insert_bidder(bidders, bidder).to_set() =~= bidders.to_set().insert(bidder));
    } else {
        let pushed = bidders.push(bidder);
        assert(pushed[bidders.len() as int] == bidder);
        assert(pushed.contains(bidder));
        assert forall|x: u64| pushed.contains(x) implies bidders.to_set().insert(bidder).contains(
            x,
        ) by {
            let i = choose|i: int| 0 <= i < pushed.len() && pushed[i] == x;
            if i < bidders.len() {
                assert(bidders.contains(x));
            }
        }
        assert forall|x: u64| bidders.to_set().insert(bidder).contains(x) implies pushed.contains(
            x,
        ) by {
            if bidders.contains(x) {
                let i = choose|i: int| 0 <= i < bidders.len() && bidders[i] == x;
                assert(pushed[i] == x);
            }
        }
        assert(pushed.to_set() =~= bidders.to_set().insert(bidder));
    }
}

/// The local path and the remote path follow one rule: a bid the local
/// path accepts (window open, amount strictly greater) moves the entity
/// exactly as the merge rule would.
pub proof fn lemma_local_accept_is_merge(a: AuctionModel, bidder: u64, amount: u128, now: u64)
    requires
        a.is_active_at(now),
        amount > a.highest_bid,
    ensures
        with_bid(a, bidder, amount) == merge_bid(a, bidder, amount, now),
{
}

/// **Monotonicity**, one step at a time. A single bid — local or remote,
/// at whatever timestamp — never lowers the highest bid, and never moves
/// the highest bidder without raising it; chaining this over any
/// interleaving of bids at any timestamps keeps `highest_bid`
/// non-decreasing for the life of the entity.
pub proof fn lemma_merge_monotonic(a: AuctionModel, bidder: u64, amount: u128, now: u64)
    ensures
        merge_bid(a, bidder, amount, now).highest_bid >= a.highest_bid,
        merge_bid(a, bidder, amount, now).highest_bid == a.highest_bid ==> merge_bid(
            a,
            bidder,
            amount,
            now,
        ).highest_bidder == a.highest_bidder,
{
}

/// **Monotonicity.** Over any batch of bid events, the highest bid never
/// decreases, and the recorded highest bidder changes only when the
/// highest bid changes.
pub proof fn lemma_monotonicity(a: AuctionModel, events: Seq<BidEvent>, now: u64)
    ensures
        apply_events(a, events, now).highest_bid >= a.highest_bid,
        apply_events(a, events, now).highest_bid == a.highest_bid ==> apply_events(
            a,
            events,
            now,
        ).highest_bidder == a.highest_bidder,
    decreases events.len(),
{
    if events.len() > 0 {
        lemma_monotonicity(merge_bid(a, events[0].bidder, events[0].amount, now), events.drop_first(), now);
    }
}

/// **Idempotence.** Re-applying the identical bid event, at the original
/// timestamp or any later one, leaves the entity exactly as the first
/// application did: the strict-greater check refuses the amount and the
/// bidder is already recorded.
pub proof fn lemma_idempotence(a: AuctionModel, bidder: u64, amount: u128, now: u64, later: u64)
    requires
        now <= later,
    ensures
        merge_bid(merge_bid(a, bidder, amount, now), bidder, amount, later) == merge_bid(
            a,
            bidder,
            amount,
            now,
        ),
{
    let once = merge_bid(a, bidder, amount, now);
    if a.is_active_at(now) {
        lemma_insert_bidder_set(a.active_bidders, bidder);
        if once.is_active_at(later) {
            assert(insert_bidder(once.active_bidders, bidder) =~= once.active_bidders);
            assert(merge_bid(once, bidder, amount, later) =~= once);
        }
    }
}

/// The merge rule respects [`equiv`]: states that differ only in bidder
/// order stay that way under one more event.
proof fn lemma_merge_preserves_equiv(x: AuctionModel, y: AuctionModel, e: BidEvent, now: u64)
    requires
        equiv(x, y),
    ensures
        equiv(merge_bid(x, e.bidder, e.amount, now), merge_bid(y, e.bidder, e.amount, now)),
{
    lemma_insert_bidder_set(x.active_bidders, e.bidder);
    lemma_insert_bidder_set(y.active_bidders, e.bidder);
    assert(x.active_bidders.contains(e.bidder) <==> y.active_bidders.contains(e.bidder)) by {
        assert(x.active_bidders.to_set().contains(e.bidder) <==> y.active_bidders.to_set().contains(
            e.bidder,
        ));
    }
}

/// Batch form of [`lemma_merge_preserves_equiv`].
proof fn lemma_apply_preserves_equiv(
    x: AuctionModel,
    y: AuctionModel,
    events: Seq<BidEvent>,
    now: u64,
)
    requires
        equiv(x, y),
    ensures
        equiv(apply_events(x, events, now), apply_events(y, events, now)),
    decreases events.len(),
{
    if events.len() > 0 {
        lemma_merge_preserves_equiv(x, y, events[0], now);
        lemma_apply_preserves_equiv(
            merge_bid(x, events[0].bidder, events[0].amount, now),
            merge_bid(y, events[0].bidder, events[0].amount, now),
            events.drop_first(),
            now,
        );
    }
}

/// Two bid events with different amounts can be applied in either order:
/// the results agree up to bidder order.
proof fn lemma_merge_commutes(a: AuctionModel, e1: BidEvent, e2: BidEvent, now: u64)
    requires
        e1.amount != e2.amount,
    ensures
        equiv(
            merge_bid(merge_bid(a, e1.bidder, e1.amount, now), e2.bidder, e2.amount, now),
            merge_bid(merge_bid(a, e2.bidder, e2.amount, now), e1.bidder, e1.amount, now),
        ),
{
    lemma_insert_bidder_set(a.active_bidders, e1.bidder);
    lemma_insert_bidder_set(a.active_bidders, e2.bidder);
    lemma_insert_bidder_set(insert_bidder(a.active_bidders, e1.bidder), e2.bidder);
    lemma_insert_bidder_set(insert_bidder(a.active_bidders, e2.bidder), e1.bidder);
    assert(insert_bidder(insert_bidder(a.active_bidders, e1.bidder), e2.bidder).to_set()
        =~= insert_bidder(insert_bidder(a.active_bidders, e2.bidder), e1.bidder).to_set());
}

/// Applying event `i` first and then the rest reaches the same state, up
/// to bidder order, as applying the whole sequence.
proof fn lemma_pull_event(a: AuctionModel, events: Seq<BidEvent>, i: int, now: u64)
    requires
        distinct_amounts(events),
        0 <= i < events.len(),
    ensures
        equiv(
            apply_events(a, events, now),
            apply_events(
                merge_bid(a, events[i].bidder, events[i].amount, now),
                events.remove(i),
                now,
            ),
        ),
    decreases events.len(),
{
    let e0 = events[0];
    let rest = events.drop_first();
    if i == 0 {
        assert(events.remove(0) =~= rest);
        lemma_equiv_reflexive(apply_events(merge_bid(a, e0.bidder, e0.amount, now), rest, now));
    } else {
        let ei = events[i];
        let x0 = merge_bid(a, e0.bidder, e0.amount, now);
        assert(rest[i - 1] == ei);
        assert(forall|p: int, q: int|
            0 <= p < q < rest.len() ==> rest[p].amount != rest[q].amount);
        lemma_pull_event(x0, rest, i - 1, now);
        lemma_merge_commutes(a, e0, ei, now);
        lemma_apply_preserves_equiv(
            merge_bid(merge_bid(a, e0.bidder, e0.amount, now), ei.bidder, ei.amount, now),
            merge_bid(merge_bid(a, ei.bidder, ei.amount, now), e0.bidder, e0.amount, now),
            rest.remove(i - 1),
            now,
        );
        assert(events.remove(i)[0] == e0);
        assert(events.remove(i).drop_first() =~= rest.remove(i - 1));
    }
}

proof fn lemma_equiv_reflexive(x: AuctionModel)
    ensures
        equiv(x, x),
{
}

/// **Convergence.** Two replicas that each receive the same multiset of
/// bid events for one auction — in whatever orders — and evaluate every
/// application at a common timestamp end with the same highest bid, the
/// same highest bidder, and the same set of active bidders, as long as no
/// two events carry equal amounts.
pub proof fn lemma_convergence(
    a: AuctionModel,
    order1: Seq<BidEvent>,
    order2: Seq<BidEvent>,
    now: u64,
)
    requires
        order1.to_multiset() == order2.to_multiset(),
        distinct_amounts(order1),
        distinct_amounts(order2),
    ensures
        apply_events(a, order1, now).highest_bid == apply_events(a, order2, now).highest_bid,
        apply_events(a, order1, now).highest_bidder == apply_events(a, order2, now).highest_bidder,
        apply_events(a, order1, now).active_bidders.to_set() == apply_events(
            a,
            order2,
            now,
        ).active_bidders.to_set(),
    decreases order1.len(),
{
    order1.to_multiset_ensures();
    order2.to_multiset_ensures();
    if order1.len() == 0 {
        assert(order2.len() == 0);
    } else {
        let x = order1[0];
        assert(order1.contains(x));
        assert(order1.to_multiset().count(x) > 0);
        assert(order2.contains(x));
        let j = choose|j: int| 0 <= j < order2.len() && order2[j] == x;
        let rest1 = order1.drop_first();
        let rest2 = order2.remove(j);
        assert(order1.remove(0) =~= rest1);
        assert(rest1.to_multiset() =~= order1.to_multiset().remove(x));
        assert(rest2.to_multiset() =~= order2.to_multiset().remove(x));
        assert(forall|p: int, q: int|
            0 <= p < q < rest1.len() ==> rest1[p].amount != rest1[q].amount);
        assert forall|p: int, q: int|
            0 <= p < q < rest2.len() implies rest2[p].amount != rest2[q].amount by {
            let p0 = if p < j { p } else { p + 1 };
            let q0 = if q < j { q } else { q + 1 };
            assert(rest2[p] == order2[p0] && rest2[q] == order2[q0]);
        }
        let merged = merge_bid(a, x.bidder, x.amount, now);
        lemma_pull_event(a, order2, j, now);
        lemma_convergence(merged, rest1, rest2, now);
    }
}

/// **Lazy expiry.** At or past `start_time + duration` an auction is not
/// active — whatever status is still stored — and no bid event changes it.
pub proof fn lemma_lazy_expiry(a: AuctionModel, events: Seq<BidEvent>, now: u64)
    requires
        now >= a.end_time(),
    ensures
        !a.is_active_at(now),
        apply_events(a, events, now) == a,
    decreases events.len(),
{
    if events.len() > 0 {
        lemma_lazy_expiry(a, events.drop_first(), now);
    }
}

/// **Terminal absorption.** Once the status is `Ended` or `Cancelled`, no
/// bid event — however many, in whatever order, at whatever time —
/// changes the entity.
pub proof fn lemma_terminal_absorption(a: AuctionModel, events: Seq<BidEvent>, now: u64)
    requires
        a.status != AuctionStatus::Active,
    ensures
        !a.is_active_at(now),
        apply_events(a, events, now) == a,
    decreases events.len(),
{
    if events.len() > 0 {
        lemma_terminal_absorption(a, events.drop_first(), now);
    }
}

} // verus!
