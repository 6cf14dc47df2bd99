//! The replica's command and event handlers: auction creation, the local
//! bid path, and the idempotent reconciliation of bid events delivered from
//! other replicas. Timestamps and caller identities are always supplied by
//! the caller; nothing here reads a clock.

use vstd::prelude::*;

use crate::auction::{
    merge_bid, with_bid, Auction, AuctionError, AuctionModel, AuctionStatus, Message, Operation,
    Response,
};
use crate::state::AuctionState;

verus! {

/// One replica: its persisted state and the outbox of bid events awaiting
/// propagation to the other replicas. The transport drains the outbox;
/// delivery may duplicate, delay or reorder the events.
pub struct AuctionContract {
    pub state: AuctionState,
    pub outbox: Vec<Message>,
}

/// The entity a freshly created auction denotes: no bid yet, bidding open
/// from `start_time` for `duration` time units.
pub open spec fn fresh_auction(
    auction_id: u64,
    item: Seq<char>,
    start_time: u64,
    duration: u64,
    creator: Option<u64>,
) -> AuctionModel {
    AuctionModel {
        auction_id,
        item,
        start_time,
        duration,
        highest_bid: 0,
        highest_bidder: None,
        active_bidders: Seq::empty(),
        status: AuctionStatus::Active,
        creator,
    }
}

/// What a successful creation does: the allocator advances, the new entity
/// is stored under the fresh identifier, and the identifier is returned.
pub open spec fn create_outcome(
    pre: AuctionContract,
    post: AuctionContract,
    item: Seq<char>,
    duration: u64,
    creator: Option<u64>,
    now: u64,
    r: Result<Response, AuctionError>,
) -> bool {
    let id = (pre.state.next_id + 1) as u64;
    &&& r == Ok::<Response, AuctionError>(Response::AuctionCreated { auction_id: id })
    &&& post.state.next_id == id
    &&& post.state.auctions@ == pre.state.auctions@.insert(
        id,
        fresh_auction(id, item, now, duration, creator),
    )
    &&& post.outbox@ == pre.outbox@
}

/// What a local bid does, case by case. Exactly one case applies; every
/// rejection leaves the replica untouched, and only an accepted bid emits
/// an event.
pub open spec fn place_bid_outcome(
    pre: AuctionContract,
    post: AuctionContract,
    auction_id: u64,
    amount: u128,
    bidder: Option<u64>,
    now: u64,
    r: Result<Response, AuctionError>,
) -> bool {
    if !pre.state.auctions@.contains_key(auction_id) {
        r == Err::<Response, AuctionError>(AuctionError::AuctionNotFound) && post == pre
    } else {
        let a = pre.state.auctions@[auction_id];
        match bidder {
            None => r == Err::<Response, AuctionError>(AuctionError::Unauthorized) && post == pre,
            Some(b) => {
                if !a.is_active_at(now) {
                    r == Err::<Response, AuctionError>(AuctionError::AuctionEnded) && post == pre
                } else if amount <= a.highest_bid {
                    r == Err::<Response, AuctionError>(AuctionError::BidTooLow) && post == pre
                } else {
                    &&& r == Ok::<Response, AuctionError>(
                        Response::BidPlaced { auction_id, amount },
                    )
                    &&& post.state.auctions@ == pre.state.auctions@.insert(
                        auction_id,
                        with_bid(a, b, amount),
                    )
                    &&& post.state.next_id == pre.state.next_id
                    &&& post.outbox@ == pre.outbox@.push(
                        Message::BidPlaced { auction_id, bidder: b, amount },
                    )
                }
            },
        }
    }
}

/// What reconciling one delivered bid event does: the stored entity moves
/// by the monotonic merge rule; an event for an unknown auction is dropped.
/// Nothing is emitted and no error ever reaches the caller.
pub open spec fn reconcile_outcome(
    pre: AuctionContract,
    post: AuctionContract,
    auction_id: u64,
    bidder: u64,
    amount: u128,
    now: u64,
) -> bool {
    &&& post.state.auctions@ == (if pre.state.auctions@.contains_key(auction_id) {
        pre.state.auctions@.insert(
            auction_id,
            merge_bid(pre.state.auctions@[auction_id], bidder, amount, now),
        )
    } else {
        pre.state.auctions@
    })
    &&& post.state.next_id == pre.state.next_id
    &&& post.outbox@ == pre.outbox@
}

/// What a cancellation does, case by case: only the creator may cancel,
/// and only an auction still marked `Active`; the time check is bypassed.
pub open spec fn cancel_outcome(
    pre: AuctionContract,
    post: AuctionContract,
    auction_id: u64,
    caller: Option<u64>,
    r: Result<(), AuctionError>,
) -> bool {
    if !pre.state.auctions@.contains_key(auction_id) {
        r == Err::<(), AuctionError>(AuctionError::AuctionNotFound) && post == pre
    } else {
        let a = pre.state.auctions@[auction_id];
        if !(caller is Some && caller == a.creator) {
            r == Err::<(), AuctionError>(AuctionError::Unauthorized) && post == pre
        } else if a.status != AuctionStatus::Active {
            r == Err::<(), AuctionError>(AuctionError::AuctionEnded) && post == pre
        } else {
            &&& r == Ok::<(), AuctionError>(())
            &&& post.state.auctions@ == pre.state.auctions@.insert(
                auction_id,
                AuctionModel { status: AuctionStatus::Cancelled, ..a },
            )
            &&& post.state.next_id == pre.state.next_id
            &&& post.outbox@ == pre.outbox@
        }
    }
}

impl AuctionContract {
    /// The replica is well formed.
    pub open spec fn wf(&self) -> bool {
        self.state.wf()
    }

    /// A fresh replica with an empty outbox.
    pub fn new() -> (r: AuctionContract)
        ensures
            r.wf(),
            r.state.auctions@ == Map::<u64, AuctionModel>::empty(),
            r.state.next_id == 0,
            r.outbox@ == Seq::<Message>::empty(),
    {
        AuctionContract { state: AuctionState::new(), outbox: Vec::new() }
    }

    /// Create a new auction whose bidding window opens at the
    /// caller-supplied `now` and lasts `duration` time units. The
    /// identifier comes from the allocator, so creation never collides.
    pub fn create_auction(
        &mut self,
        item: String,
        duration: u64,
        creator: Option<u64>,
        now: u64,
    ) -> (r: Result<Response, AuctionError>)
        requires
            old(self).wf(),
            old(self).state.next_id < u64::MAX,
            now + duration <= u64::MAX,
        ensures
            final(self).wf(),
            create_outcome(*old(self), *final(self), item@, duration, creator, now, r),
    {
        let auction_id = self.state.next_id + 1;
        self.state.next_id = auction_id;
        let auction = Auction {
            auction_id,
            item,
            start_time: now,
            duration,
            highest_bid: 0,
            highest_bidder: None,
            active_bidders: Vec::new(),
            status: AuctionStatus::Active,
            creator,
        };
        proof {
            assert(auction@ =~= fresh_auction(auction_id, auction.item@, now, duration, creator));
            assert(!old(self).state.auctions@.contains_key(auction_id));
        }
        match self.state.auctions.create(auction) {
            Ok(()) => Ok(Response::AuctionCreated { auction_id }),
            Err(e) => {
                proof {
                    assert(false);
                }
                Err(e)
            },
        }
    }

    /// The local bid path: load, check identity, check the window, check
    /// the amount strictly beats the current highest, then persist and
    /// emit the event — in that order, with zero writes on any rejection.
    pub fn place_bid(
        &mut self,
        auction_id: u64,
        amount: u128,
        bidder: Option<u64>,
        now: u64,
    ) -> (r: Result<Response, AuctionError>)
        requires
            old(self).wf(),
        ensures
            final(self).wf(),
            place_bid_outcome(*old(self), *final(self), auction_id, amount, bidder, now, r),
    {
        let probe = match self.state.auctions.get(auction_id) {
            None => None,
            Some(a) => Some((a.is_active(now), a.highest_bid)),
        };
        match probe {
            None => Err(AuctionError::AuctionNotFound),
            Some((active, highest)) => match bidder {
                None => Err(AuctionError::Unauthorized),
                Some(b) => {
                    if !active {
                        Err(AuctionError::AuctionEnded)
                    } else if amount <= highest {
                        Err(AuctionError::BidTooLow)
                    } else {
                        self.state.auctions.record_bid(auction_id, b, amount);
                        self.outbox.push(Message::BidPlaced { auction_id, bidder: b, amount });
                        Ok(Response::BidPlaced { auction_id, amount })
                    }
                },
            },
        }
    }

    /// Reconcile one bid event delivered from another replica: apply the
    /// monotonic merge rule, drop events for unknown auctions, and never
    /// raise toward the caller — delivery may repeat or reorder events and
    /// subsequent events must still be processed.
    pub fn process_bid_message(
        &mut self,
        auction_id: u64,
        bidder: u64,
        amount: u128,
        now: u64,
    ) -> (r: Result<(), AuctionError>)
        requires
            old(self).wf(),
        ensures
            final(self).wf(),
            r == Ok::<(), AuctionError>(()),
            reconcile_outcome(*old(self), *final(self), auction_id, bidder, amount, now),
    {
        let probe = match self.state.auctions.get(auction_id) {
            None => None,
            Some(a) => Some((a.is_active(now), a.highest_bid)),
        };
        match probe {
            None => Ok(()),
            Some((active, highest)) => {
                if active {
                    if amount > highest {
                        self.state.auctions.record_bid(auction_id, bidder, amount);
                    } else {
                        self.state.auctions.record_bidder(auction_id, bidder);
                    }
                } else {
                    proof {
                        let m = old(self).state.auctions@;
                        assert(m.insert(auction_id, merge_bid(m[auction_id], bidder, amount, now))
                            =~= m);
                    }
                }
                Ok(())
            },
        }
    }

    /// Cancel an auction: allowed only for its creator and only while the
    /// stored status is still `Active`; terminal and immediate.
    pub fn cancel_auction(&mut self, auction_id: u64, caller: Option<u64>) -> (r: Result<(), AuctionError>)
        requires
            old(self).wf(),
        ensures
            final(self).wf(),
            cancel_outcome(*old(self), *final(self), auction_id, caller, r),
    {
        let probe = match self.state.auctions.get(auction_id) {
            None => None,
            Some(a) => Some((a.creator, a.status)),
        };
        match probe {
            None => Err(AuctionError::AuctionNotFound),
            Some((creator, status)) => {
                let authorized = match (caller, creator) {
                    (Some(c), Some(o)) => c == o,
                    _ => false,
                };
                if !authorized {
                    Err(AuctionError::Unauthorized)
                } else if status != AuctionStatus::Active {
                    Err(AuctionError::AuctionEnded)
                } else {
                    self.state.auctions.mark_cancelled(auction_id);
                    Ok(())
                }
            },
        }
    }

    /// Dispatch one local command. Errors abort the state change and go
    /// back to the caller synchronously; the caller's verified identity,
    /// when it has one, arrives in `signer`.
    pub fn execute_operation(
        &mut self,
        operation: Operation,
        signer: Option<u64>,
        now: u64,
    ) -> (r: Result<Response, AuctionError>)
        requires
            old(self).wf(),
            operation matches Operation::CreateAuction { item: _, duration }
                ==> old(self).state.next_id < u64::MAX && now + duration <= u64::MAX,
        ensures
            final(self).wf(),
            match operation {
                Operation::CreateAuction { item, duration } => create_outcome(
                    *old(self),
                    *final(self),
                    item@,
                    duration,
                    signer,
                    now,
                    r,
                ),
                Operation::PlaceBid { auction_id, amount } => place_bid_outcome(
                    *old(self),
                    *final(self),
                    auction_id,
                    amount,
                    signer,
                    now,
                    r,
                ),
            },
    {
        match operation {
            Operation::CreateAuction { item, duration } => {
                self.create_auction(item, duration, signer, now)
            },
            Operation::PlaceBid { auction_id, amount } => {
                self.place_bid(auction_id, amount, signer, now)
            },
        }
    }

    /// Consume one cross-replica event. Failures never abort processing of
    /// subsequent events, so nothing is surfaced here.
    pub fn execute_message(&mut self, message: Message, now: u64)
        requires
            old(self).wf(),
        ensures
            final(self).wf(),
            match message {
                Message::BidPlaced { auction_id, bidder, amount } => reconcile_outcome(
                    *old(self),
                    *final(self),
                    auction_id,
                    bidder,
                    amount,
                    now,
                ),
            },
    {
        match message {
            Message::BidPlaced { auction_id, bidder, amount } => {
                let _ = self.process_bid_message(auction_id, bidder, amount, now);
            },
        }
    }

    /// Hand the accumulated outbound events to the transport and start an
    /// empty outbox.
    pub fn take_outbox(&mut self) -> (r: Vec<Message>)
        ensures
            final(self).state == old(self).state,
            final(self).outbox@ == Seq::<Message>::empty(),
            r@ == old(self).outbox@,
    {
        let mut drained: Vec<Message> = Vec::new();
        core::mem::swap(&mut drained, &mut self.outbox);
        drained
    }
}

} // verus!
