//! The auction entity, its lifecycle status, and the specification-level
//! merge rule that both the local bid path and the remote reconciliation
//! path follow.

use vstd::prelude::*;

verus! {

/// Lifecycle status of an auction. `Ended` and `Cancelled` are terminal:
/// once reached, no bid ever mutates the entity again.
#[derive(Clone, Copy, Debug, PartialEq, Eq, Structural)]
pub enum AuctionStatus {
    Active,
    Ended,
    Cancelled,
}

/// One auction entity, independently replicated. Bidder identities are
/// plain numeric identifiers supplied by the calling context.
#[derive(Debug)]
pub struct Auction {
    pub auction_id: u64,
    pub item: String,
    pub start_time: u64,
    pub duration: u64,
    pub highest_bid: u128,
    pub highest_bidder: Option<u64>,
    pub active_bidders: Vec<u64>,
    pub status: AuctionStatus,
    /// Identity that created the auction, when the creating caller was
    /// authenticated; only this identity may cancel the auction.
    pub creator: Option<u64>,
}

/// Mathematical model of an [`Auction`]: the same fields over `Seq` views.
#[verifier::ext_equal]
pub struct AuctionModel {
    pub auction_id: u64,
    pub item: Seq<char>,
    pub start_time: u64,
    pub duration: u64,
    pub highest_bid: u128,
    pub highest_bidder: Option<u64>,
    pub active_bidders: Seq<u64>,
    pub status: AuctionStatus,
    pub creator: Option<u64>,
}

impl View for Auction {
    type V = AuctionModel;

    open spec fn view(&self) -> AuctionModel {
        AuctionModel {
            auction_id: self.auction_id,
            item: self.item@,
            start_time: self.start_time,
            duration: self.duration,
            highest_bid: self.highest_bid,
            highest_bidder: self.highest_bidder,
            active_bidders: self.active_bidders@,
            status: self.status,
            creator: self.creator,
        }
    }
}

impl AuctionModel {
    /// The first timestamp at which bidding is no longer permitted.
    pub open spec fn end_time(self) -> int {
        self.start_time + self.duration
    }

    /// The end of the bidding interval fits the timestamp type — the one
    /// machine limit the time predicates need.
    pub open spec fn interval_in_range(self) -> bool {
        self.end_time() <= u64::MAX
    }

    /// Well-formedness of an auction entity:
    /// - the end of the bidding interval fits the timestamp type;
    /// - the highest bidder is recorded if and only if some bid was accepted
    ///   (the highest bid rose above its initial zero);
    /// - the set of bidders holds no duplicates.
    pub open spec fn wf(self) -> bool {
        &&& self.interval_in_range()
        &&& (self.highest_bidder is Some <==> self.highest_bid > 0)
        &&& forall|i: int, j: int|
            0 <= i < j < self.active_bidders.len()
                ==> self.active_bidders[i] != self.active_bidders[j]
    }

    /// Bidding is permitted exactly while the status is `Active` and the
    /// caller-supplied timestamp lies before the end of the interval,
    /// regardless of whether a lapsed status has been written back yet.
    pub open spec fn is_active_at(self, now: u64) -> bool {
        self.status == AuctionStatus::Active && (now as int) < self.end_time()
    }

    /// Time left for bidding: `max(0, start_time + duration - now)`.
    pub open spec fn time_remaining_at(self, now: u64) -> int {
        if now as int >= self.end_time() {
            0
        } else {
            self.end_time() - now
        }
    }
}

impl Auction {
    /// True iff bidding is permitted at the caller-supplied timestamp.
    /// Pure: `current_time` always comes from the caller, never a clock.
    pub fn is_active(&self, current_time: u64) -> (r: bool)
        requires
            self@.interval_in_range(),
        ensures
            r == self@.is_active_at(current_time),
    {
        self.status == AuctionStatus::Active && self.get_time_remaining(current_time) > 0
    }

    /// Time units left before bidding closes, zero once it has.
    pub fn get_time_remaining(&self, current_time: u64) -> (r: u64)
        requires
            self@.interval_in_range(),
        ensures
            r == self@.time_remaining_at(current_time),
    {
        if current_time >= self.start_time + self.duration {
            0
        } else {
            self.start_time + self.duration - current_time
        }
    }
}

/// A bidder set with the bidder recorded: unchanged when already present,
/// appended otherwise. Set semantics over an ordered container.
pub open spec fn insert_bidder(bidders: Seq<u64>, bidder: u64) -> Seq<u64> {
    if bidders.contains(bidder) {
        bidders
    } else {
        bidders.push(bidder)
    }
}

/// The auction after an accepted bid: the highest bid and bidder are
/// replaced and the bidder joins the set of active bidders. Identity,
/// interval and status never change.
pub open spec fn with_bid(a: AuctionModel, bidder: u64, amount: u128) -> AuctionModel {
    AuctionModel {
        highest_bid: amount,
        highest_bidder: Some(bidder),
        active_bidders: insert_bidder(a.active_bidders, bidder),
        ..a
    }
}

/// The auction with only the bidder recorded: a delivered bid that did not
/// beat the current highest still proves the identity took part.
pub open spec fn with_bidder(a: AuctionModel, bidder: u64) -> AuctionModel {
    AuctionModel { active_bidders: insert_bidder(a.active_bidders, bidder), ..a }
}

/// The monotonic merge rule applied to one delivered bid event, evaluated
/// at the caller-supplied timestamp:
/// - outside the bidding window (lapsed or terminal) the event is dropped;
/// - while active, the bidder is always recorded, and the highest bid moves
///   only to a strictly greater amount (a take-the-maximum merge).
pub open spec fn merge_bid(a: AuctionModel, bidder: u64, amount: u128, now: u64) -> AuctionModel {
    if a.is_active_at(now) {
        if amount > a.highest_bid {
            with_bid(a, bidder, amount)
        } else {
            with_bidder(a, bidder)
        }
    } else {
        a
    }
}

/// Commands accepted from callers of the local replica.
#[derive(Debug)]
pub enum Operation {
    CreateAuction { item: String, duration: u64 },
    PlaceBid { auction_id: u64, amount: u128 },
}

/// Events exchanged between replicas: fire-and-forget, delivered
/// at-least-once and unordered.
#[derive(Clone, Copy, Debug, PartialEq, Eq, Structural)]
pub enum Message {
    BidPlaced { auction_id: u64, bidder: u64, amount: u128 },
}

/// Synchronous replies to local commands.
#[derive(Clone, Copy, Debug, PartialEq, Eq, Structural)]
pub enum Response {
    AuctionCreated { auction_id: u64 },
    BidPlaced { auction_id: u64, amount: u128 },
    AuctionEnded { auction_id: u64, winner: u64 },
}

/// Everything that can go wrong with a local command. Remote events never
/// surface an error to their sender.
#[derive(Clone, Copy, Debug, PartialEq, Eq, Structural)]
pub enum AuctionError {
    AuctionNotFound,
    AuctionEnded,
    BidTooLow,
    InsufficientBalance,
    Unauthorized,
    DuplicateId,
    StorageFailure,
}

} // verus!
