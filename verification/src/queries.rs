//! Read-only presentation of one auction as of a caller-supplied
//! timestamp, and the notification records the presentation layer shows.
//! All computed fields take the timestamp from the caller, never from a
//! clock, so stored status that lags real time is never trusted alone.

use vstd::prelude::*;

use crate::auction::{Auction, AuctionStatus};

verus! {

/// A snapshot of one auction paired with the timestamp the reader supplied;
/// the computed fields are evaluated against that timestamp.
pub struct AuctionView<'a> {
    pub auction: &'a Auction,
    pub current_time: u64,
}

impl<'a> AuctionView<'a> {
    pub open spec fn wf(&self) -> bool {
        self.auction@.interval_in_range()
    }

    /// Pair an auction with the timestamp its reader supplied.
    pub fn new(auction: &'a Auction, current_time: u64) -> (r: AuctionView<'a>)
        requires
            auction@.interval_in_range(),
        ensures
            r.wf(),
            r.auction == auction,
            r.current_time == current_time,
    {
        AuctionView { auction, current_time }
    }

    pub fn auction_id(&self) -> (r: u64)
        ensures
            r == self.auction@.auction_id,
    {
        self.auction.auction_id
    }

    pub fn item(&self) -> (r: &String)
        ensures
            r@ == self.auction@.item,
    {
        &self.auction.item
    }

    pub fn start_time(&self) -> (r: u64)
        ensures
            r == self.auction@.start_time,
    {
        self.auction.start_time
    }

    pub fn duration(&self) -> (r: u64)
        ensures
            r == self.auction@.duration,
    {
        self.auction.duration
    }

    pub fn highest_bid(&self) -> (r: u128)
        ensures
            r == self.auction@.highest_bid,
    {
        self.auction.highest_bid
    }

    pub fn highest_bidder(&self) -> (r: Option<u64>)
        ensures
            r == self.auction@.highest_bidder,
    {
        self.auction.highest_bidder
    }

    pub fn active_bidders(&self) -> (r: &Vec<u64>)
        ensures
            r@ == self.auction@.active_bidders,
    {
        &self.auction.active_bidders
    }

    pub fn status(&self) -> (r: AuctionStatus)
        ensures
            r == self.auction@.status,
    {
        self.auction.status
    }

    /// Time units left for bidding as of the reader's timestamp.
    pub fn time_remaining(&self) -> (r: u64)
        requires
            self.wf(),
        ensures
            r == self.auction@.time_remaining_at(self.current_time),
    {
        self.auction.get_time_remaining(self.current_time)
    }

    /// Whether bidding is still permitted as of the reader's timestamp.
    pub fn is_active(&self) -> (r: bool)
        requires
            self.wf(),
        ensures
            r == self.auction@.is_active_at(self.current_time),
    {
        self.auction.is_active(self.current_time)
    }
}

/// Notification record: a new auction exists.
#[derive(Debug)]
pub struct AuctionCreated {
    pub auction_id: u64,
    pub item: String,
}

/// Notification record: a bid was accepted somewhere.
#[derive(Clone, Copy, Debug, PartialEq, Eq, Structural)]
pub struct BidPlaced {
    pub auction_id: u64,
    pub bidder: u64,
    pub amount: u128,
}

} // verus!
