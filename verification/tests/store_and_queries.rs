//! The keyed repository and the read-only queries, including the exact
//! time arithmetic of the clock-free predicates.

use auction_core::auction::{Auction, AuctionError, AuctionStatus, Response};
use auction_core::contract::AuctionContract;
use auction_core::auction::Message;
use auction_core::queries::{AuctionCreated, AuctionView, BidPlaced};
use auction_core::store::AuctionStore;

const X: u64 = 7;
const Y: u64 = 8;

fn entity(id: u64, start: u64, duration: u64) -> Auction {
    Auction {
        auction_id: id,
        item: "vase".to_string(),
        start_time: start,
        duration,
        highest_bid: 0,
        highest_bidder: None,
        active_bidders: Vec::new(),
        status: AuctionStatus::Active,
        creator: None,
    }
}

#[test]
fn create_refuses_a_duplicate_id() {
    let mut s = AuctionStore::new();
    assert_eq!(s.create(entity(1, 0, 100)), Ok(()));
    assert_eq!(s.create(entity(1, 5, 50)), Err(AuctionError::DuplicateId));
    // the first entity is untouched
    assert_eq!(s.get(1).unwrap().start_time, 0);
}

#[test]
fn put_replaces_unconditionally() {
    let mut s = AuctionStore::new();
    assert_eq!(s.create(entity(1, 0, 100)), Ok(()));
    s.put(entity(1, 5, 50));
    let a = s.get(1).unwrap();
    assert_eq!(a.start_time, 5);
    assert_eq!(a.duration, 50);
    s.put(entity(2, 1, 10));
    assert_eq!(s.get(2).unwrap().duration, 10);
}

#[test]
fn get_distinguishes_missing_keys() {
    let mut s = AuctionStore::new();
    assert!(s.get(1).is_none());
    assert_eq!(s.create(entity(1, 0, 100)), Ok(()));
    assert!(s.get(1).is_some());
    assert!(s.get(2).is_none());
}

#[test]
fn time_remaining_has_exact_values() {
    let a = entity(1, 10, 25);
    assert_eq!(a.get_time_remaining(10), 25);
    assert_eq!(a.get_time_remaining(20), 15);
    assert_eq!(a.get_time_remaining(34), 1);
    assert_eq!(a.get_time_remaining(35), 0);
    assert_eq!(a.get_time_remaining(40), 0);
    assert_eq!(a.get_time_remaining(0), 35);
}

#[test]
fn is_active_is_false_at_the_boundary() {
    let a = entity(1, 10, 25);
    assert!(a.is_active(10));
    assert!(a.is_active(34));
    assert!(!a.is_active(35));
    assert!(!a.is_active(200));
    let mut cancelled = entity(2, 10, 25);
    cancelled.status = AuctionStatus::Cancelled;
    assert!(!cancelled.is_active(20));
    let mut ended = entity(3, 10, 25);
    ended.status = AuctionStatus::Ended;
    assert!(!ended.is_active(20));
}

#[test]
fn active_auctions_filters_by_time_and_status() {
    let mut c = AuctionContract::new();
    assert!(c.create_auction("short".to_string(), 10, Some(X), 0).is_ok());
    assert!(c.create_auction("long".to_string(), 100, Some(X), 0).is_ok());
    assert!(c.create_auction("doomed".to_string(), 100, Some(X), 0).is_ok());
    assert_eq!(c.cancel_auction(3, Some(X)), Ok(()));
    let mut active = c.state.auctions.active_auctions(50);
    active.sort();
    assert_eq!(active, vec![2]);
    let mut early = c.state.auctions.active_auctions(5);
    early.sort();
    assert_eq!(early, vec![1, 2]);
    assert!(c.state.auctions.active_auctions(200).is_empty());
}

#[test]
fn auctions_with_bidder_lists_participation() {
    let mut c = AuctionContract::new();
    assert!(c.create_auction("a".to_string(), 100, Some(X), 0).is_ok());
    assert!(c.create_auction("b".to_string(), 100, Some(X), 0).is_ok());
    assert_eq!(
        c.place_bid(1, 10, Some(X), 5),
        Ok(Response::BidPlaced { auction_id: 1, amount: 10 })
    );
    assert!(c.place_bid(2, 20, Some(Y), 5).is_ok());
    assert!(c.place_bid(2, 30, Some(X), 6).is_ok());
    let mut of_x = c.state.auctions.auctions_with_bidder(X);
    of_x.sort();
    assert_eq!(of_x, vec![1, 2]);
    assert_eq!(c.state.auctions.auctions_with_bidder(Y), vec![2]);
    assert!(c.state.auctions.auctions_with_bidder(99).is_empty());
}

#[test]
fn bidders_are_stored_as_a_set() {
    let mut c = AuctionContract::new();
    assert!(c.create_auction("a".to_string(), 100, Some(X), 0).is_ok());
    assert!(c.place_bid(1, 10, Some(X), 1).is_ok());
    assert!(c.place_bid(1, 20, Some(Y), 2).is_ok());
    assert!(c.place_bid(1, 30, Some(X), 3).is_ok());
    assert_eq!(c.state.auctions.get(1).unwrap().active_bidders, vec![X, Y]);
}

#[test]
fn notification_records_mirror_events() {
    let mut c = AuctionContract::new();
    let r = c.create_auction("vase".to_string(), 100, Some(X), 0).unwrap();
    let created = match r {
        Response::AuctionCreated { auction_id } => AuctionCreated {
            auction_id,
            item: "vase".to_string(),
        },
        _ => panic!("creation must answer with the new identifier"),
    };
    assert_eq!(created.auction_id, 1);
    assert!(c.place_bid(1, 10, Some(Y), 5).is_ok());
    let event = c.take_outbox().pop().unwrap();
    let note = match event {
        Message::BidPlaced { auction_id, bidder, amount } => BidPlaced { auction_id, bidder, amount },
    };
    assert_eq!(note, BidPlaced { auction_id: 1, bidder: Y, amount: 10 });
}

#[test]
fn view_exposes_fields_and_computed_values() {
    let mut c = AuctionContract::new();
    assert!(c.create_auction("vase".to_string(), 100, Some(X), 10).is_ok());
    assert!(c.place_bid(1, 10, Some(Y), 15).is_ok());
    let a = c.state.auctions.get(1).unwrap();
    let view = AuctionView::new(a, 30);
    assert_eq!(view.auction_id(), 1);
    assert_eq!(view.item(), "vase");
    assert_eq!(view.start_time(), 10);
    assert_eq!(view.duration(), 100);
    assert_eq!(view.highest_bid(), 10);
    assert_eq!(view.highest_bidder(), Some(Y));
    assert_eq!(view.active_bidders(), &vec![Y]);
    assert_eq!(view.status(), AuctionStatus::Active);
    assert_eq!(view.time_remaining(), 80);
    assert!(view.is_active());
    let lapsed = AuctionView::new(a, 110);
    assert_eq!(lapsed.time_remaining(), 0);
    assert!(!lapsed.is_active());
}
