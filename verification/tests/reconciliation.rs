//! The cross-replica reconciliation protocol: idempotence, convergence
//! under reordering, lazy expiry and terminal absorption, exercised on
//! concrete replicas.

use auction_core::auction::{AuctionError, AuctionStatus, Message, Response};
use auction_core::contract::AuctionContract;

const X: u64 = 7;
const Y: u64 = 8;

fn replica() -> AuctionContract {
    let mut c = AuctionContract::new();
    let r = c.create_auction("vase".to_string(), 100, Some(X), 0);
    assert_eq!(r, Ok(Response::AuctionCreated { auction_id: 1 }));
    c
}

fn snapshot(c: &AuctionContract) -> (u128, Option<u64>, Vec<u64>, AuctionStatus) {
    let a = c.state.auctions.get(1).unwrap();
    let mut bidders = a.active_bidders.clone();
    bidders.sort();
    (a.highest_bid, a.highest_bidder, bidders, a.status)
}

#[test]
fn scenario_out_of_order_delivery_converges() {
    let mut r1 = replica();
    let mut r2 = replica();
    assert_eq!(r1.process_bid_message(1, X, 10, 5), Ok(()));
    assert_eq!(r1.process_bid_message(1, Y, 8, 6), Ok(()));
    assert_eq!(r2.process_bid_message(1, Y, 8, 5), Ok(()));
    assert_eq!(r2.process_bid_message(1, X, 10, 6), Ok(()));
    assert_eq!(r1.state.auctions.get(1).unwrap().highest_bid, 10);
    assert_eq!(snapshot(&r1), snapshot(&r2));
}

#[test]
fn scenario_duplicate_delivery_is_idempotent() {
    let mut c = replica();
    assert_eq!(c.process_bid_message(1, X, 10, 5), Ok(()));
    let first = snapshot(&c);
    assert_eq!(c.process_bid_message(1, X, 10, 6), Ok(()));
    assert_eq!(snapshot(&c), first);
}

#[test]
fn event_for_unknown_auction_is_dropped() {
    let mut c = AuctionContract::new();
    assert_eq!(c.process_bid_message(9, X, 10, 5), Ok(()));
    assert!(c.state.auctions.get(9).is_none());
}

#[test]
fn losing_event_still_records_the_bidder() {
    let mut c = replica();
    assert_eq!(c.process_bid_message(1, X, 10, 5), Ok(()));
    assert_eq!(c.process_bid_message(1, Y, 8, 6), Ok(()));
    let a = c.state.auctions.get(1).unwrap();
    assert_eq!(a.highest_bid, 10);
    assert_eq!(a.highest_bidder, Some(X));
    assert!(a.active_bidders.contains(&Y));
}

#[test]
fn late_event_is_dropped_after_expiry() {
    let mut c = replica();
    assert_eq!(c.process_bid_message(1, X, 10, 100), Ok(()));
    let a = c.state.auctions.get(1).unwrap();
    assert_eq!(a.highest_bid, 0);
    assert_eq!(a.highest_bidder, None);
    assert!(a.active_bidders.is_empty());
    // stored status still says Active: expiry is evaluated lazily
    assert_eq!(a.status, AuctionStatus::Active);
}

#[test]
fn terminal_state_absorbs_all_bids() {
    let mut c = replica();
    assert_eq!(c.cancel_auction(1, Some(X)), Ok(()));
    let before = snapshot(&c);
    assert_eq!(c.process_bid_message(1, Y, 50, 5), Ok(()));
    assert_eq!(c.place_bid(1, 60, Some(Y), 5), Err(AuctionError::AuctionEnded));
    assert_eq!(snapshot(&c), before);
}

#[test]
fn highest_bid_never_decreases() {
    let mut c = replica();
    let deliveries: [(u64, u128); 6] = [(X, 10), (Y, 3), (X, 15), (Y, 15), (Y, 2), (X, 40)];
    let mut last: u128 = 0;
    for (bidder, amount) in deliveries {
        assert_eq!(c.process_bid_message(1, bidder, amount, 5), Ok(()));
        let a = c.state.auctions.get(1).unwrap();
        assert!(a.highest_bid >= last);
        last = a.highest_bid;
    }
    assert_eq!(last, 40);
}

#[test]
fn execute_message_applies_the_event() {
    let mut c = replica();
    c.execute_message(Message::BidPlaced { auction_id: 1, bidder: Y, amount: 9 }, 5);
    let a = c.state.auctions.get(1).unwrap();
    assert_eq!(a.highest_bid, 9);
    assert_eq!(a.highest_bidder, Some(Y));
}

#[test]
fn emitted_events_replay_on_another_replica() {
    let mut origin = replica();
    let mut peer = replica();
    assert!(origin.place_bid(1, 10, Some(X), 5).is_ok());
    assert!(origin.place_bid(1, 12, Some(Y), 6).is_ok());
    for m in origin.take_outbox() {
        peer.execute_message(m, 7);
    }
    assert_eq!(snapshot(&origin), snapshot(&peer));
}
