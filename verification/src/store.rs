//! The auction store: a keyed entity repository. Entities are keyed by
//! their own `auction_id`; operations on distinct identifiers are
//! independent. The store is viewed as a mathematical map from identifier
//! to auction model.

use vstd::prelude::*;

use crate::auction::{
    with_bid, with_bidder, Auction, AuctionError, AuctionModel, AuctionStatus,
};

verus! {

/// The map a sequence of entities denotes, keyed by `auction_id`; a later
/// entry with the same identifier would win, though the store never keeps
/// two entries with one identifier.
spec fn map_of(s: Seq<Auction>) -> Map<u64, AuctionModel>
    decreases s.len(),
{
    if s.len() == 0 {
        Map::empty()
    } else {
        map_of(s.drop_last()).insert(s.last().auction_id, s.last()@)
    }
}

/// No two entries share an identifier.
spec fn unique_ids(s: Seq<Auction>) -> bool {
    forall|i: int, j: int|
        0 <= i < j < s.len() ==> s[i].auction_id != s[j].auction_id
}

/// A keyed repository of auction entities.
pub struct AuctionStore {
    entries: Vec<Auction>,
}

impl View for AuctionStore {
    type V = Map<u64, AuctionModel>;

    closed spec fn view(&self) -> Map<u64, AuctionModel> {
        map_of(self.entries@)
    }
}

/// The keys of the denoted map are exactly the identifiers in `s`, and under
/// unique identifiers each entry is the value of its own key.
proof fn lemma_map_of_index(s: Seq<Auction>)
    requires
        unique_ids(s),
    ensures
        forall|k: u64|
            map_of(s).contains_key(k) <==> exists|i: int|
                0 <= i < s.len() && #[trigger] s[i].auction_id == k,
        forall|i: int|
            0 <= i < s.len() ==> map_of(s).contains_key(#[trigger] s[i].auction_id)
                && map_of(s)[s[i].auction_id] == s[i]@,
    decreases s.len(),
{
    if s.len() > 0 {
        let d = s.drop_last();
        lemma_map_of_index(d);
        assert(map_of(s) == map_of(d).insert(s.last().auction_id, s.last()@));
        assert forall|k: u64| map_of(s).contains_key(k) implies exists|i: int|
            0 <= i < s.len() && #[trigger] s[i].auction_id == k by {
            if k == s.last().auction_id {
                assert(s[s.len() - 1].auction_id == k);
            } else {
                assert(map_of(d).contains_key(k));
                let i = choose|i: int| 0 <= i < d.len() && #[trigger] d[i].auction_id == k;
                assert(d[i] == s[i]);
                assert(s[i].auction_id == k);
            }
        }
        assert forall|i: int| 0 <= i < s.len() implies map_of(s).contains_key(
            #[trigger] s[i].auction_id,
        ) && map_of(s)[s[i].auction_id] == s[i]@ by {
            if i < s.len() - 1 {
                assert(s.drop_last()[i] == s[i]);
                assert(s[i].auction_id != s.last().auction_id);
            }
        }
    }
}

/// Replacing the entry at one position by an entity with the same
/// identifier updates the denoted map at that key alone.
proof fn lemma_map_of_update(s: Seq<Auction>, i: int, a: Auction)
    requires
        unique_ids(s),
        0 <= i < s.len(),
        a.auction_id == s[i].auction_id,
    ensures
        map_of(s.update(i, a)) =~= map_of(s).insert(a.auction_id, a@),
    decreases s.len(),
{
    let t = s.update(i, a);
    assert(t.len() == s.len());
    if i == s.len() - 1 {
        assert(t.drop_last() =~= s.drop_last());
        assert(t.last() == a);
    } else {
        lemma_map_of_update(s.drop_last(), i, a);
        assert(t.drop_last() =~= s.drop_last().update(i, a));
        assert(t.last() == s.last());
        assert(s.last().auction_id != a.auction_id);
    }
}

/// Membership in a pushed sequence: the old members plus the new element.
proof fn lemma_push_contains(s: Seq<u64>, v: u64)
    ensures
        forall|x: u64| #[trigger] s.push(v).contains(x) <==> s.contains(x) || x == v,
{
    assert forall|x: u64| #[trigger] s.push(v).contains(x) implies s.contains(x) || x == v by {
        let i = choose|i: int| 0 <= i < s.push(v).len() && s.push(v)[i] == x;
        if i < s.len() {
            assert(s[i] == x);
        }
    }
    assert forall|x: u64| s.contains(x) || x == v implies #[trigger] s.push(v).contains(x) by {
        if s.contains(x) {
            let i = choose|i: int| 0 <= i < s.len() && s[i] == x;
            assert(s.push(v)[i] == x);
        } else {
            assert(s.push(v)[s.len() as int] == x);
        }
    }
}

/// A linear scan over `v` looking for `x`.
fn seq_contains(v: &Vec<u64>, x: u64) -> (r: bool)
    ensures
        r == v@.contains(x),
{
    let mut j: usize = 0;
    while j < v.len()
        invariant
            j <= v@.len(),
            forall|i: int| 0 <= i < j ==> v@[i] != x,
        decreases v@.len() - j,
    {
        if v[j] == x {
            return true;
        }
        j += 1;
    }
    false
}

impl AuctionStore {
    /// All stored entities are well formed and identifiers are unique.
    pub closed spec fn wf(&self) -> bool {
        &&& unique_ids(self.entries@)
        &&& forall|i: int|
            0 <= i < self.entries@.len() ==> (#[trigger] self.entries@[i]@).wf()
    }

    /// An empty store.
    pub fn new() -> (r: AuctionStore)
        ensures
            r.wf(),
            r@ == Map::<u64, AuctionModel>::empty(),
    {
        AuctionStore { entries: Vec::new() }
    }

    /// Position of the entity with the given identifier, if any.
    fn index_of(&self, auction_id: u64) -> (r: Option<usize>)
        ensures
            match r {
                Some(i) => i < self.entries@.len()
                    && self.entries@[i as int].auction_id == auction_id,
                None => forall|i: int|
                    0 <= i < self.entries@.len()
                        ==> self.entries@[i].auction_id != auction_id,
            },
    {
        let mut j: usize = 0;
        while j < self.entries.len()
            invariant
                j <= self.entries@.len(),
                forall|i: int| 0 <= i < j ==> self.entries@[i].auction_id != auction_id,
            decreases self.entries@.len() - j,
        {
            if self.entries[j].auction_id == auction_id {
                return Some(j);
            }
            j += 1;
        }
        None
    }

    /// Fetch the entity with the given identifier.
    pub fn get(&self, auction_id: u64) -> (r: Option<&Auction>)
        requires
            self.wf(),
        ensures
            match r {
                Some(a) => self@.contains_key(auction_id) && a@ == self@[auction_id]
                    && a@.wf() && a.auction_id == auction_id,
                None => !self@.contains_key(auction_id),
            },
    {
        proof {
            lemma_map_of_index(self.entries@);
        }
        match self.index_of(auction_id) {
            Some(i) => Some(&self.entries[i]),
            None => None,
        }
    }

    /// Add a new entity under its own identifier; refused when the
    /// identifier is already present.
    pub fn create(&mut self, auction: Auction) -> (r: Result<(), AuctionError>)
        requires
            old(self).wf(),
            auction@.wf(),
        ensures
            final(self).wf(),
            match r {
                Ok(()) => !old(self)@.contains_key(auction.auction_id)
                    && final(self)@ == old(self)@.insert(auction.auction_id, auction@),
                Err(e) => e == AuctionError::DuplicateId
                    && old(self)@.contains_key(auction.auction_id)
                    && *final(self) == *old(self),
            },
    {
        proof {
            lemma_map_of_index(self.entries@);
        }
        match self.index_of(auction.auction_id) {
            Some(_) => Err(AuctionError::DuplicateId),
            None => {
                self.entries.push(auction);
                proof {
                    assert(self.entries@.drop_last() =~= old(self).entries@);
                }
                Ok(())
            },
        }
    }

    /// Unconditional replace: store the entity under its own identifier,
    /// overwriting any entity already there.
    pub fn put(&mut self, auction: Auction) -> (r: ())
        requires
            old(self).wf(),
            auction@.wf(),
        ensures
            final(self).wf(),
            final(self)@ == old(self)@.insert(auction.auction_id, auction@),
    {
        proof {
            lemma_map_of_index(self.entries@);
        }
        match self.index_of(auction.auction_id) {
            Some(i) => {
                let ghost s = self.entries@;
                let id = auction.auction_id;
                self.entries.remove(i);
                self.entries.insert(i, auction);
                proof {
                    assert(self.entries@ =~= s.update(i as int, auction));
                    lemma_map_of_update(s, i as int, auction);
                }
            },
            None => {
                self.entries.push(auction);
                proof {
                    assert(self.entries@.drop_last() =~= old(self).entries@);
                }
            },
        }
    }

    /// Record an accepted bid on the stored entity: the highest bid and
    /// bidder are replaced and the bidder joins the set of active bidders.
    pub fn record_bid(&mut self, auction_id: u64, bidder: u64, amount: u128) -> (r: ())
        requires
            old(self).wf(),
            old(self)@.contains_key(auction_id),
            amount > old(self)@[auction_id].highest_bid,
        ensures
            final(self).wf(),
            final(self)@ == old(self)@.insert(
                auction_id,
                with_bid(old(self)@[auction_id], bidder, amount),
            ),
    {
        proof {
            lemma_map_of_index(self.entries@);
        }
        let maybe_i = self.index_of(auction_id);
        let i = maybe_i.unwrap();
        let ghost s = self.entries@;
        let mut a = self.entries.remove(i);
        a.highest_bid = amount;
        a.highest_bidder = Some(bidder);
        if !seq_contains(&a.active_bidders, bidder) {
            a.active_bidders.push(bidder);
        }
        proof {
            assert(a@ =~= with_bid(s[i as int]@, bidder, amount));
        }
        self.entries.insert(i, a);
        proof {
            assert(self.entries@ =~= s.update(i as int, a));
            lemma_map_of_update(s, i as int, a);
        }
    }

    /// Record only that an identity took part in the bidding: the bidder
    /// joins the set of active bidders, everything else stays.
    pub fn record_bidder(&mut self, auction_id: u64, bidder: u64) -> (r: ())
        requires
            old(self).wf(),
            old(self)@.contains_key(auction_id),
        ensures
            final(self).wf(),
            final(self)@ == old(self)@.insert(
                auction_id,
                with_bidder(old(self)@[auction_id], bidder),
            ),
    {
        proof {
            lemma_map_of_index(self.entries@);
        }
        let maybe_i = self.index_of(auction_id);
        let i = maybe_i.unwrap();
        let ghost s = self.entries@;
        let mut a = self.entries.remove(i);
        if !seq_contains(&a.active_bidders, bidder) {
            a.active_bidders.push(bidder);
        }
        proof {
            assert(a@ =~= with_bidder(s[i as int]@, bidder));
        }
        self.entries.insert(i, a);
        proof {
            assert(self.entries@ =~= s.update(i as int, a));
            lemma_map_of_update(s, i as int, a);
        }
    }

    /// Identifiers of the auctions that may still take bids at the
    /// caller-supplied timestamp. Stored status alone is not trusted: the
    /// time check runs against `now`, since a lapsed status may not have
    /// been written back yet.
    pub fn active_auctions(&self, now: u64) -> (r: Vec<u64>)
        requires
            self.wf(),
        ensures
            forall|k: u64|
                #[trigger] r@.contains(k) <==> self@.contains_key(k)
                    && self@[k].is_active_at(now),
            forall|p: int, q: int| 0 <= p < q < r@.len() ==> r@[p] != r@[q],
    {
        proof {
            lemma_map_of_index(self.entries@);
        }
        let mut r: Vec<u64> = Vec::new();
        let mut j: usize = 0;
        while j < self.entries.len()
            invariant
                self.wf(),
                j <= self.entries@.len(),
                forall|k: u64|
                    #[trigger] r@.contains(k) <==> exists|i: int|
                        0 <= i < j && #[trigger] self.entries@[i].auction_id == k
                            && self.entries@[i]@.is_active_at(now),
                forall|p: int, q: int| 0 <= p < q < r@.len() ==> r@[p] != r@[q],
            decreases self.entries@.len() - j,
        {
            let ghost prev = r@;
            let entry = &self.entries[j];
            if entry.is_active(now) {
                r.push(entry.auction_id);
                proof {
                    lemma_push_contains(prev, entry.auction_id);
                    assert(!prev.contains(entry.auction_id));
                }
            }
            j += 1;
        }
        proof {
            assert forall|k: u64| #[trigger] r@.contains(k) implies self@.contains_key(k)
                && self@[k].is_active_at(now) by {
                let i = choose|i: int|
                    0 <= i < self.entries@.len() && #[trigger] self.entries@[i].auction_id == k
                        && self.entries@[i]@.is_active_at(now);
                lemma_map_of_index(self.entries@);
            }
            assert forall|k: u64|
                self@.contains_key(k) && self@[k].is_active_at(now) implies #[trigger] r@.contains(
                k,
            ) by {
                lemma_map_of_index(self.entries@);
                let i = choose|i: int|
                    0 <= i < self.entries@.len() && #[trigger] self.entries@[i].auction_id == k;
            }
        }
        r
    }

    /// Identifiers of the auctions on which the given identity has ever
    /// placed an accepted bid.
    pub fn auctions_with_bidder(&self, bidder: u64) -> (r: Vec<u64>)
        requires
            self.wf(),
        ensures
            forall|k: u64|
                #[trigger] r@.contains(k) <==> self@.contains_key(k)
                    && self@[k].active_bidders.contains(bidder),
            forall|p: int, q: int| 0 <= p < q < r@.len() ==> r@[p] != r@[q],
    {
        proof {
            lemma_map_of_index(self.entries@);
        }
        let mut r: Vec<u64> = Vec::new();
        let mut j: usize = 0;
        while j < self.entries.len()
            invariant
                self.wf(),
                j <= self.entries@.len(),
                forall|k: u64|
                    #[trigger] r@.contains(k) <==> exists|i: int|
                        0 <= i < j && #[trigger] self.entries@[i].auction_id == k
                            && self.entries@[i]@.active_bidders.contains(bidder),
                forall|p: int, q: int| 0 <= p < q < r@.len() ==> r@[p] != r@[q],
            decreases self.entries@.len() - j,
        {
            let ghost prev = r@;
            let entry = &self.entries[j];
            if seq_contains(&entry.active_bidders, bidder) {
                r.push(entry.auction_id);
                proof {
                    lemma_push_contains(prev, entry.auction_id);
                    assert(!prev.contains(entry.auction_id));
                }
            }
            j += 1;
        }
        proof {
            assert forall|k: u64| #[trigger] r@.contains(k) implies self@.contains_key(k)
                && self@[k].active_bidders.contains(bidder) by {
                let i = choose|i: int|
                    0 <= i < self.entries@.len() && #[trigger] self.entries@[i].auction_id == k
                        && self.entries@[i]@.active_bidders.contains(bidder);
                lemma_map_of_index(self.entries@);
            }
            assert forall|k: u64|
                self@.contains_key(k) && self@[k].active_bidders.contains(bidder)
                implies #[trigger] r@.contains(k) by {
                lemma_map_of_index(self.entries@);
                let i = choose|i: int|
                    0 <= i < self.entries@.len() && #[trigger] self.entries@[i].auction_id == k;
            }
        }
        r
    }

    /// Move the stored entity to the `Cancelled` terminal status.
    pub fn mark_cancelled(&mut self, auction_id: u64) -> (r: ())
        requires
            old(self).wf(),
            old(self)@.contains_key(auction_id),
        ensures
            final(self).wf(),
            final(self)@ == old(self)@.insert(
                auction_id,
                AuctionModel { status: AuctionStatus::Cancelled, ..old(self)@[auction_id] },
            ),
    {
        proof {
            lemma_map_of_index(self.entries@);
        }
        let maybe_i = self.index_of(auction_id);
        let i = maybe_i.unwrap();
        let ghost s = self.entries@;
        let mut a = self.entries.remove(i);
        a.status = AuctionStatus::Cancelled;
        proof {
            assert(a@ =~= (AuctionModel { status: AuctionStatus::Cancelled, ..s[i as int]@ }));
        }
        self.entries.insert(i, a);
        proof {
            assert(self.entries@ =~= s.update(i as int, a));
            lemma_map_of_update(s, i as int, a);
        }
    }
}

} // verus!
