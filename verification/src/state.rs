//! Replica state: the auction repository together with the identifier
//! allocator. Identifiers come from an atomically advanced counter, never
//! from a count of current entries, so two creations can never collide.

use vstd::prelude::*;

use crate::store::AuctionStore;

verus! {

/// The persisted state of one replica.
pub struct AuctionState {
    pub auctions: AuctionStore,
    /// Last identifier handed out; the next auction gets `next_id + 1`.
    pub next_id: u64,
}

impl AuctionState {
    /// The repository is well formed and every stored identifier has
    /// already been handed out by the allocator.
    pub open spec fn wf(&self) -> bool {
        &&& self.auctions.wf()
        &&& forall|k: u64| #[trigger] self.auctions@.contains_key(k) ==> k <= self.next_id
    }

    /// A fresh replica: no auctions, no identifiers handed out.
    pub fn new() -> (r: AuctionState)
        ensures
            r.wf(),
            r.auctions@ == Map::<u64, crate::auction::AuctionModel>::empty(),
            r.next_id == 0,
    {
        AuctionState { auctions: AuctionStore::new(), next_id: 0 }
    }
}

} // verus!
