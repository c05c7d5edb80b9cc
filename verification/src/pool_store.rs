//! The two shared stores: the latest state of every pool, and the
//! opportunities of the latest detection. Each is read and written as a whole.

use crate::event_loop::{
    copy_opportunities, copy_pools, views, OpportunityView, PoolData, PoolView, TradeOpportunity,
};
use vstd::prelude::*;

verus! {

/// No two pools of the list have the same address.
pub open spec fn distinct_ids(pools: Seq<PoolView>) -> bool {
    forall|i: int, j: int|
        0 <= i < j < pools.len() ==> (#[trigger] pools[i]).pool_address != (
        #[trigger] pools[j]).pool_address
}

/// Pool `j` of `incoming` is older than pool `i` of `stored`, which has the
/// same address.
pub open spec fn stale_pair(
    stored: Seq<PoolView>,
    incoming: Seq<PoolView>,
    i: int,
    j: int,
) -> bool {
    &&& 0 <= i < stored.len()
    &&& 0 <= j < incoming.len()
    &&& stored[i].pool_address == incoming[j].pool_address
    &&& incoming[j].last_updated < stored[i].last_updated
}

/// Writing `incoming` over `stored` would take the time of the last update of
/// some pool back.
pub open spec fn regresses(stored: Seq<PoolView>, incoming: Seq<PoolView>) -> bool {
    exists|i: int, j: int| stale_pair(stored, incoming, i, j)
}

/// Why a list of pools was not written to the store.
#[derive(Debug, Clone, Copy, PartialEq, Eq, Structural)]
pub enum StoreError {
    /// Two pools of the list have the same address.
    DuplicatePool,
    /// A pool of the list is older than the state stored for the same address.
    StaleUpdate,
}

/// Tells whether two pools of the list have the same address.
pub fn has_duplicate_ids(pools: &Vec<PoolData>) -> (found: bool)
    ensures
        found == !distinct_ids(views(pools@)),
{
    let ghost all = views(pools@);
    let mut j: usize = 0;
    while j < pools.len()
        invariant
            j <= pools.len(),
            all == views(pools@),
            forall|a: int, b: int|
                0 <= a < b < j ==> (#[trigger] all[a]).pool_address != (
                #[trigger] all[b]).pool_address,
        decreases pools.len() - j,
    {
        let mut i: usize = 0;
        while i < j
            invariant
                i <= j < pools.len(),
                all == views(pools@),
                forall|a: int|
                    0 <= a < i ==> (#[trigger] all[a]).pool_address
                        != all[j as int].pool_address,
            decreases j - i,
        {
            if pools[i].pool_address == pools[j].pool_address {
                assert(all[i as int].pool_address == all[j as int].pool_address);
                return true;
            }
            i = i + 1;
        }
        j = j + 1;
    }
    false
}

/// Tells whether a pool of `incoming` is older than the pool of `stored` with
/// the same address.
pub fn is_stale_against(stored: &Vec<PoolData>, incoming: &Vec<PoolData>) -> (stale: bool)
    ensures
        stale == regresses(views(stored@), views(incoming@)),
{
    let ghost old_views = views(stored@);
    let ghost new_views = views(incoming@);
    let mut j: usize = 0;
    while j < incoming.len()
        invariant
            j <= incoming.len(),
            old_views == views(stored@),
            new_views == views(incoming@),
            forall|a: int, b: int| 0 <= b < j ==> !stale_pair(old_views, new_views, a, b),
        decreases incoming.len() - j,
    {
        let mut i: usize = 0;
        while i < stored.len()
            invariant
                i <= stored.len(),
                j < incoming.len(),
                old_views == views(stored@),
                new_views == views(incoming@),
                forall|a: int| 0 <= a < i ==> !stale_pair(old_views, new_views, a, j as int),
            decreases stored.len() - i,
        {
            if stored[i].pool_address == incoming[j].pool_address && incoming[j].last_updated
                < stored[i].last_updated {
                assert(stale_pair(old_views, new_views, i as int, j as int));
                return true;
            }
            i = i + 1;
        }
        j = j + 1;
    }
    false
}

/// The shared record of the latest state of every pool. It is read and
/// written as a whole, and never shows two pools with the same address.
pub struct PoolStore {
    pools: Vec<PoolData>,
}

impl View for PoolStore {
    type V = Seq<PoolView>;

    closed spec fn view(&self) -> Seq<PoolView> {
        views(self.pools@)
    }
}

impl PoolStore {
    #[verifier::type_invariant]
    spec fn unique_addresses(self) -> bool {
        distinct_ids(views(self.pools@))
    }

    /// What a write of `incoming` over `stored` leaves in the store: `incoming`
    /// when its addresses are distinct and it takes no pool back in time,
    /// else `stored`.
    pub open spec fn after_upsert(stored: Seq<PoolView>, incoming: Seq<PoolView>) -> Seq<PoolView> {
        if distinct_ids(incoming) && !regresses(stored, incoming) {
            incoming
        } else {
            stored
        }
    }

    /// An empty store.
    pub fn new() -> (store: Self)
        ensures
            store@ == Seq::<PoolView>::empty(),
    {
        let store = PoolStore { pools: Vec::new() };
        assert(store@ =~= Seq::<PoolView>::empty());
        store
    }

    /// Number of pools in the store.
    pub fn len(&self) -> (n: usize)
        ensures
            n == self@.len(),
    {
        self.pools.len()
    }

    /// A copy of all the pools as they are now.
    pub fn read(&self) -> (snapshot: Vec<PoolData>)
        ensures
            views(snapshot@) == self@,
            distinct_ids(self@),
    {
        proof {
            use_type_invariant(self);
        }
        copy_pools(&self.pools)
    }

    /// Replaces the whole content of the store with `pools`, in one step.
    /// A list that names a pool twice, or that holds a pool older than the
    /// state stored for it, is refused and leaves the store as it was.
    pub fn upsert_all(&mut self, pools: Vec<PoolData>) -> (r: Result<(), StoreError>)
        ensures
            final(self)@ == Self::after_upsert(old(self)@, views(pools@)),
            r is Ok <==> distinct_ids(views(pools@)) && !regresses(old(self)@, views(pools@)),
            r == Err::<(), StoreError>(StoreError::DuplicatePool) <==> !distinct_ids(views(pools@)),
            r is Ok ==> final(self)@ == views(pools@),
            r is Err ==> final(self)@ == old(self)@,
    {
        if has_duplicate_ids(&pools) {
            return Err(StoreError::DuplicatePool);
        }
        if is_stale_against(&self.pools, &pools) {
            return Err(StoreError::StaleUpdate);
        }
        self.pools = pools;
        Ok(())
    }

    /// Empties the store, so that the next write is held against nothing.
    pub fn reset(&mut self)
        ensures
            final(self)@ == Seq::<PoolView>::empty(),
    {
        self.pools = Vec::new();
        assert(self@ =~= Seq::<PoolView>::empty());
    }
}

/// The shared record of the opportunities found by the latest detection.
/// It is read and replaced as a whole.
pub struct OpportunityStore {
    opportunities: Vec<TradeOpportunity>,
}

impl View for OpportunityStore {
    type V = Seq<OpportunityView>;

    closed spec fn view(&self) -> Seq<OpportunityView> {
        views(self.opportunities@)
    }
}

impl OpportunityStore {
    /// An empty store.
    pub fn new() -> (store: Self)
        ensures
            store@ == Seq::<OpportunityView>::empty(),
    {
        let store = OpportunityStore { opportunities: Vec::new() };
        assert(store@ =~= Seq::<OpportunityView>::empty());
        store
    }

    /// Number of opportunities in the store.
    pub fn len(&self) -> (n: usize)
        ensures
            n == self@.len(),
    {
        self.opportunities.len()
    }

    /// A copy of all the opportunities as they are now.
    pub fn read(&self) -> (snapshot: Vec<TradeOpportunity>)
        ensures
            views(snapshot@) == self@,
    {
        copy_opportunities(&self.opportunities)
    }

    /// Replaces the whole content of the store with `found`, in one step:
    /// nothing of an earlier detection stays.
    pub fn replace(&mut self, found: Vec<TradeOpportunity>)
        ensures
            final(self)@ == views(found@),
    {
        self.opportunities = found;
    }
}

impl PoolStore {
    /// What the store holds after the writes of `writes`, made one after the
    /// other on a store that held `stored`.
    pub open spec fn after_writes(
        stored: Seq<PoolView>,
        writes: Seq<Seq<PoolView>>,
    ) -> Seq<PoolView>
        decreases writes.len(),
    {
        if writes.len() == 0 {
            stored
        } else {
            Self::after_upsert(Self::after_writes(stored, writes.drop_last()), writes.last())
        }
    }

    /// Whatever writes were made, in whatever order, the store holds what it
    /// held at first or the whole list of exactly one of the writes, never a
    /// mix of two; and if no two pools shared an address at first, none do
    /// after.
    pub proof fn lemma_store_holds_one_whole_write(stored: Seq<PoolView>, writes: Seq<Seq<PoolView>>)
        ensures
            Self::after_writes(stored, writes) == stored || exists|k: int|
                0 <= k < writes.len() && Self::after_writes(stored, writes) == #[trigger] writes[k],
            distinct_ids(stored) ==> distinct_ids(Self::after_writes(stored, writes)),
        decreases writes.len(),
    {
        if writes.len() > 0 {
            let earlier = writes.drop_last();
            Self::lemma_store_holds_one_whole_write(stored, earlier);
            let before = Self::after_writes(stored, earlier);
            let after = Self::after_writes(stored, writes);
            if after == writes.last() {
                assert(after == writes[writes.len() - 1]);
            } else {
                assert(after == before);
                if before != stored {
                    let k = choose|k: int|
                        0 <= k < earlier.len() && before == #[trigger] earlier[k];
                    assert(earlier[k] == writes[k]);
                }
            }
        }
    }

    /// A write that is accepted is what the next read returns; a write that
    /// is refused changes nothing; and a list that does not name a pool
    /// twice is always accepted by a store that was just emptied.
    pub proof fn lemma_write_then_read(stored: Seq<PoolView>, incoming: Seq<PoolView>)
        ensures
            distinct_ids(incoming) && !regresses(stored, incoming) ==> Self::after_upsert(
                stored,
                incoming,
            ) == incoming,
            !distinct_ids(incoming) || regresses(stored, incoming) ==> Self::after_upsert(
                stored,
                incoming,
            ) == stored,
            distinct_ids(incoming) ==> Self::after_upsert(Seq::empty(), incoming) == incoming,
    {
        assert(!regresses(Seq::<PoolView>::empty(), incoming)) by {
            assert forall|i: int, j: int|
                !stale_pair(Seq::<PoolView>::empty(), incoming, i, j) by {}
        }
    }
}

} // verus!
