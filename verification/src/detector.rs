//! The detector: which pools of a snapshot give an opportunity.

use crate::config::UNIT;
use crate::event_loop::{views, OpportunityView, PoolData, PoolView, TradeOpportunity};
use vstd::prelude::*;

verus! {

/// The rule that decides which pools the detector may consider at all.
pub trait AcceptancePredicate {
    /// Whether the rule accepts a pool.
    spec fn accepts(&self, pool: PoolView) -> bool;

    /// Decides on one pool.
    fn accept(&self, pool: &PoolData) -> (accepted: bool)
        ensures
            accepted == self.accepts(pool@),
    ;
}

/// The rule that accepts every pool.
#[derive(Debug, Clone, Copy)]
pub struct AcceptAll;

impl AcceptancePredicate for AcceptAll {
    open spec fn accepts(&self, pool: PoolView) -> bool {
        true
    }

    fn accept(&self, pool: &PoolData) -> (accepted: bool) {
        true
    }
}

/// The rule that accepts a pool when each side holds at least `floor`.
#[derive(Debug, Clone, Copy)]
pub struct MinLiquidity {
    pub floor: u64,
}

impl AcceptancePredicate for MinLiquidity {
    open spec fn accepts(&self, pool: PoolView) -> bool {
        pool.liquidity_a >= self.floor && pool.liquidity_b >= self.floor
    }

    fn accept(&self, pool: &PoolData) -> (accepted: bool) {
        pool.liquidity_a >= self.floor && pool.liquidity_b >= self.floor
    }
}

/// The estimate divides the price of a pool by this.
pub const PROFIT_DIVISOR: u64 = 1000;

/// The profit that a trade of one unit through the pool is estimated to
/// bring: a thousandth of its price, rounded down.
pub open spec fn estimate_profit(pool: PoolView) -> int {
    pool.price as int / PROFIT_DIVISOR as int
}

/// A pool gives an opportunity when both its sides hold something and its
/// estimated profit is above the threshold.
pub open spec fn is_profitable(pool: PoolView, threshold: int) -> bool {
    &&& pool.liquidity_a > 0
    &&& pool.liquidity_b > 0
    &&& estimate_profit(pool) > threshold
}

/// The opportunity that a pool gives at time `now`: one unit of its first
/// token for its price in the second.
pub open spec fn opportunity_for(pool: PoolView, now: int) -> OpportunityView {
    OpportunityView {
        pool_address: pool.pool_address,
        token_in: pool.token_a,
        token_out: pool.token_b,
        amount_in: UNIT as int,
        expected_amount_out: pool.price,
        expected_profit: estimate_profit(pool),
        timestamp: now,
    }
}

/// The opportunities of a snapshot: one for each pool that the rule accepts
/// and that is profitable, in the order of the snapshot.
pub open spec fn detect<P: AcceptancePredicate>(
    pools: Seq<PoolView>,
    predicate: P,
    threshold: int,
    now: int,
) -> Seq<OpportunityView>
    decreases pools.len(),
{
    if pools.len() == 0 {
        Seq::empty()
    } else {
        let earlier = detect(pools.drop_last(), predicate, threshold, now);
        let pool = pools.last();
        if predicate.accepts(pool) && is_profitable(pool, threshold) {
            earlier.push(opportunity_for(pool, now))
        } else {
            earlier
        }
    }
}

/// One detection over a snapshot of the pools, at time `now`.
pub fn detect_cycle<P: AcceptancePredicate>(
    snapshot: &Vec<PoolData>,
    predicate: &P,
    min_profit_threshold: i64,
    now: i64,
) -> (found: Vec<TradeOpportunity>)
    ensures
        views(found@) == detect(
            views(snapshot@),
            *predicate,
            min_profit_threshold as int,
            now as int,
        ),
{
    let ghost all = views(snapshot@);
    let mut found: Vec<TradeOpportunity> = Vec::new();
    let mut i: usize = 0;
    assert(all.subrange(0, 0) =~= Seq::<PoolView>::empty());
    assert(views(found@) =~= Seq::<OpportunityView>::empty());
    while i < snapshot.len()
        invariant
            i <= snapshot.len(),
            all == views(snapshot@),
            views(found@) == detect(
                all.subrange(0, i as int),
                *predicate,
                min_profit_threshold as int,
                now as int,
            ),
        decreases snapshot.len() - i,
    {
        let pool = &snapshot[i];
        let ghost before = views(found@);
        proof {
            let next = all.subrange(0, i + 1);
            assert(next.drop_last() =~= all.subrange(0, i as int));
            assert(next.last() == pool@);
        }
        if predicate.accept(pool) && pool.liquidity_a > 0 && pool.liquidity_b > 0 {
            let estimate: i64 = (pool.price / PROFIT_DIVISOR) as i64;
            if estimate > min_profit_threshold {
                let opportunity = TradeOpportunity {
                    pool_address: pool.pool_address.clone(),
                    token_in: pool.token_a.clone(),
                    token_out: pool.token_b.clone(),
                    amount_in: UNIT as i64,
                    expected_amount_out: pool.price,
                    expected_profit: estimate,
                    timestamp: now,
                };
                assert(opportunity@ == opportunity_for(pool@, now as int));
                found.push(opportunity);
                assert(views(found@) =~= before.push(opportunity@));
            }
        }
        i = i + 1;
    }
    assert(all.subrange(0, snapshot.len() as int) =~= all);
    found
}

/// An opportunity without the time at which it was found.
pub open spec fn without_time(opportunity: OpportunityView) -> OpportunityView {
    OpportunityView { timestamp: 0, ..opportunity }
}

/// Detection depends on nothing but its arguments: two runs over the same
/// snapshot with the same rule and threshold find the same opportunities,
/// whatever the order in which they are compared. Run at two different times,
/// they find opportunities that differ in their time stamp only.
pub proof fn lemma_detect_is_repeatable<P: AcceptancePredicate>(
    pools: Seq<PoolView>,
    predicate: P,
    threshold: int,
    first_time: int,
    second_time: int,
)
    ensures
        first_time == second_time ==> detect(pools, predicate, threshold, first_time).to_multiset()
            == detect(pools, predicate, threshold, second_time).to_multiset(),
        detect(pools, predicate, threshold, first_time).map_values(
            |o: OpportunityView| without_time(o),
        ) == detect(pools, predicate, threshold, second_time).map_values(
            |o: OpportunityView| without_time(o),
        ),
    decreases pools.len(),
{
    let strip = |o: OpportunityView| without_time(o);
    let first = detect(pools, predicate, threshold, first_time);
    let second = detect(pools, predicate, threshold, second_time);
    if pools.len() > 0 {
        lemma_detect_is_repeatable(pools.drop_last(), predicate, threshold, first_time, second_time);
        let earlier_first = detect(pools.drop_last(), predicate, threshold, first_time);
        let earlier_second = detect(pools.drop_last(), predicate, threshold, second_time);
        assert(earlier_first.map_values(strip) == earlier_second.map_values(strip));
        assert(earlier_first.len() == earlier_first.map_values(strip).len());
        assert(earlier_second.len() == earlier_second.map_values(strip).len());
        let pool = pools.last();
        if predicate.accepts(pool) && is_profitable(pool, threshold) {
            assert(first.map_values(strip) =~= earlier_first.map_values(strip).push(
                without_time(opportunity_for(pool, first_time)),
            ));
            assert(second.map_values(strip) =~= earlier_second.map_values(strip).push(
                without_time(opportunity_for(pool, second_time)),
            ));
        }
    } else {
        assert(first.map_values(strip) =~= second.map_values(strip));
    }
}

/// Every opportunity that detection finds comes from a pool of the snapshot
/// that the rule accepts, whose two sides hold something, and whose estimated
/// profit is above the threshold; and detection finds at most one opportunity
/// for each pool.
pub proof fn lemma_detect_sound<P: AcceptancePredicate>(
    pools: Seq<PoolView>,
    predicate: P,
    threshold: int,
    now: int,
)
    ensures
        detect(pools, predicate, threshold, now).len() <= pools.len(),
        forall|k: int|
            0 <= k < detect(pools, predicate, threshold, now).len() ==> exists|i: int|
                0 <= i < pools.len() && predicate.accepts(pools[i]) && is_profitable(
                    pools[i],
                    threshold,
                ) && #[trigger] detect(pools, predicate, threshold, now)[k] == opportunity_for(
                    pools[i],
                    now,
                ),
    decreases pools.len(),
{
    let found = detect(pools, predicate, threshold, now);
    if pools.len() > 0 {
        lemma_detect_sound(pools.drop_last(), predicate, threshold, now);
        let earlier = detect(pools.drop_last(), predicate, threshold, now);
        assert forall|k: int| 0 <= k < found.len() implies exists|i: int|
            0 <= i < pools.len() && predicate.accepts(pools[i]) && is_profitable(
                pools[i],
                threshold,
            ) && #[trigger] found[k] == opportunity_for(pools[i], now) by {
            if k < earlier.len() {
                assert(found[k] == earlier[k]);
                let i = choose|i: int|
                    0 <= i < pools.drop_last().len() && predicate.accepts(pools.drop_last()[i])
                        && is_profitable(pools.drop_last()[i], threshold) && earlier[k]
                        == opportunity_for(pools.drop_last()[i], now);
                assert(pools.drop_last()[i] == pools[i]);
            } else {
                let i = pools.len() - 1;
                assert(found[k] == opportunity_for(pools[i], now));
            }
        }
    }
}

/// Every pool of the snapshot that the rule accepts and that is profitable
/// has its opportunity among those that detection finds.
pub proof fn lemma_detect_complete<P: AcceptancePredicate>(
    pools: Seq<PoolView>,
    predicate: P,
    threshold: int,
    now: int,
    i: int,
)
    requires
        0 <= i < pools.len(),
        predicate.accepts(pools[i]),
        is_profitable(pools[i], threshold),
    ensures
        detect(pools, predicate, threshold, now).contains(opportunity_for(pools[i], now)),
    decreases pools.len(),
{
    let found = detect(pools, predicate, threshold, now);
    let earlier = detect(pools.drop_last(), predicate, threshold, now);
    if i == pools.len() - 1 {
        assert(found == earlier.push(opportunity_for(pools[i], now)));
        assert(found[found.len() - 1] == opportunity_for(pools[i], now));
    } else {
        lemma_detect_complete(pools.drop_last(), predicate, threshold, now, i);
        assert(pools.drop_last()[i] == pools[i]);
        let k = choose|k: int|
            0 <= k < earlier.len() && earlier[k] == opportunity_for(pools[i], now);
        assert(found[k] == earlier[k]);
    }
}

} // verus!
