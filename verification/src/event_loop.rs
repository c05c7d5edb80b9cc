//! Pool state and opportunities, the sources that are polled, and the loop
//! that owns the stores.

use crate::config::Config;
use crate::detector::{detect, detect_cycle, AcceptAll, AcceptancePredicate};
use crate::pool_store::{distinct_ids, regresses, OpportunityStore, PoolStore, StoreError};
use vstd::prelude::*;

verus! {

/// The latest known state of one liquidity pool. Quantities are in base units.
#[derive(Debug, PartialEq, Eq)]
pub struct PoolData {
    pub pool_address: String,
    pub token_a: String,
    pub token_b: String,
    pub liquidity_a: u64,
    pub liquidity_b: u64,
    pub price: u64,
    pub last_updated: i64,
}

/// What a `PoolData` holds, as plain values.
pub struct PoolView {
    pub pool_address: Seq<char>,
    pub token_a: Seq<char>,
    pub token_b: Seq<char>,
    pub liquidity_a: nat,
    pub liquidity_b: nat,
    pub price: nat,
    pub last_updated: int,
}

impl View for PoolData {
    type V = PoolView;

    open spec fn view(&self) -> PoolView {
        PoolView {
            pool_address: self.pool_address@,
            token_a: self.token_a@,
            token_b: self.token_b@,
            liquidity_a: self.liquidity_a as nat,
            liquidity_b: self.liquidity_b as nat,
            price: self.price as nat,
            last_updated: self.last_updated as int,
        }
    }
}

impl Clone for PoolData {
    fn clone(&self) -> (copy: Self)
        ensures
            copy == *self,
    {
        PoolData {
            pool_address: self.pool_address.clone(),
            token_a: self.token_a.clone(),
            token_b: self.token_b.clone(),
            liquidity_a: self.liquidity_a,
            liquidity_b: self.liquidity_b,
            price: self.price,
            last_updated: self.last_updated,
        }
    }
}

/// What a scoring model is told of a pool. Quantities are in base units.
#[derive(Debug, PartialEq, Eq)]
pub struct LiquidityPool {
    pub address: String,
    pub token_a: String,
    pub token_b: String,
    pub liquidity: u64,
    pub volume_24h: u64,
    pub is_new: bool,
}

/// A trade that looked profitable when it was detected. Amounts are in base
/// units; it is a hint and is checked again before it is executed.
#[derive(Debug, PartialEq, Eq)]
pub struct TradeOpportunity {
    pub pool_address: String,
    pub token_in: String,
    pub token_out: String,
    pub amount_in: i64,
    pub expected_amount_out: u64,
    pub expected_profit: i64,
    pub timestamp: i64,
}

/// What a `TradeOpportunity` holds, as plain values.
pub struct OpportunityView {
    pub pool_address: Seq<char>,
    pub token_in: Seq<char>,
    pub token_out: Seq<char>,
    pub amount_in: int,
    pub expected_amount_out: nat,
    pub expected_profit: int,
    pub timestamp: int,
}

impl View for TradeOpportunity {
    type V = OpportunityView;

    open spec fn view(&self) -> OpportunityView {
        OpportunityView {
            pool_address: self.pool_address@,
            token_in: self.token_in@,
            token_out: self.token_out@,
            amount_in: self.amount_in as int,
            expected_amount_out: self.expected_amount_out as nat,
            expected_profit: self.expected_profit as int,
            timestamp: self.timestamp as int,
        }
    }
}

impl Clone for TradeOpportunity {
    fn clone(&self) -> (copy: Self)
        ensures
            copy == *self,
    {
        TradeOpportunity {
            pool_address: self.pool_address.clone(),
            token_in: self.token_in.clone(),
            token_out: self.token_out.clone(),
            amount_in: self.amount_in,
            expected_amount_out: self.expected_amount_out,
            expected_profit: self.expected_profit,
            timestamp: self.timestamp,
        }
    }
}

/// The views of the items of a sequence, in the same order.
pub open spec fn views<T: View>(items: Seq<T>) -> Seq<T::V> {
    items.map_values(|item: T| item@)
}

/// A copy of a list of pools.
pub fn copy_pools(pools: &Vec<PoolData>) -> (copy: Vec<PoolData>)
    ensures
        copy@ == pools@,
{
    let mut copy: Vec<PoolData> = Vec::new();
    let mut i: usize = 0;
    while i < pools.len()
        invariant
            i <= pools.len(),
            copy@ == pools@.subrange(0, i as int),
        decreases pools.len() - i,
    {
        copy.push(pools[i].clone());
        assert(copy@ =~= pools@.subrange(0, i + 1));
        i = i + 1;
    }
    assert(pools@.subrange(0, pools.len() as int) =~= pools@);
    copy
}

/// A copy of a list of opportunities.
pub fn copy_opportunities(opportunities: &Vec<TradeOpportunity>) -> (copy: Vec<TradeOpportunity>)
    ensures
        copy@ == opportunities@,
{
    let mut copy: Vec<TradeOpportunity> = Vec::new();
    let mut i: usize = 0;
    while i < opportunities.len()
        invariant
            i <= opportunities.len(),
            copy@ == opportunities@.subrange(0, i as int),
        decreases opportunities.len() - i,
    {
        copy.push(opportunities[i].clone());
        assert(copy@ =~= opportunities@.subrange(0, i + 1));
        i = i + 1;
    }
    assert(opportunities@.subrange(0, opportunities.len() as int) =~= opportunities@);
    copy
}

/// The time of Unix now, in whole seconds: `chrono::Utc::now()`, then
/// `DateTime::timestamp` on what it returns. Nothing is claimed of the
/// number, which depends on the clock of the machine; `Utc::now` panics if
/// that clock stands before 1970.
#[verifier::external_body]
fn unix_time_now() -> (seconds: i64) {
    chrono::Utc::now().timestamp()
}

/// An outside source of pool state.
#[derive(Debug, Clone, Copy, PartialEq, Eq, Structural)]
pub enum DataSource {
    /// Polled for a full list of pools.
    Moralis,
    /// Pushes its updates; nothing is asked of it.
    Helius,
}

/// Seconds between two detections.
pub const DETECTION_INTERVAL_SECS: u64 = 1;

/// What to ask of a source: the address to get, and the header that carries
/// the key.
#[derive(Debug, PartialEq, Eq)]
pub struct FetchRequest {
    pub url: String,
    pub header_name: String,
    pub header_value: String,
}

impl DataSource {
    /// Seconds that the poller of a source waits between two cycles.
    pub open spec fn interval_secs(self) -> nat {
        match self {
            DataSource::Moralis => 5,
            DataSource::Helius => 10,
        }
    }

    /// Seconds that the poller of this source waits between two cycles.
    pub fn poll_interval_secs(&self) -> (seconds: u64)
        ensures
            seconds == self.interval_secs(),
    {
        match self {
            DataSource::Moralis => 5,
            DataSource::Helius => 10,
        }
    }

    /// The request that one cycle makes of this source, if it makes one.
    pub fn request(&self, config: &Config) -> (r: Option<FetchRequest>)
        ensures
            *self == DataSource::Helius ==> r is None,
            *self == DataSource::Moralis ==> r is Some
                && r->Some_0.url@ == "https://deep-index.moralis.io/api/v2.2/pairs/latest?chain=solana"@
                && r->Some_0.header_name@ == "X-API-Key"@
                && r->Some_0.header_value@ == config.moralis_api_key@,
    {
        match self {
            DataSource::Moralis => Some(
                FetchRequest {
                    url: String::from_str(
                        "https://deep-index.moralis.io/api/v2.2/pairs/latest?chain=solana",
                    ),
                    header_name: String::from_str("X-API-Key"),
                    header_value: config.moralis_api_key.clone(),
                },
            ),
            DataSource::Helius => None,
        }
    }
}

/// How one fetch from a source ended.
#[derive(Debug)]
pub enum FetchOutcome {
    /// The source answered with its full list of pools.
    Fetched(Vec<PoolData>),
    /// The call failed or ran out of time; the text says how.
    Failed(String),
}

/// What one cycle of a poller did to the store.
#[derive(Debug, Clone, Copy, PartialEq, Eq, Structural)]
pub enum PollReport {
    /// The store now holds the `count` pools that were fetched.
    Updated { count: usize },
    /// The list that was fetched was refused; the store is as it was.
    Refused(StoreError),
    /// The fetch failed; the store is as it was.
    NoUpdate,
}

/// A long-running task of the pipeline.
#[derive(Debug, Clone, Copy, PartialEq, Eq, Structural)]
pub enum Task {
    Poller(DataSource),
    Detector,
}

/// How a task came to its end.
#[derive(Debug)]
pub enum TaskExit {
    /// It returned without an error.
    Completed,
    /// It returned an error.
    Failed(String),
    /// It panicked or was cancelled.
    Aborted(String),
}

/// The end of a task, which stops the whole pipeline.
#[derive(Debug, PartialEq, Eq)]
pub struct PipelineFault {
    pub task: Task,
    pub reason: String,
}

/// The reason that a fault gives for an exit.
pub open spec fn exit_reason(exit: TaskExit) -> Seq<char> {
    match exit {
        TaskExit::Completed => "task returned"@,
        TaskExit::Failed(message) => message@,
        TaskExit::Aborted(message) => message@,
    }
}

/// The owner of the pool store and of the opportunity store.
pub struct EventLoop {
    config: Config,
    pools: PoolStore,
    opportunities: OpportunityStore,
}

impl EventLoop {
    /// The pools that the loop holds.
    pub closed spec fn pools(&self) -> Seq<PoolView> {
        self.pools@
    }

    /// The opportunities that the loop holds.
    pub closed spec fn opportunities(&self) -> Seq<OpportunityView> {
        self.opportunities@
    }

    /// The settings that the loop was made with.
    pub closed spec fn settings(&self) -> Config {
        self.config
    }

    /// A loop with the given settings and two empty stores.
    pub fn new(config: Config) -> (event_loop: Self)
        ensures
            event_loop.settings() == config,
            event_loop.pools() == Seq::<PoolView>::empty(),
            event_loop.opportunities() == Seq::<OpportunityView>::empty(),
    {
        EventLoop { config, pools: PoolStore::new(), opportunities: OpportunityStore::new() }
    }

    /// The settings of the loop.
    pub fn config(&self) -> (config: &Config)
        ensures
            *config == self.settings(),
    {
        &self.config
    }

    /// A copy of the pools as they are now. No two of them have the same
    /// address.
    pub fn get_pools(&self) -> (snapshot: Vec<PoolData>)
        ensures
            views(snapshot@) == self.pools(),
            distinct_ids(self.pools()),
    {
        self.pools.read()
    }

    /// A copy of the opportunities as they are now.
    pub fn get_opportunities(&self) -> (snapshot: Vec<TradeOpportunity>)
        ensures
            views(snapshot@) == self.opportunities(),
    {
        self.opportunities.read()
    }

    /// The tasks that the pipeline runs: one poller for each source, and the
    /// detector.
    pub fn tasks() -> (tasks: Vec<Task>)
        ensures
            tasks@ == seq![
                Task::Poller(DataSource::Moralis),
                Task::Poller(DataSource::Helius),
                Task::Detector,
            ],
    {
        let mut tasks: Vec<Task> = Vec::new();
        tasks.push(Task::Poller(DataSource::Moralis));
        tasks.push(Task::Poller(DataSource::Helius));
        tasks.push(Task::Detector);
        assert(tasks@ =~= seq![
            Task::Poller(DataSource::Moralis),
            Task::Poller(DataSource::Helius),
            Task::Detector,
        ]);
        tasks
    }

    /// What the store holds after a cycle of a poller that ended in `outcome`.
    pub open spec fn pools_after_fetch(
        stored: Seq<PoolView>,
        outcome: FetchOutcome,
    ) -> Seq<PoolView> {
        match outcome {
            FetchOutcome::Fetched(pools) => PoolStore::after_upsert(stored, views(pools@)),
            FetchOutcome::Failed(_) => stored,
        }
    }

    /// What a poller reports of a cycle that ended in `outcome`.
    pub open spec fn report_of_fetch(stored: Seq<PoolView>, outcome: FetchOutcome) -> PollReport {
        match outcome {
            FetchOutcome::Fetched(pools) => if !distinct_ids(views(pools@)) {
                PollReport::Refused(StoreError::DuplicatePool)
            } else if regresses(stored, views(pools@)) {
                PollReport::Refused(StoreError::StaleUpdate)
            } else {
                PollReport::Updated { count: pools@.len() as usize }
            },
            FetchOutcome::Failed(_) => PollReport::NoUpdate,
        }
    }

    /// One cycle of a poller, once its fetch has ended: a list that was
    /// fetched replaces the pools as a whole; a failed fetch changes nothing.
    pub fn apply_fetch(&mut self, outcome: FetchOutcome) -> (report: PollReport)
        ensures
            final(self).pools() == Self::pools_after_fetch(old(self).pools(), outcome),
            report == Self::report_of_fetch(old(self).pools(), outcome),
            final(self).opportunities() == old(self).opportunities(),
            final(self).settings() == old(self).settings(),
    {
        match outcome {
            FetchOutcome::Fetched(pools) => {
                let count: usize = pools.len();
                match self.pools.upsert_all(pools) {
                    Ok(()) => PollReport::Updated { count },
                    Err(error) => PollReport::Refused(error),
                }
            },
            FetchOutcome::Failed(_) => PollReport::NoUpdate,
        }
    }

    /// One cycle of the detector at time `now`: the opportunities of the
    /// pools as they are replace the opportunities of every earlier cycle.
    /// Returns how many were found.
    pub fn detect_opportunities_at<P: AcceptancePredicate>(
        &mut self,
        predicate: &P,
        now: i64,
    ) -> (count: usize)
        ensures
            final(self).opportunities() == detect(
                old(self).pools(),
                *predicate,
                old(self).settings().min_profit_threshold as int,
                now as int,
            ),
            count == final(self).opportunities().len(),
            final(self).pools() == old(self).pools(),
            final(self).settings() == old(self).settings(),
    {
        let snapshot = self.pools.read();
        let found = detect_cycle(&snapshot, predicate, self.config.min_profit_threshold, now);
        let count: usize = found.len();
        self.opportunities.replace(found);
        count
    }

    /// One cycle of the detector at the time of the clock: the opportunities
    /// of the pools as they are replace the opportunities of every earlier
    /// cycle. Returns how many were found.
    pub fn detect_opportunities<P: AcceptancePredicate>(&mut self, predicate: &P) -> (count: usize)
        ensures
            exists|now: i64|
                final(self).opportunities() == detect(
                    old(self).pools(),
                    *predicate,
                    old(self).settings().min_profit_threshold as int,
                    now as int,
                ),
            count == final(self).opportunities().len(),
            final(self).pools() == old(self).pools(),
            final(self).settings() == old(self).settings(),
    {
        let now: i64 = unix_time_now();
        self.detect_opportunities_at(predicate, now)
    }

    /// Finds the opportunities in `pools` with the threshold of `config`, every
    /// pool being accepted, and stamps them with the time of the clock.
    pub fn analyze_pools(config: &Config, pools: &Vec<PoolData>) -> (found: Vec<TradeOpportunity>)
        ensures
            exists|now: i64|
                views(found@) == detect(
                    views(pools@),
                    AcceptAll,
                    config.min_profit_threshold as int,
                    now as int,
                ),
    {
        let now: i64 = unix_time_now();
        detect_cycle(pools, &AcceptAll, config.min_profit_threshold, now)
    }

    /// The end of any task is a fault of the whole pipeline, however the task
    /// ended.
    pub fn on_task_exit(task: Task, exit: TaskExit) -> (fault: PipelineFault)
        ensures
            fault.task == task,
            fault.reason@ == exit_reason(exit),
    {
        let reason = match exit {
            TaskExit::Completed => String::from_str("task returned"),
            TaskExit::Failed(message) => message,
            TaskExit::Aborted(message) => message,
        };
        PipelineFault { task, reason }
    }
}

} // verus!
