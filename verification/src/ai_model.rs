//! The model that scores a pool. Until a trained model is loaded it falls
//! back on a fixed rule of thumb.

use crate::config::UNIT;
use crate::event_loop::LiquidityPool;
use vstd::prelude::*;

verus! {

/// The least liquidity that the rule of thumb asks of a pool: 5000 units.
pub const MIN_LIQUIDITY: u64 = 5000 * UNIT;

/// The least volume over a day that the rule of thumb asks of a pool: 1000
/// units.
pub const MIN_VOLUME_24H: u64 = 1000 * UNIT;

/// The scoring model.
#[derive(Debug)]
pub struct AIModel {
    enabled: bool,
}

impl AIModel {
    /// Whether the trained model is switched on.
    pub closed spec fn enabled(&self) -> bool {
        self.enabled
    }

    /// The rule of thumb: a pool is worth trading when it is new and has
    /// enough liquidity and enough volume.
    pub open spec fn meets_heuristic(pool: &LiquidityPool) -> bool {
        pool.liquidity >= MIN_LIQUIDITY && pool.volume_24h >= MIN_VOLUME_24H && pool.is_new
    }

    /// A model with the trained model switched off.
    pub fn new() -> (model: Self)
        ensures
            !model.enabled(),
    {
        AIModel { enabled: false }
    }

    /// Whether the trained model is switched on.
    pub fn is_enabled(&self) -> (enabled: bool)
        ensures
            enabled == self.enabled(),
    {
        self.enabled
    }

    /// Decides whether a pool is worth trading. With the trained model
    /// switched off the rule of thumb decides; switched on, the model has
    /// nothing loaded and turns every pool down.
    pub fn evaluate_pool(&self, pool: &LiquidityPool) -> (worth: bool)
        ensures
            worth == (!self.enabled() && Self::meets_heuristic(pool)),
    {
        if !self.enabled {
            return self.simple_evaluation(pool);
        }
        false
    }

    /// The rule of thumb.
    pub fn simple_evaluation(&self, pool: &LiquidityPool) -> (worth: bool)
        ensures
            worth == Self::meets_heuristic(pool),
    {
        let has_sufficient_liquidity: bool = pool.liquidity >= MIN_LIQUIDITY;
        let has_volume: bool = pool.volume_24h >= MIN_VOLUME_24H;
        let is_new: bool = pool.is_new;
        has_sufficient_liquidity && has_volume && is_new
    }

    /// Switches the trained model on.
    pub fn enable(&mut self)
        ensures
            final(self).enabled(),
    {
        self.enabled = true;
    }

    /// Switches the trained model off.
    pub fn disable(&mut self)
        ensures
            !final(self).enabled(),
    {
        self.enabled = false;
    }

    /// Takes historical data in. Nothing is learned from it yet: the model
    /// stays as it was.
    pub fn train(&mut self, data: &[LiquidityPool])
        ensures
            *final(self) == *old(self),
    {
    }

    /// Takes the path of a trained model. Nothing is read from it yet: the
    /// call succeeds and the model stays as it was.
    pub fn load_model(&mut self, path: &str) -> (r: Result<(), String>)
        ensures
            r is Ok,
            *final(self) == *old(self),
    {
        Ok(())
    }
}

impl Default for AIModel {
    fn default() -> (model: Self)
        ensures
            !model.enabled(),
    {
        AIModel::new()
    }
}

} // verus!
