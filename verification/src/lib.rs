//! Monitor, detect and execute pipeline for liquidity-pool trading.
//!
//! Every quantity is held as a whole number of base units, one billion of
//! which make one unit of an asset, so that the rules of the pipeline are
//! exact integer arithmetic.

pub mod ai_model;
pub mod api;
pub mod config;
pub mod decimal;
pub mod detector;
pub mod event_loop;
pub mod pool_store;
pub mod retry;
pub mod sniper;
pub mod utils;

pub use ai_model::AIModel;
pub use config::Config;
pub use event_loop::{EventLoop, LiquidityPool};
pub use sniper::Sniper;
