use sai_hf_bot::ai_model::{AIModel, MIN_LIQUIDITY, MIN_VOLUME_24H};
use sai_hf_bot::config::UNIT;
use sai_hf_bot::event_loop::LiquidityPool;

/// Base units of a decimal number of units.
fn base_units(units: f64) -> u64 {
    (units * UNIT as f64).round() as u64
}

fn create_test_pool(liquidity: f64, volume: f64, is_new: bool) -> LiquidityPool {
    LiquidityPool {
        address: "test_pool".to_string(),
        token_a: "token_a".to_string(),
        token_b: "token_b".to_string(),
        liquidity: base_units(liquidity),
        volume_24h: base_units(volume),
        is_new,
    }
}

fn pool_of(liquidity: u64, volume: u64, is_new: bool) -> LiquidityPool {
    LiquidityPool {
        address: "test_pool".to_string(),
        token_a: "token_a".to_string(),
        token_b: "token_b".to_string(),
        liquidity,
        volume_24h: volume,
        is_new,
    }
}

#[test]
fn test_ai_model_creation() {
    let model = AIModel::new();
    assert!(!model.is_enabled());
}

#[test]
fn test_simple_evaluation() {
    let model = AIModel::new();

    // Good pool
    let good_pool = create_test_pool(10000.0, 5000.0, true);
    assert!(model.evaluate_pool(&good_pool));

    // Low liquidity
    let low_liquidity = create_test_pool(1000.0, 5000.0, true);
    assert!(!model.evaluate_pool(&low_liquidity));

    // Low volume
    let low_volume = create_test_pool(10000.0, 500.0, true);
    assert!(!model.evaluate_pool(&low_volume));

    // Not new
    let not_new = create_test_pool(10000.0, 5000.0, false);
    assert!(!model.evaluate_pool(&not_new));
}

#[test]
fn test_enable_disable() {
    let mut model = AIModel::new();
    assert!(!model.is_enabled());

    model.enable();
    assert!(model.is_enabled());

    model.disable();
    assert!(!model.is_enabled());
}

#[test]
fn heuristic_thresholds_are_inclusive() {
    let model = AIModel::new();
    assert_eq!(MIN_LIQUIDITY, 5_000_000_000_000);
    assert_eq!(MIN_VOLUME_24H, 1_000_000_000_000);
    assert!(model.evaluate_pool(&pool_of(MIN_LIQUIDITY, MIN_VOLUME_24H, true)));
    assert!(!model.evaluate_pool(&pool_of(MIN_LIQUIDITY - 1, MIN_VOLUME_24H, true)));
    assert!(!model.evaluate_pool(&pool_of(MIN_LIQUIDITY, MIN_VOLUME_24H - 1, true)));
    assert!(model.simple_evaluation(&pool_of(MIN_LIQUIDITY, MIN_VOLUME_24H, true)));
}

#[test]
fn enabled_model_turns_every_pool_down() {
    let mut model = AIModel::default();
    model.enable();
    assert!(!model.evaluate_pool(&create_test_pool(10000.0, 5000.0, true)));
    // The rule of thumb itself does not look at the switch.
    assert!(model.simple_evaluation(&create_test_pool(10000.0, 5000.0, true)));
}

#[test]
fn train_and_load_leave_the_model_as_it_was() {
    let mut model = AIModel::new();
    model.train(&[pool_of(1, 2, true)]);
    assert!(!model.is_enabled());
    assert_eq!(model.load_model("model.bin"), Ok(()));
    assert!(!model.is_enabled());
    model.enable();
    model.train(&[]);
    assert_eq!(model.load_model(""), Ok(()));
    assert!(model.is_enabled());
}
