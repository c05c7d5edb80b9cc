use sai_hf_bot::config::{
    parse_bool, parse_bounded, Config, ConfigError, ConfigVar, ConfigVars, LoadError, UNIT,
};

/// Base units of a decimal number of units.
fn base_units(units: f64) -> i64 {
    (units * UNIT as f64).round() as i64
}

fn valid_config() -> Config {
    Config {
        solana_rpc_url: "https://api.mainnet-beta.solana.com".to_string(),
        solana_ws_url: "wss://api.mainnet-beta.solana.com".to_string(),
        jupiter_api_url: "https://quote-api.jup.ag/v6".to_string(),
        moralis_api_key: "".to_string(),
        trade_sol_amount: base_units(0.1),
        min_profit_threshold: base_units(0.01),
        slippage_bps: 50,
        max_slippage_bps: 100,
        pool_check_interval_ms: 1000,
        max_retries: 3,
        wallet_private_key: "test".to_string(),
        dashboard_port: 8080,
        enable_dashboard: true,
        log_level: "info".to_string(),
    }
}

#[test]
fn config_test_config_validation() {
    let mut config = valid_config();

    assert!(config.validate().is_ok());

    // Test invalid trade amount
    config.trade_sol_amount = base_units(-0.1);
    assert!(config.validate().is_err());

    // Reset and test invalid slippage
    config.trade_sol_amount = base_units(0.1);
    config.slippage_bps = 150;
    assert!(config.validate().is_err());
}

#[test]
fn validation_names_the_first_broken_rule() {
    let mut config = valid_config();
    config.trade_sol_amount = 0;
    config.slippage_bps = 150;
    config.pool_check_interval_ms = 0;
    assert_eq!(config.validate(), Err(ConfigError::NonPositiveTradeAmount));
    config.trade_sol_amount = 1;
    assert_eq!(config.validate(), Err(ConfigError::SlippageAboveMax));
    config.slippage_bps = 100;
    assert_eq!(config.validate(), Err(ConfigError::ZeroPoolCheckInterval));
    config.pool_check_interval_ms = 1;
    assert_eq!(config.validate(), Ok(()));
}

#[test]
fn config_error_messages() {
    assert_eq!(
        ConfigError::NonPositiveTradeAmount.message(),
        "TRADE_SOL_AMOUNT must be positive"
    );
    assert_eq!(
        ConfigError::SlippageAboveMax.message(),
        "SLIPPAGE_BPS cannot exceed MAX_SLIPPAGE_BPS"
    );
    assert_eq!(
        ConfigError::ZeroPoolCheckInterval.message(),
        "POOL_CHECK_INTERVAL_MS must be greater than 0"
    );
    assert_eq!(
        LoadError::Unparsable(ConfigVar::MaxRetries).message(),
        "Failed to parse MAX_RETRIES"
    );
    assert_eq!(
        LoadError::Invalid(ConfigError::SlippageAboveMax).message(),
        "SLIPPAGE_BPS cannot exceed MAX_SLIPPAGE_BPS"
    );
    assert_eq!(ConfigVar::TradeSolAmount.env_name(), "TRADE_SOL_AMOUNT");
    assert_eq!(ConfigVar::MinProfitThreshold.env_name(), "MIN_PROFIT_THRESHOLD");
    assert_eq!(ConfigVar::SlippageBps.env_name(), "SLIPPAGE_BPS");
    assert_eq!(ConfigVar::MaxSlippageBps.env_name(), "MAX_SLIPPAGE_BPS");
    assert_eq!(ConfigVar::PoolCheckIntervalMs.env_name(), "POOL_CHECK_INTERVAL_MS");
    assert_eq!(ConfigVar::DashboardPort.env_name(), "DASHBOARD_PORT");
    assert_eq!(ConfigVar::EnableDashboard.env_name(), "ENABLE_DASHBOARD");
}

#[test]
fn defaults_when_nothing_is_set() {
    let config = Config::from_vars(&ConfigVars::unset()).unwrap();
    assert_eq!(config.solana_rpc_url, "https://api.mainnet-beta.solana.com");
    assert_eq!(config.solana_ws_url, "wss://api.mainnet-beta.solana.com");
    assert_eq!(config.jupiter_api_url, "https://quote-api.jup.ag/v6");
    assert_eq!(config.moralis_api_key, "");
    assert_eq!(config.trade_sol_amount, 100_000_000);
    assert_eq!(config.trade_sol_amount, (UNIT / 10) as i64);
    assert_eq!(config.min_profit_threshold, 10_000_000);
    assert_eq!(config.slippage_bps, 50);
    assert_eq!(config.max_slippage_bps, 100);
    assert_eq!(config.pool_check_interval_ms, 1000);
    assert_eq!(config.max_retries, 3);
    assert_eq!(config.wallet_private_key, "your_private_key_here");
    assert_eq!(config.dashboard_port, 8080);
    assert!(config.enable_dashboard);
    assert_eq!(config.log_level, "info");
    assert!(config.validate().is_ok());
}

#[test]
fn texts_that_are_set_are_read() {
    let mut vars = ConfigVars::unset();
    vars.solana_rpc_url = Some("http://localhost:8899".to_string());
    vars.jupiter_api_url = Some("http://localhost:9000".to_string());
    vars.moralis_api_key = Some("key".to_string());
    vars.trade_sol_amount = Some("2.5".to_string());
    vars.min_profit_threshold = Some("-0.000000001".to_string());
    vars.slippage_bps = Some("75".to_string());
    vars.max_slippage_bps = Some("+75".to_string());
    vars.pool_check_interval_ms = Some("18446744073709551615".to_string());
    vars.max_retries = Some("0".to_string());
    vars.dashboard_port = Some("65535".to_string());
    vars.enable_dashboard = Some("false".to_string());
    vars.log_level = Some("debug".to_string());
    let config = Config::from_vars(&vars).unwrap();
    assert_eq!(config.solana_rpc_url, "http://localhost:8899");
    assert_eq!(config.jupiter_api_url, "http://localhost:9000");
    assert_eq!(config.moralis_api_key, "key");
    assert_eq!(config.trade_sol_amount, 2_500_000_000);
    assert_eq!(config.min_profit_threshold, -1);
    assert_eq!(config.slippage_bps, 75);
    assert_eq!(config.max_slippage_bps, 75);
    assert_eq!(config.pool_check_interval_ms, u64::MAX);
    assert_eq!(config.max_retries, 0);
    assert_eq!(config.dashboard_port, 65535);
    assert!(!config.enable_dashboard);
    assert_eq!(config.log_level, "debug");
}

fn load_error(change: impl FnOnce(&mut ConfigVars)) -> LoadError {
    let mut vars = ConfigVars::unset();
    change(&mut vars);
    Config::from_vars(&vars).unwrap_err()
}

#[test]
fn each_text_that_spells_no_value_is_named() {
    assert_eq!(
        load_error(|v| v.trade_sol_amount = Some("lots".to_string())),
        LoadError::Unparsable(ConfigVar::TradeSolAmount)
    );
    assert_eq!(
        load_error(|v| v.min_profit_threshold = Some("".to_string())),
        LoadError::Unparsable(ConfigVar::MinProfitThreshold)
    );
    assert_eq!(
        load_error(|v| v.slippage_bps = Some("65536".to_string())),
        LoadError::Unparsable(ConfigVar::SlippageBps)
    );
    assert_eq!(
        load_error(|v| v.max_slippage_bps = Some("-1".to_string())),
        LoadError::Unparsable(ConfigVar::MaxSlippageBps)
    );
    assert_eq!(
        load_error(|v| v.pool_check_interval_ms = Some("18446744073709551616".to_string())),
        LoadError::Unparsable(ConfigVar::PoolCheckIntervalMs)
    );
    assert_eq!(
        load_error(|v| v.max_retries = Some("4294967296".to_string())),
        LoadError::Unparsable(ConfigVar::MaxRetries)
    );
    assert_eq!(
        load_error(|v| v.dashboard_port = Some("80 80".to_string())),
        LoadError::Unparsable(ConfigVar::DashboardPort)
    );
    assert_eq!(
        load_error(|v| v.enable_dashboard = Some("yes".to_string())),
        LoadError::Unparsable(ConfigVar::EnableDashboard)
    );
}

#[test]
fn the_first_bad_text_wins() {
    assert_eq!(
        load_error(|v| {
            v.enable_dashboard = Some("TRUE".to_string());
            v.max_retries = Some("three".to_string());
            v.slippage_bps = Some("x".to_string());
        }),
        LoadError::Unparsable(ConfigVar::SlippageBps)
    );
    // A text that cannot be read is reported before a rule that is broken.
    assert_eq!(
        load_error(|v| {
            v.trade_sol_amount = Some("-1".to_string());
            v.dashboard_port = Some("port".to_string());
        }),
        LoadError::Unparsable(ConfigVar::DashboardPort)
    );
}

#[test]
fn settings_that_break_a_rule_are_refused() {
    assert_eq!(
        load_error(|v| v.trade_sol_amount = Some("0".to_string())),
        LoadError::Invalid(ConfigError::NonPositiveTradeAmount)
    );
    assert_eq!(
        load_error(|v| v.trade_sol_amount = Some("-0.1".to_string())),
        LoadError::Invalid(ConfigError::NonPositiveTradeAmount)
    );
    assert_eq!(
        load_error(|v| v.slippage_bps = Some("150".to_string())),
        LoadError::Invalid(ConfigError::SlippageAboveMax)
    );
    assert_eq!(
        load_error(|v| v.pool_check_interval_ms = Some("0".to_string())),
        LoadError::Invalid(ConfigError::ZeroPoolCheckInterval)
    );
}

#[test]
fn truth_values() {
    assert_eq!(parse_bool("true"), Some(true));
    assert_eq!(parse_bool("false"), Some(false));
    assert_eq!(parse_bool("True"), None);
    assert_eq!(parse_bool("1"), None);
    assert_eq!(parse_bool(""), None);
    assert_eq!(parse_bool(" true"), None);
}

#[test]
fn bounded_numbers() {
    assert_eq!(parse_bounded("65535", 65535), Some(65535));
    assert_eq!(parse_bounded("65536", 65535), None);
    assert_eq!(parse_bounded("0", 0), Some(0));
    assert_eq!(parse_bounded("1", 0), None);
    assert_eq!(parse_bounded("abc", 10), None);
}

#[test]
fn a_copy_of_the_settings_is_equal() {
    let config = valid_config();
    let copy = config.clone();
    assert_eq!(copy.solana_rpc_url, config.solana_rpc_url);
    assert_eq!(copy.trade_sol_amount, config.trade_sol_amount);
    assert_eq!(copy.max_retries, config.max_retries);
    assert_eq!(copy.log_level, config.log_level);
}

#[test]
fn integration_tests_test_config_validation() {
    // what is loaded from an environment in which nothing is set is valid
    let config = Config::from_vars(&ConfigVars::unset()).unwrap();
    assert_eq!(config.validate(), Ok(()));
    // and what is loaded is what was validated
    let mut vars = ConfigVars::unset();
    vars.slippage_bps = Some("100".to_string());
    vars.max_slippage_bps = Some("100".to_string());
    assert!(Config::from_vars(&vars).is_ok());
    vars.slippage_bps = Some("101".to_string());
    assert_eq!(
        Config::from_vars(&vars).unwrap_err(),
        LoadError::Invalid(ConfigError::SlippageAboveMax)
    );
}
