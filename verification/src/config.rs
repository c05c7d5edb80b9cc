//! Settings of the pipeline and the rules they must meet.

use crate::decimal::{parse_amount, parse_u64, spec_parse_amount, spec_parse_u64};
use vstd::prelude::*;

verus! {

/// Base units in one unit of an asset.
pub const UNIT: u64 = 1_000_000_000;

/// Milliseconds after which a call to an outside service is given up.
pub const REQUEST_TIMEOUT_MS: u64 = 10_000;

/// Settings of the pipeline. Amounts are in base units.
#[derive(Debug)]
pub struct Config {
    pub solana_rpc_url: String,
    pub solana_ws_url: String,
    pub jupiter_api_url: String,
    pub moralis_api_key: String,
    pub trade_sol_amount: i64,
    pub min_profit_threshold: i64,
    pub slippage_bps: u16,
    pub max_slippage_bps: u16,
    pub pool_check_interval_ms: u64,
    pub max_retries: u32,
    pub wallet_private_key: String,
    pub dashboard_port: u16,
    pub enable_dashboard: bool,
    pub log_level: String,
}

/// The rule that a configuration breaks.
#[derive(Debug, Clone, Copy, PartialEq, Eq, Structural)]
pub enum ConfigError {
    /// The amount to trade is zero or negative.
    NonPositiveTradeAmount,
    /// The slippage is above the largest slippage allowed.
    SlippageAboveMax,
    /// The interval between two checks of the pools is zero.
    ZeroPoolCheckInterval,
}

impl ConfigError {
    /// The message for the operator.
    pub fn message(&self) -> (text: String)
        ensures
            text@ == match *self {
                ConfigError::NonPositiveTradeAmount => "TRADE_SOL_AMOUNT must be positive"@,
                ConfigError::SlippageAboveMax => "SLIPPAGE_BPS cannot exceed MAX_SLIPPAGE_BPS"@,
                ConfigError::ZeroPoolCheckInterval => "POOL_CHECK_INTERVAL_MS must be greater than 0"@,
            },
    {
        match self {
            ConfigError::NonPositiveTradeAmount => String::from_str(
                "TRADE_SOL_AMOUNT must be positive",
            ),
            ConfigError::SlippageAboveMax => String::from_str(
                "SLIPPAGE_BPS cannot exceed MAX_SLIPPAGE_BPS",
            ),
            ConfigError::ZeroPoolCheckInterval => String::from_str(
                "POOL_CHECK_INTERVAL_MS must be greater than 0",
            ),
        }
    }
}

/// The first rule that the given settings break, if they break one.
pub open spec fn violation(
    trade_sol_amount: int,
    slippage_bps: int,
    max_slippage_bps: int,
    pool_check_interval_ms: int,
) -> Option<ConfigError> {
    if trade_sol_amount <= 0 {
        Some(ConfigError::NonPositiveTradeAmount)
    } else if slippage_bps > max_slippage_bps {
        Some(ConfigError::SlippageAboveMax)
    } else if pool_check_interval_ms == 0 {
        Some(ConfigError::ZeroPoolCheckInterval)
    } else {
        None
    }
}

impl Config {
    /// The first rule that the configuration breaks, if it breaks one.
    pub open spec fn first_violation(&self) -> Option<ConfigError> {
        violation(
            self.trade_sol_amount as int,
            self.slippage_bps as int,
            self.max_slippage_bps as int,
            self.pool_check_interval_ms as int,
        )
    }

    /// A configuration is valid when it trades a positive amount, its slippage
    /// is within the largest slippage allowed, and its interval is not zero.
    pub open spec fn is_valid(&self) -> bool {
        &&& self.trade_sol_amount > 0
        &&& self.slippage_bps <= self.max_slippage_bps
        &&& self.pool_check_interval_ms > 0
    }

    /// Checks the configuration against its rules.
    pub fn validate(&self) -> (r: Result<(), ConfigError>)
        ensures
            r is Ok <==> self.is_valid(),
            r is Err ==> self.first_violation() == Some(r->Err_0),
    {
        if self.trade_sol_amount <= 0 {
            return Err(ConfigError::NonPositiveTradeAmount);
        }
        if self.slippage_bps > self.max_slippage_bps {
            return Err(ConfigError::SlippageAboveMax);
        }
        if self.pool_check_interval_ms == 0 {
            return Err(ConfigError::ZeroPoolCheckInterval);
        }
        Ok(())
    }
}

/// What a `Config` holds, as plain values.
pub struct ConfigView {
    pub solana_rpc_url: Seq<char>,
    pub solana_ws_url: Seq<char>,
    pub jupiter_api_url: Seq<char>,
    pub moralis_api_key: Seq<char>,
    pub trade_sol_amount: int,
    pub min_profit_threshold: int,
    pub slippage_bps: int,
    pub max_slippage_bps: int,
    pub pool_check_interval_ms: int,
    pub max_retries: int,
    pub wallet_private_key: Seq<char>,
    pub dashboard_port: int,
    pub enable_dashboard: bool,
    pub log_level: Seq<char>,
}

impl View for Config {
    type V = ConfigView;

    open spec fn view(&self) -> ConfigView {
        ConfigView {
            solana_rpc_url: self.solana_rpc_url@,
            solana_ws_url: self.solana_ws_url@,
            jupiter_api_url: self.jupiter_api_url@,
            moralis_api_key: self.moralis_api_key@,
            trade_sol_amount: self.trade_sol_amount as int,
            min_profit_threshold: self.min_profit_threshold as int,
            slippage_bps: self.slippage_bps as int,
            max_slippage_bps: self.max_slippage_bps as int,
            pool_check_interval_ms: self.pool_check_interval_ms as int,
            max_retries: self.max_retries as int,
            wallet_private_key: self.wallet_private_key@,
            dashboard_port: self.dashboard_port as int,
            enable_dashboard: self.enable_dashboard,
            log_level: self.log_level@,
        }
    }
}

impl Clone for Config {
    fn clone(&self) -> (copy: Self)
        ensures
            copy == *self,
    {
        Config {
            solana_rpc_url: self.solana_rpc_url.clone(),
            solana_ws_url: self.solana_ws_url.clone(),
            jupiter_api_url: self.jupiter_api_url.clone(),
            moralis_api_key: self.moralis_api_key.clone(),
            trade_sol_amount: self.trade_sol_amount,
            min_profit_threshold: self.min_profit_threshold,
            slippage_bps: self.slippage_bps,
            max_slippage_bps: self.max_slippage_bps,
            pool_check_interval_ms: self.pool_check_interval_ms,
            max_retries: self.max_retries,
            wallet_private_key: self.wallet_private_key.clone(),
            dashboard_port: self.dashboard_port,
            enable_dashboard: self.enable_dashboard,
            log_level: self.log_level.clone(),
        }
    }
}

/// The texts that the settings are read from, one for each variable of the
/// environment; `None` where the variable is not set.
#[derive(Debug)]
pub struct ConfigVars {
    pub solana_rpc_url: Option<String>,
    pub solana_ws_url: Option<String>,
    pub jupiter_api_url: Option<String>,
    pub moralis_api_key: Option<String>,
    pub trade_sol_amount: Option<String>,
    pub min_profit_threshold: Option<String>,
    pub slippage_bps: Option<String>,
    pub max_slippage_bps: Option<String>,
    pub pool_check_interval_ms: Option<String>,
    pub max_retries: Option<String>,
    pub wallet_private_key: Option<String>,
    pub dashboard_port: Option<String>,
    pub enable_dashboard: Option<String>,
    pub log_level: Option<String>,
}

/// A variable whose text has to spell a value.
#[derive(Debug, Clone, Copy, PartialEq, Eq, Structural)]
pub enum ConfigVar {
    TradeSolAmount,
    MinProfitThreshold,
    SlippageBps,
    MaxSlippageBps,
    PoolCheckIntervalMs,
    MaxRetries,
    DashboardPort,
    EnableDashboard,
}

impl ConfigVar {
    /// The name of the variable in the environment.
    pub open spec fn name(self) -> Seq<char> {
        match self {
            ConfigVar::TradeSolAmount => "TRADE_SOL_AMOUNT"@,
            ConfigVar::MinProfitThreshold => "MIN_PROFIT_THRESHOLD"@,
            ConfigVar::SlippageBps => "SLIPPAGE_BPS"@,
            ConfigVar::MaxSlippageBps => "MAX_SLIPPAGE_BPS"@,
            ConfigVar::PoolCheckIntervalMs => "POOL_CHECK_INTERVAL_MS"@,
            ConfigVar::MaxRetries => "MAX_RETRIES"@,
            ConfigVar::DashboardPort => "DASHBOARD_PORT"@,
            ConfigVar::EnableDashboard => "ENABLE_DASHBOARD"@,
        }
    }

    /// The name of the variable in the environment.
    pub fn env_name(&self) -> (name: &'static str)
        ensures
            name@ == self.name(),
    {
        match self {
            ConfigVar::TradeSolAmount => "TRADE_SOL_AMOUNT",
            ConfigVar::MinProfitThreshold => "MIN_PROFIT_THRESHOLD",
            ConfigVar::SlippageBps => "SLIPPAGE_BPS",
            ConfigVar::MaxSlippageBps => "MAX_SLIPPAGE_BPS",
            ConfigVar::PoolCheckIntervalMs => "POOL_CHECK_INTERVAL_MS",
            ConfigVar::MaxRetries => "MAX_RETRIES",
            ConfigVar::DashboardPort => "DASHBOARD_PORT",
            ConfigVar::EnableDashboard => "ENABLE_DASHBOARD",
        }
    }
}

/// Why no configuration could be made of the texts.
#[derive(Debug, Clone, Copy, PartialEq, Eq, Structural)]
pub enum LoadError {
    /// The text of this variable spells no value of its kind.
    Unparsable(ConfigVar),
    /// Every text was read, but the settings break this rule.
    Invalid(ConfigError),
}

impl LoadError {
    /// The message for the operator.
    pub fn message(&self) -> (text: String)
        ensures
            text@ == match *self {
                LoadError::Unparsable(var) => "Failed to parse "@ + var.name(),
                LoadError::Invalid(error) => match error {
                    ConfigError::NonPositiveTradeAmount => "TRADE_SOL_AMOUNT must be positive"@,
                    ConfigError::SlippageAboveMax => "SLIPPAGE_BPS cannot exceed MAX_SLIPPAGE_BPS"@,
                    ConfigError::ZeroPoolCheckInterval => "POOL_CHECK_INTERVAL_MS must be greater than 0"@,
                },
            },
    {
        match self {
            LoadError::Unparsable(var) => {
                let mut text = String::from_str("Failed to parse ");
                text.append(var.env_name());
                text
            },
            LoadError::Invalid(error) => error.message(),
        }
    }
}

/// The text of a variable, or `fallback` where the variable is not set.
pub open spec fn text_or(value: Option<String>, fallback: Seq<char>) -> Seq<char> {
    match value {
        Some(text) => text@,
        None => fallback,
    }
}

/// The text of a variable, or `fallback` where the variable is not set.
pub fn text_of(value: &Option<String>, fallback: &str) -> (text: String)
    ensures
        text@ == text_or(*value, fallback@),
{
    match value {
        Some(text) => text.clone(),
        None => String::from_str(fallback),
    }
}

/// The truth value that a text spells: `true` or `false`, so written.
pub open spec fn spec_parse_bool(s: Seq<char>) -> Option<bool> {
    if s == "true"@ {
        Some(true)
    } else if s == "false"@ {
        Some(false)
    } else {
        None
    }
}

/// Reads a truth value.
pub fn parse_bool(s: &str) -> (r: Option<bool>)
    ensures
        r == spec_parse_bool(s@),
{
    let text = String::from_str(s);
    if text == String::from_str("true") {
        Some(true)
    } else if text == String::from_str("false") {
        Some(false)
    } else {
        None
    }
}

/// The unsigned number of at most `max` that a text spells.
pub open spec fn spec_parse_bounded(s: Seq<char>, max: nat) -> Option<nat> {
    match spec_parse_u64(s) {
        Some(value) => if value <= max {
            Some(value as nat)
        } else {
            None
        },
        None => None,
    }
}

/// Reads an unsigned number of at most `max`.
pub fn parse_bounded(s: &str, max: u64) -> (r: Option<u64>)
    ensures
        match r {
            Some(value) => spec_parse_bounded(s@, max as nat) == Some(value as nat),
            None => spec_parse_bounded(s@, max as nat) is None,
        },
{
    match parse_u64(s) {
        Some(value) => if value <= max {
            Some(value)
        } else {
            None
        },
        None => None,
    }
}

impl ConfigVars {
    /// The texts of an environment in which no variable is set.
    pub fn unset() -> (vars: Self)
        ensures
            vars == (ConfigVars {
                solana_rpc_url: None,
                solana_ws_url: None,
                jupiter_api_url: None,
                moralis_api_key: None,
                trade_sol_amount: None,
                min_profit_threshold: None,
                slippage_bps: None,
                max_slippage_bps: None,
                pool_check_interval_ms: None,
                max_retries: None,
                wallet_private_key: None,
                dashboard_port: None,
                enable_dashboard: None,
                log_level: None,
            }),
    {
        ConfigVars {
            solana_rpc_url: None,
            solana_ws_url: None,
            jupiter_api_url: None,
            moralis_api_key: None,
            trade_sol_amount: None,
            min_profit_threshold: None,
            slippage_bps: None,
            max_slippage_bps: None,
            pool_check_interval_ms: None,
            max_retries: None,
            wallet_private_key: None,
            dashboard_port: None,
            enable_dashboard: None,
            log_level: None,
        }
    }

    /// The amount to trade that the texts spell; a tenth of a unit where the
    /// variable is not set.
    pub open spec fn trade_sol_amount_value(self) -> Option<i64> {
        spec_parse_amount(text_or(self.trade_sol_amount, "0.1"@))
    }

    /// The least profit that the texts spell; a hundredth of a unit where the
    /// variable is not set.
    pub open spec fn min_profit_threshold_value(self) -> Option<i64> {
        spec_parse_amount(text_or(self.min_profit_threshold, "0.01"@))
    }

    /// The slippage that the texts spell; 50 where the variable is not set.
    pub open spec fn slippage_bps_value(self) -> Option<nat> {
        spec_parse_bounded(text_or(self.slippage_bps, "50"@), u16::MAX as nat)
    }

    /// The largest slippage that the texts spell; 100 where the variable is
    /// not set.
    pub open spec fn max_slippage_bps_value(self) -> Option<nat> {
        spec_parse_bounded(text_or(self.max_slippage_bps, "100"@), u16::MAX as nat)
    }

    /// The interval that the texts spell; 1000 where the variable is not set.
    pub open spec fn pool_check_interval_ms_value(self) -> Option<nat> {
        spec_parse_bounded(text_or(self.pool_check_interval_ms, "1000"@), u64::MAX as nat)
    }

    /// The number of attempts that the texts spell; 3 where the variable is
    /// not set.
    pub open spec fn max_retries_value(self) -> Option<nat> {
        spec_parse_bounded(text_or(self.max_retries, "3"@), u32::MAX as nat)
    }

    /// The port that the texts spell; 8080 where the variable is not set.
    pub open spec fn dashboard_port_value(self) -> Option<nat> {
        spec_parse_bounded(text_or(self.dashboard_port, "8080"@), u16::MAX as nat)
    }

    /// Whether the texts switch the dashboard on; they do where the variable
    /// is not set.
    pub open spec fn enable_dashboard_value(self) -> Option<bool> {
        spec_parse_bool(text_or(self.enable_dashboard, "true"@))
    }

    /// The first variable, in the order in which they are read, whose text
    /// spells no value.
    pub open spec fn first_unparsable(self) -> Option<ConfigVar> {
        if self.trade_sol_amount_value() is None {
            Some(ConfigVar::TradeSolAmount)
        } else if self.min_profit_threshold_value() is None {
            Some(ConfigVar::MinProfitThreshold)
        } else if self.slippage_bps_value() is None {
            Some(ConfigVar::SlippageBps)
        } else if self.max_slippage_bps_value() is None {
            Some(ConfigVar::MaxSlippageBps)
        } else if self.pool_check_interval_ms_value() is None {
            Some(ConfigVar::PoolCheckIntervalMs)
        } else if self.max_retries_value() is None {
            Some(ConfigVar::MaxRetries)
        } else if self.dashboard_port_value() is None {
            Some(ConfigVar::DashboardPort)
        } else if self.enable_dashboard_value() is None {
            Some(ConfigVar::EnableDashboard)
        } else {
            None
        }
    }

    /// The settings that the texts spell, where every text spells a value.
    pub open spec fn settings(self) -> ConfigView {
        ConfigView {
            solana_rpc_url: text_or(self.solana_rpc_url, "https://api.mainnet-beta.solana.com"@),
            solana_ws_url: text_or(self.solana_ws_url, "wss://api.mainnet-beta.solana.com"@),
            jupiter_api_url: text_or(self.jupiter_api_url, "https://quote-api.jup.ag/v6"@),
            moralis_api_key: text_or(self.moralis_api_key, ""@),
            trade_sol_amount: self.trade_sol_amount_value()->Some_0 as int,
            min_profit_threshold: self.min_profit_threshold_value()->Some_0 as int,
            slippage_bps: self.slippage_bps_value()->Some_0 as int,
            max_slippage_bps: self.max_slippage_bps_value()->Some_0 as int,
            pool_check_interval_ms: self.pool_check_interval_ms_value()->Some_0 as int,
            max_retries: self.max_retries_value()->Some_0 as int,
            wallet_private_key: text_or(self.wallet_private_key, "your_private_key_here"@),
            dashboard_port: self.dashboard_port_value()->Some_0 as int,
            enable_dashboard: self.enable_dashboard_value()->Some_0,
            log_level: text_or(self.log_level, "info"@),
        }
    }

    /// The outcome of reading the texts: the first text that spells no value,
    /// else the first rule that the settings break, else nothing.
    pub open spec fn load_error(self) -> Option<LoadError> {
        match self.first_unparsable() {
            Some(var) => Some(LoadError::Unparsable(var)),
            None => match violation(
                self.settings().trade_sol_amount,
                self.settings().slippage_bps,
                self.settings().max_slippage_bps,
                self.settings().pool_check_interval_ms,
            ) {
                Some(error) => Some(LoadError::Invalid(error)),
                None => None,
            },
        }
    }
}

impl Config {
    /// Makes the settings out of the texts of the environment. A variable
    /// that is not set takes its default. The texts are read in a fixed
    /// order, and the first that spells no value is the error; settings that
    /// were read but break a rule are an error too.
    pub fn from_vars(vars: &ConfigVars) -> (r: Result<Config, LoadError>)
        ensures
            match r {
                Ok(config) => vars.load_error() is None && config@ == vars.settings()
                    && config.is_valid(),
                Err(error) => vars.load_error() == Some(error),
            },
    {
        let trade_sol_amount: i64 = match parse_amount(
            text_of(&vars.trade_sol_amount, "0.1").as_str(),
        ) {
            Some(value) => value,
            None => {
                return Err(LoadError::Unparsable(ConfigVar::TradeSolAmount));
            },
        };
        let min_profit_threshold: i64 = match parse_amount(
            text_of(&vars.min_profit_threshold, "0.01").as_str(),
        ) {
            Some(value) => value,
            None => {
                return Err(LoadError::Unparsable(ConfigVar::MinProfitThreshold));
            },
        };
        let slippage_bps: u16 = match parse_bounded(
            text_of(&vars.slippage_bps, "50").as_str(),
            u16::MAX as u64,
        ) {
            Some(value) => value as u16,
            None => {
                return Err(LoadError::Unparsable(ConfigVar::SlippageBps));
            },
        };
        let max_slippage_bps: u16 = match parse_bounded(
            text_of(&vars.max_slippage_bps, "100").as_str(),
            u16::MAX as u64,
        ) {
            Some(value) => value as u16,
            None => {
                return Err(LoadError::Unparsable(ConfigVar::MaxSlippageBps));
            },
        };
        let pool_check_interval_ms: u64 = match parse_bounded(
            text_of(&vars.pool_check_interval_ms, "1000").as_str(),
            u64::MAX,
        ) {
            Some(value) => value,
            None => {
                return Err(LoadError::Unparsable(ConfigVar::PoolCheckIntervalMs));
            },
        };
        let max_retries: u32 = match parse_bounded(
            text_of(&vars.max_retries, "3").as_str(),
            u32::MAX as u64,
        ) {
            Some(value) => value as u32,
            None => {
                return Err(LoadError::Unparsable(ConfigVar::MaxRetries));
            },
        };
        let dashboard_port: u16 = match parse_bounded(
            text_of(&vars.dashboard_port, "8080").as_str(),
            u16::MAX as u64,
        ) {
            Some(value) => value as u16,
            None => {
                return Err(LoadError::Unparsable(ConfigVar::DashboardPort));
            },
        };
        let enable_dashboard: bool = match parse_bool(
            text_of(&vars.enable_dashboard, "true").as_str(),
        ) {
            Some(value) => value,
            None => {
                return Err(LoadError::Unparsable(ConfigVar::EnableDashboard));
            },
        };
        let config = Config {
            solana_rpc_url: text_of(&vars.solana_rpc_url, "https://api.mainnet-beta.solana.com"),
            solana_ws_url: text_of(&vars.solana_ws_url, "wss://api.mainnet-beta.solana.com"),
            jupiter_api_url: text_of(&vars.jupiter_api_url, "https://quote-api.jup.ag/v6"),
            moralis_api_key: text_of(&vars.moralis_api_key, ""),
            trade_sol_amount,
            min_profit_threshold,
            slippage_bps,
            max_slippage_bps,
            pool_check_interval_ms,
            max_retries,
            wallet_private_key: text_of(&vars.wallet_private_key, "your_private_key_here"),
            dashboard_port,
            enable_dashboard,
            log_level: text_of(&vars.log_level, "info"),
        };
        match config.validate() {
            Ok(()) => Ok(config),
            Err(error) => Err(LoadError::Invalid(error)),
        }
    }
}

} // verus!
