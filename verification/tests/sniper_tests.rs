use sai_hf_bot::config::{Config, ConfigVars, UNIT};
use sai_hf_bot::event_loop::{PoolData, TradeOpportunity};
use sai_hf_bot::retry::RetryPolicy;
use sai_hf_bot::sniper::{
    read_amount, sendable_amount, AttemptStep, JupiterQuote, QuoteReply, QuoteSource, Sniper,
    SwapReply, TradeError, TradeResult, TradeStep, LIQUIDITY_FLOOR,
};

fn config() -> Config {
    let mut config = Config::from_vars(&ConfigVars::unset()).unwrap();
    config.jupiter_api_url = "https://quote.example/v6".to_string();
    config.min_profit_threshold = (UNIT / 100) as i64;
    config.slippage_bps = 50;
    config
}

fn opportunity(amount_in: i64, expected_amount_out: u64, expected_profit: i64) -> TradeOpportunity {
    TradeOpportunity {
        pool_address: "pool".to_string(),
        token_in: "SOL".to_string(),
        token_out: "USDC".to_string(),
        amount_in,
        expected_amount_out,
        expected_profit,
        timestamp: 1,
    }
}

fn quote(in_amount: &str, out_amount: &str) -> JupiterQuote {
    JupiterQuote {
        input_mint: "SOL".to_string(),
        output_mint: "USDC".to_string(),
        in_amount: in_amount.to_string(),
        out_amount: out_amount.to_string(),
        other_amount_threshold: "0".to_string(),
        swap_mode: "ExactIn".to_string(),
        slippage_bps: 50,
        price_impact_pct: "0.1".to_string(),
    }
}

fn pool(liquidity_a: u64, liquidity_b: u64) -> PoolData {
    PoolData {
        pool_address: "pool".to_string(),
        token_a: "SOL".to_string(),
        token_b: "USDC".to_string(),
        liquidity_a,
        liquidity_b,
        price: 100 * UNIT,
        last_updated: 0,
    }
}

fn no_swap(_order: &sai_hf_bot::sniper::VerifiedOrder) -> SwapReply {
    panic!("the swap must not be asked for")
}

fn no_quote(_url: String) -> QuoteReply {
    panic!("the quote must not be asked for")
}

// Expected profit 1.0, the fresh quote promises 0.7: turned down, no signature.
#[test]
fn a_decayed_profit_is_turned_down() {
    let sniper = Sniper::new(&config());
    let opportunity = opportunity(UNIT as i64, 2 * UNIT, UNIT as i64);
    let result = sniper
        .execute_trade(
            &opportunity,
            |_url| QuoteReply::Quote(quote("1000000000", "1700000000")),
            no_swap,
        )
        .unwrap();
    assert!(!result.success());
    assert_eq!(result.signature(), None);
    assert_eq!(result.error(), Some("Insufficient profit after quote".to_string()));
    assert_eq!(result.amount_in(), 1_000_000_000);
    assert_eq!(result.amount_out(), 0);
    assert_eq!(result.actual_profit(), 0);
    assert_eq!(
        result,
        TradeResult::failed(1_000_000_000, "Insufficient profit after quote".to_string())
    );
}

#[test]
fn test_trade_execution() {
    let sniper = Sniper::new(&config());
    let opportunity = opportunity(UNIT as i64, 2 * UNIT, UNIT as i64);
    let mut asked = String::new();
    let result = sniper
        .execute_trade(
            &opportunity,
            |url| {
                asked = url;
                QuoteReply::Quote(quote("1000000000", "1800000000"))
            },
            |order| {
                assert_eq!(order.source(), QuoteSource::Aggregator);
                assert_eq!(order.quote().out_amount, "1800000000");
                SwapReply::Executed { signature: "sig-1".to_string() }
            },
        )
        .unwrap();
    assert_eq!(
        asked,
        "https://quote.example/v6/quote?inputMint=SOL&outputMint=USDC&amount=1000000000&slippageBps=50"
    );
    assert!(result.success());
    assert_eq!(result.signature(), Some("sig-1".to_string()));
    assert_eq!(result.error(), None);
    assert_eq!(result.amount_in(), 1_000_000_000);
    assert_eq!(result.amount_out(), 1_800_000_000);
    assert_eq!(result.actual_profit(), 800_000_000);
    assert_eq!(
        result,
        TradeResult::succeeded("sig-1".to_string(), 1_000_000_000, 1_800_000_000)
    );
}

#[test]
fn the_profit_check_at_its_edges() {
    let sniper = Sniper::new(&config());
    // expected 1.0: four fifths are 0.8
    let opportunity = opportunity(UNIT as i64, 2 * UNIT, UNIT as i64);
    assert!(sniper.verify_profitability(&quote("1000000000", "1800000000"), &opportunity));
    assert!(!sniper.verify_profitability(&quote("1000000000", "1799999999"), &opportunity));
    assert!(!sniper.verify_profitability(&quote("1000000000", "1700000000"), &opportunity));
    // nothing expected: the threshold of 0.01 decides
    let modest = self::opportunity(UNIT as i64, UNIT, 0);
    assert!(sniper.verify_profitability(&quote("1000000000", "1010000000"), &modest));
    assert!(!sniper.verify_profitability(&quote("1000000000", "1009999999"), &modest));
    // a loss was expected: the threshold still decides
    let loss = self::opportunity(UNIT as i64, UNIT, -5_000_000_000);
    assert!(sniper.verify_profitability(&quote("1000000000", "1010000000"), &loss));
    assert!(!sniper.verify_profitability(&quote("1000000000", "1000000000"), &loss));
    // one base unit of expected profit: four fifths round to nothing less than one
    let tiny = self::opportunity(UNIT as i64, UNIT, 12_500_001);
    assert!(!sniper.verify_profitability(&quote("0", "10000000"), &tiny));
    assert!(sniper.verify_profitability(&quote("0", "10000001"), &tiny));
}

#[test]
fn amounts_that_cannot_be_read() {
    assert_eq!(read_amount("12", 7), 12);
    assert_eq!(read_amount("twelve", 7), 7);
    assert_eq!(read_amount("", 0), 0);
    assert_eq!(read_amount("1.5", 1), 1);
    let sniper = Sniper::new(&config());
    let free = opportunity(UNIT as i64, UNIT, 0);
    // an amount out that cannot be read counts as nothing
    assert!(!sniper.verify_profitability(&quote("0", "much"), &free));
    // an amount in that cannot be read counts as one base unit
    assert!(sniper.verify_profitability(&quote("?", "10000001"), &free));
    assert!(!sniper.verify_profitability(&quote("?", "10000000"), &free));
    // the largest amounts there are
    assert!(sniper.verify_profitability(&quote("0", "18446744073709551615"), &free));
    assert!(!sniper.verify_profitability(&quote("18446744073709551615", "0"), &free));
}

#[test]
fn an_amount_of_zero_or_less_is_an_error() {
    let sniper = Sniper::new(&config());
    for amount in [0, -1, i64::MIN] {
        let bad = opportunity(amount, UNIT, UNIT as i64);
        assert_eq!(sniper.check_opportunity(&bad), Err(TradeError::NonPositiveAmount));
        assert_eq!(sniper.begin_trade(&bad), Err(TradeError::NonPositiveAmount));
        assert_eq!(sniper.execute_trade(&bad, no_quote, no_swap), Err(TradeError::NonPositiveAmount));
        assert_eq!(
            sniper
                .attempt_trade(&RetryPolicy::linear(3, 100), &pool(UNIT, UNIT), &bad)
                .unwrap_err(),
            TradeError::NonPositiveAmount
        );
    }
}

#[test]
fn one_token_on_both_sides_is_an_error() {
    let sniper = Sniper::new(&config());
    let mut same = opportunity(1, UNIT, 0);
    same.token_out = "SOL".to_string();
    assert_eq!(sniper.check_opportunity(&same), Err(TradeError::IdenticalTokens));
    assert_eq!(sniper.execute_trade(&same, no_quote, no_swap), Err(TradeError::IdenticalTokens));
    // the amount is looked at first
    same.amount_in = 0;
    assert_eq!(sniper.check_opportunity(&same), Err(TradeError::NonPositiveAmount));
    assert_eq!(sniper.check_opportunity(&opportunity(1, 0, 0)), Ok(()));
}

#[test]
fn error_messages() {
    assert_eq!(TradeError::NonPositiveAmount.message(), "amount_in must be positive");
    assert_eq!(TradeError::IdenticalTokens.message(), "token_in and token_out must differ");
    assert_eq!(TradeError::InsufficientLiquidity.message(), "pool liquidity is below the floor");
}

#[test]
fn the_address_of_a_quote() {
    let sniper = Sniper::new(&config());
    assert_eq!(
        sniper.quote_url(&opportunity(1_500_000_000, 0, 0)),
        "https://quote.example/v6/quote?inputMint=SOL&outputMint=USDC&amount=1500000000&slippageBps=50"
    );
    // a negative amount is sent as nothing
    assert_eq!(
        sniper.quote_url(&opportunity(-5, 0, 0)),
        "https://quote.example/v6/quote?inputMint=SOL&outputMint=USDC&amount=0&slippageBps=50"
    );
    assert_eq!(sendable_amount(-5), 0);
    assert_eq!(sendable_amount(0), 0);
    assert_eq!(sendable_amount(i64::MAX), i64::MAX as u64);
    assert_eq!(
        sniper.begin_trade(&opportunity(7, 0, 0)),
        Ok("https://quote.example/v6/quote?inputMint=SOL&outputMint=USDC&amount=7&slippageBps=50"
            .to_string())
    );
}

#[test]
fn the_placeholder_quote() {
    let sniper = Sniper::new(&config());
    let made = sniper.create_placeholder_quote(&opportunity(1_000_000_000, 100_000_000_000, 5));
    assert_eq!(
        made,
        JupiterQuote {
            input_mint: "SOL".to_string(),
            output_mint: "USDC".to_string(),
            in_amount: "1000000000".to_string(),
            out_amount: "100000000000".to_string(),
            other_amount_threshold: "0".to_string(),
            swap_mode: "ExactIn".to_string(),
            slippage_bps: 50,
            price_impact_pct: "0.1".to_string(),
        }
    );
    assert_eq!(sniper.create_placeholder_quote(&opportunity(-3, 0, 5)).in_amount, "0");
    assert_eq!(made.clone(), made);
}

#[test]
fn an_aggregator_that_cannot_be_had_is_stood_in_for() {
    let sniper = Sniper::new(&config());
    let opportunity = opportunity(UNIT as i64, 3 * UNIT, UNIT as i64);
    for reply in [
        QuoteReply::Rejected { status: 503 },
        QuoteReply::Unreachable("connection refused".to_string()),
        QuoteReply::TimedOut,
    ] {
        match sniper.on_quote(&opportunity, reply) {
            TradeStep::Submit(order) => {
                assert_eq!(order.source(), QuoteSource::Placeholder);
                assert_eq!(*order.quote(), sniper.create_placeholder_quote(&opportunity));
                let request = order.swap_request("owner-key");
                assert_eq!(request.quote_response, *order.quote());
                assert_eq!(request.user_public_key, "owner-key");
                assert!(request.wrap_unwrap_sol);
            }
            TradeStep::Finished(result) => panic!("ended early: {:?}", result),
        }
    }
    // a placeholder that does not pay is turned down like any quote
    let poor = self::opportunity(UNIT as i64, UNIT, UNIT as i64);
    match sniper.on_quote(&poor, QuoteReply::TimedOut) {
        TradeStep::Finished(result) => {
            assert_eq!(result.error(), Some("Insufficient profit after quote".to_string()));
        }
        TradeStep::Submit(_) => panic!("submitted"),
    }
}

#[test]
fn an_answer_that_cannot_be_read_ends_the_trade() {
    let sniper = Sniper::new(&config());
    let opportunity = opportunity(UNIT as i64, 3 * UNIT, UNIT as i64);
    let result = sniper
        .execute_trade(
            &opportunity,
            |_url| QuoteReply::Malformed("expected value at line 1".to_string()),
            no_swap,
        )
        .unwrap();
    assert_eq!(
        result,
        TradeResult::failed(UNIT as i64, "Quote failed: expected value at line 1".to_string())
    );
}

#[test]
fn a_swap_that_fails_is_a_failed_result() {
    let sniper = Sniper::new(&config());
    let opportunity = opportunity(UNIT as i64, 3 * UNIT, UNIT as i64);
    let good = || QuoteReply::Quote(quote("1000000000", "3000000000"));
    let result = sniper
        .execute_trade(&opportunity, |_| good(), |_| SwapReply::Failed("slippage".to_string()))
        .unwrap();
    assert_eq!(result, TradeResult::failed(UNIT as i64, "Swap failed: slippage".to_string()));
    let result = sniper.execute_trade(&opportunity, |_| good(), |_| SwapReply::TimedOut).unwrap();
    assert_eq!(result, TradeResult::failed(UNIT as i64, "Swap timed out".to_string()));
    assert!(!result.success());
    assert_eq!(result.clone(), result);
}

#[test]
fn amounts_of_a_success_come_from_the_quote() {
    let sniper = Sniper::new(&config());
    let opportunity = opportunity(5, 0, 0);
    // an amount in that cannot be read counts as nothing in the record
    let result = sniper
        .execute_trade(
            &opportunity,
            |_| QuoteReply::Quote(quote("?", "18446744073709551615")),
            |_| SwapReply::Executed { signature: "s".to_string() },
        )
        .unwrap();
    assert!(result.success());
    assert_eq!(result.amount_in(), 0);
    assert_eq!(result.amount_out(), u64::MAX as i128);
    assert_eq!(result.actual_profit(), u64::MAX as i128);
}

#[test]
fn results_are_consistent() {
    let won = TradeResult::succeeded("sig".to_string(), 10, 4);
    assert!(won.success());
    assert_eq!(won.signature(), Some("sig".to_string()));
    assert_eq!(won.error(), None);
    assert_eq!(won.actual_profit(), -6);
    let lost = TradeResult::failed(-3, "why".to_string());
    assert!(!lost.success());
    assert_eq!(lost.signature(), None);
    assert_eq!(lost.error(), Some("why".to_string()));
    assert_eq!(lost.amount_in(), -3);
    assert_eq!(lost.amount_out(), 0);
    assert_eq!(lost.actual_profit(), 0);
}

#[test]
fn which_opportunities_are_worth_an_execution() {
    let sniper = Sniper::new(&config());
    let threshold = sniper.min_profit_threshold();
    assert_eq!(sniper.slippage_bps(), 50);
    assert_eq!(threshold, 10_000_000);
    assert!(sniper.should_snipe(&opportunity(1, 0, threshold)));
    assert!(sniper.should_snipe(&opportunity(1, 0, threshold + 1)));
    assert!(!sniper.should_snipe(&opportunity(1, 0, threshold - 1)));
    assert_eq!(sniper.analyze_with_ai(&opportunity(1, 0, threshold)), Ok(false));
    assert_eq!(sniper.analyze_with_ai(&opportunity(1, 0, threshold + 1)), Ok(true));
}

#[test]
fn a_manual_trade_needs_a_pool_that_holds_enough() {
    let sniper = Sniper::new(&config());
    let policy = RetryPolicy::linear(3, 100);
    let good = opportunity(UNIT as i64, 3 * UNIT, UNIT as i64);
    assert_eq!(LIQUIDITY_FLOOR, UNIT);
    assert_eq!(sniper.check_attempt(&pool(UNIT, UNIT), &good), Ok(()));
    assert_eq!(
        sniper.check_attempt(&pool(UNIT - 1, UNIT), &good),
        Err(TradeError::InsufficientLiquidity)
    );
    assert_eq!(
        sniper.check_attempt(&pool(UNIT, UNIT - 1), &good),
        Err(TradeError::InsufficientLiquidity)
    );
    let mut same = opportunity(UNIT as i64, 3 * UNIT, UNIT as i64);
    same.token_out = "SOL".to_string();
    assert_eq!(sniper.check_attempt(&pool(UNIT, UNIT), &same), Err(TradeError::IdenticalTokens));
    // the pool is looked at before the tokens, the amount before the pool
    assert_eq!(sniper.check_attempt(&pool(0, 0), &same), Err(TradeError::InsufficientLiquidity));
    same.amount_in = 0;
    assert_eq!(sniper.check_attempt(&pool(0, 0), &same), Err(TradeError::NonPositiveAmount));
    match sniper.attempt_trade(&policy, &pool(UNIT, UNIT), &good).unwrap() {
        AttemptStep::RequestQuote { url, attempt } => {
            assert_eq!(attempt, 1);
            assert_eq!(url, sniper.quote_url(&good));
        }
        other => panic!("unexpected step: {:?}", other),
    }
    assert!(sniper.attempt_trade(&policy, &pool(0, UNIT), &good).is_err());
}

// The quote collaborator times out three times in a row, with three attempts
// allowed and a base delay of 100 ms: 100 + 200 ms are waited before the
// failure is final.
#[test]
fn three_timeouts_then_a_final_failure() {
    let sniper = Sniper::new(&config());
    let policy = RetryPolicy::linear(3, 100);
    let good = opportunity(UNIT as i64, 3 * UNIT, UNIT as i64);
    let mut step = sniper.attempt_trade(&policy, &pool(UNIT, UNIT), &good).unwrap();
    let mut attempts = 0;
    let mut waited_ms = 0;
    let mut delays = Vec::new();
    let result = loop {
        step = match step {
            AttemptStep::RequestQuote { attempt, .. } => {
                attempts += 1;
                assert_eq!(attempt, attempts);
                sniper.on_attempt_quote(&policy, &good, attempt, QuoteReply::TimedOut)
            }
            AttemptStep::RetryAfter { delay_ms, url, attempt } => {
                waited_ms += delay_ms;
                delays.push(delay_ms);
                AttemptStep::RequestQuote { url, attempt }
            }
            AttemptStep::Submit { .. } => panic!("nothing to submit"),
            AttemptStep::Finished(result) => break result,
        };
    };
    assert_eq!(attempts, 3);
    assert_eq!(delays, vec![100, 200]);
    assert!(waited_ms >= 100 + 200);
    assert_eq!(waited_ms, 300);
    assert_eq!(
        result,
        TradeResult::failed(UNIT as i64, "Retries exhausted: Quote timed out".to_string())
    );
}

fn run_failing(policy: &RetryPolicy, reply: fn() -> QuoteReply) -> (u32, u64, TradeResult) {
    let sniper = Sniper::new(&config());
    let good = opportunity(UNIT as i64, 3 * UNIT, UNIT as i64);
    let mut step = sniper.attempt_trade(policy, &pool(UNIT, UNIT), &good).unwrap();
    let mut attempts = 0;
    let mut waited_ms = 0;
    loop {
        step = match step {
            AttemptStep::RequestQuote { attempt, .. } => {
                attempts += 1;
                sniper.on_attempt_quote(policy, &good, attempt, reply())
            }
            AttemptStep::RetryAfter { delay_ms, url, attempt } => {
                waited_ms += delay_ms;
                AttemptStep::RequestQuote { url, attempt }
            }
            AttemptStep::Submit { .. } => panic!("nothing to submit"),
            AttemptStep::Finished(result) => return (attempts, waited_ms, result),
        };
    }
}

#[test]
fn a_path_that_always_fails_is_tried_as_often_as_allowed() {
    for max in [0u32, 1, 2, 3, 7, 20] {
        let (attempts, waited, result) =
            run_failing(&RetryPolicy::linear(max, 10), || QuoteReply::Rejected { status: 429 });
        assert_eq!(attempts, max);
        assert_eq!(waited, 10 * (max as u64) * (max.max(1) as u64 - 1) / 2);
        assert!(!result.success());
        if max == 0 {
            assert_eq!(result.error(), Some("Retries exhausted: no attempt allowed".to_string()));
        } else {
            assert_eq!(
                result.error(),
                Some("Retries exhausted: Quote rejected with status 429".to_string())
            );
        }
    }
    let (attempts, waited, result) = run_failing(&RetryPolicy::exponential(4, 100), || {
        QuoteReply::Unreachable("dns".to_string())
    });
    assert_eq!(attempts, 4);
    assert_eq!(waited, 100 + 200 + 400);
    assert_eq!(result.error(), Some("Retries exhausted: Quote failed: dns".to_string()));
    let (_, _, result) =
        run_failing(&RetryPolicy::linear(1, 1), || QuoteReply::Malformed("eof".to_string()));
    assert_eq!(result.error(), Some("Retries exhausted: Quote failed: eof".to_string()));
}

#[test]
fn a_manual_trade_that_goes_through_on_the_second_attempt() {
    let sniper = Sniper::new(&config());
    let policy = RetryPolicy::linear(3, 100);
    let good = opportunity(UNIT as i64, 3 * UNIT, UNIT as i64);
    let first = sniper.on_attempt_quote(
        &policy,
        &good,
        1,
        QuoteReply::Quote(quote("1000000000", "3000000000")),
    );
    let order = match first {
        AttemptStep::Submit { order, attempt } => {
            assert_eq!(attempt, 1);
            assert_eq!(order.source(), QuoteSource::Aggregator);
            order
        }
        other => panic!("unexpected step: {:?}", other),
    };
    match sniper.on_attempt_swap(&policy, &good, 1, order, SwapReply::Failed("busy".to_string())) {
        AttemptStep::RetryAfter { delay_ms, url, attempt } => {
            assert_eq!(delay_ms, 100);
            assert_eq!(attempt, 2);
            assert_eq!(url, sniper.quote_url(&good));
        }
        other => panic!("unexpected step: {:?}", other),
    }
    let order = match sniper.on_attempt_quote(
        &policy,
        &good,
        2,
        QuoteReply::Quote(quote("1000000000", "2900000000")),
    ) {
        AttemptStep::Submit { order, .. } => order,
        other => panic!("unexpected step: {:?}", other),
    };
    match sniper.on_attempt_swap(
        &policy,
        &good,
        2,
        order,
        SwapReply::Executed { signature: "sig-2".to_string() },
    ) {
        AttemptStep::Finished(result) => {
            assert_eq!(
                result,
                TradeResult::succeeded("sig-2".to_string(), 1_000_000_000, 2_900_000_000)
            );
        }
        other => panic!("unexpected step: {:?}", other),
    }
}

#[test]
fn a_manual_trade_that_does_not_pay_is_not_tried_again() {
    let sniper = Sniper::new(&config());
    let policy = RetryPolicy::linear(3, 100);
    let good = opportunity(UNIT as i64, 3 * UNIT, UNIT as i64);
    match sniper.on_attempt_quote(
        &policy,
        &good,
        1,
        QuoteReply::Quote(quote("1000000000", "1700000000")),
    ) {
        AttemptStep::Finished(result) => {
            assert_eq!(
                result,
                TradeResult::failed(UNIT as i64, "Insufficient profit after quote".to_string())
            );
        }
        other => panic!("unexpected step: {:?}", other),
    }
    // the last attempt allowed: a failed swap is final
    let order = match sniper.on_attempt_quote(
        &policy,
        &good,
        3,
        QuoteReply::Quote(quote("1000000000", "3000000000")),
    ) {
        AttemptStep::Submit { order, .. } => order,
        other => panic!("unexpected step: {:?}", other),
    };
    match sniper.on_attempt_swap(&policy, &good, 3, order, SwapReply::TimedOut) {
        AttemptStep::Finished(result) => {
            assert_eq!(
                result,
                TradeResult::failed(UNIT as i64, "Retries exhausted: Swap timed out".to_string())
            );
        }
        other => panic!("unexpected step: {:?}", other),
    }
}
