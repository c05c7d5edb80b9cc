use sai_hf_bot::api::{
    respond, TradeHistory, STATUS_BAD_REQUEST, STATUS_INTERNAL_SERVER_ERROR, STATUS_OK,
};
use sai_hf_bot::event_loop::TradeOpportunity;
use sai_hf_bot::sniper::{TradeError, TradeResult};

fn opportunity(amount_in: i64) -> TradeOpportunity {
    TradeOpportunity {
        pool_address: "pool".to_string(),
        token_in: "SOL".to_string(),
        token_out: "USDC".to_string(),
        amount_in,
        expected_amount_out: 0,
        expected_profit: 0,
        timestamp: 0,
    }
}

#[test]
fn statuses() {
    assert_eq!(STATUS_OK, 200);
    assert_eq!(STATUS_BAD_REQUEST, 400);
    assert_eq!(STATUS_INTERNAL_SERVER_ERROR, 500);
}

#[test]
fn a_trade_that_went_through_is_answered_with_200() {
    let result = TradeResult::succeeded("sig".to_string(), 10, 15);
    let response = respond(&opportunity(10), Ok(result.clone()));
    assert_eq!(response.status, 200);
    assert_eq!(response.body, result);
}

#[test]
fn a_trade_that_was_turned_down_is_answered_with_400() {
    let result = TradeResult::failed(10, "Insufficient profit after quote".to_string());
    let response = respond(&opportunity(10), Ok(result.clone()));
    assert_eq!(response.status, 400);
    assert_eq!(response.body, result);
}

#[test]
fn an_error_is_answered_with_500() {
    let response = respond(&opportunity(-4), Err(TradeError::NonPositiveAmount));
    assert_eq!(response.status, 500);
    assert_eq!(
        response.body,
        TradeResult::failed(-4, "amount_in must be positive".to_string())
    );
    let response = respond(&opportunity(4), Err(TradeError::IdenticalTokens));
    assert_eq!(response.status, 500);
    assert_eq!(response.body.error(), Some("token_in and token_out must differ".to_string()));
    assert!(!response.body.success());
}

#[test]
fn the_history_keeps_the_trades_that_went_through() {
    let mut history = TradeHistory::new();
    assert_eq!(history.len(), 0);
    let first = TradeResult::succeeded("a".to_string(), 1, 2);
    let second = TradeResult::succeeded("b".to_string(), 3, 4);
    history.record(&respond(&opportunity(1), Ok(first.clone())));
    history.record(&respond(
        &opportunity(1),
        Ok(TradeResult::failed(1, "turned down".to_string())),
    ));
    history.record(&respond(&opportunity(1), Err(TradeError::IdenticalTokens)));
    history.record(&respond(&opportunity(3), Ok(second.clone())));
    assert_eq!(history.len(), 2);
    assert_eq!(history.trades(), vec![first, second]);
    assert!(history.trades().iter().all(|trade| trade.success()));
}

#[test]
fn an_answer_with_a_made_up_status_is_not_recorded() {
    let mut history = TradeHistory::new();
    let mut response = respond(&opportunity(1), Ok(TradeResult::failed(1, "no".to_string())));
    response.status = 200;
    history.record(&response);
    assert_eq!(history.len(), 0);
    let mut response = respond(
        &opportunity(1),
        Ok(TradeResult::succeeded("sig".to_string(), 1, 2)),
    );
    response.status = 400;
    history.record(&response);
    assert_eq!(history.len(), 0);
}
