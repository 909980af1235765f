use ibkr_bot::account::{resolve_balance, resolve_position, PositionEvent, SummaryEvent};
use ibkr_bot::errors::TradeError;

fn row(tag: &str, currency: &str, value: &str) -> SummaryEvent {
    SummaryEvent::Summary {
        tag: tag.to_string(),
        currency: currency.to_string(),
        value: value.to_string(),
    }
}

#[test]
fn balance_takes_first_matching_row() {
    let events = vec![
        row("CashBalance", "USD", "42.00"),
        row("NetLiquidation", "AUD", "9.99"),
        row("CashBalance", "AUD", "1000.00"),
        row("CashBalance", "AUD", "7.77"),
    ];
    let value = resolve_balance(&events, "CashBalance", "AUD").unwrap();
    assert_eq!(value, "1000.00");
}

#[test]
fn balance_end_marker_before_match_fails() {
    let events = vec![row("CashBalance", "USD", "42.00"), SummaryEvent::End];
    assert_eq!(
        resolve_balance(&events, "CashBalance", "AUD").unwrap_err(),
        TradeError::NoBalance
    );
}

#[test]
fn balance_stream_end_without_match_fails() {
    let events = vec![row("CashBalance", "USD", "42.00")];
    assert_eq!(
        resolve_balance(&events, "CashBalance", "AUD").unwrap_err(),
        TradeError::StreamEnded
    );
    assert_eq!(
        resolve_balance(&vec![], "CashBalance", "AUD").unwrap_err(),
        TradeError::StreamEnded
    );
}

#[test]
fn position_takes_first_matching_contract() {
    let events = vec![
        PositionEvent::Position { contract_id: 1, shares: 5 },
        PositionEvent::Position { contract_id: 4036812, shares: 100 },
        PositionEvent::Position { contract_id: 4036812, shares: 7 },
    ];
    assert_eq!(resolve_position(&events, 4036812).unwrap(), 100);
}

#[test]
fn position_end_marker_before_match_fails() {
    let events = vec![
        PositionEvent::Position { contract_id: 1, shares: 5 },
        PositionEvent::End,
    ];
    assert_eq!(resolve_position(&events, 4036812).unwrap_err(), TradeError::NoPosition);
}

#[test]
fn position_stream_end_without_match_fails() {
    assert_eq!(resolve_position(&vec![], 4036812).unwrap_err(), TradeError::StreamEnded);
}
