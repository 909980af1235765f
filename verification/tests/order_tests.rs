use ibkr_bot::errors::TradeError;
use ibkr_bot::orders::{
    check_amount, check_funds, check_position, last_bar_close, max_shares, settle_buy,
    settle_sell, signal_delta, validate_starting_balance, verify_bar_order, Bar,
};

#[test]
fn buy_rejects_non_positive_amount() {
    assert_eq!(check_amount(0).unwrap_err(), TradeError::InvalidAmount);
    assert_eq!(check_amount(-500).unwrap_err(), TradeError::InvalidAmount);
    assert!(check_amount(1).is_ok());
}

#[test]
fn buy_rejects_amount_over_balance() {
    assert_eq!(check_funds(100_000, 99_999).unwrap_err(), TradeError::InsufficientFunds);
    assert!(check_funds(100_000, 100_000).is_ok());
}

#[test]
fn sell_rejects_non_positive_amount() {
    assert_eq!(check_amount(0).unwrap_err(), TradeError::InvalidAmount);
    assert_eq!(check_amount(-3).unwrap_err(), TradeError::InvalidAmount);
}

#[test]
fn sell_rejects_amount_over_position() {
    assert_eq!(check_position(101, 100).unwrap_err(), TradeError::InsufficientShares);
    assert!(check_position(100, 100).is_ok());
}

#[test]
fn buy_quantity_is_floor_of_amount_over_last_close() {
    // Two daily bars oldest first: previous close 100.00, last close 105.00.
    let bars = vec![
        Bar { date: 20240101, close: 10_000 },
        Bar { date: 20240102, close: 10_500 },
    ];
    let last = last_bar_close(&bars).expect("bars are ordered and priced");
    assert_eq!(last, 10_500);
    // 1000.00 AUD at 105.00 a share affords exactly 9 shares.
    assert_eq!(max_shares(100_000, last), 9);
}

#[test]
fn newest_first_bars_are_rejected_not_inverted() {
    // If the bars came newest first, using them would invert the signal;
    // both consumers must error out instead.
    let bars = vec![
        Bar { date: 20240102, close: 10_500 },
        Bar { date: 20240101, close: 10_000 },
    ];
    assert!(!verify_bar_order(&bars));
    assert_eq!(last_bar_close(&bars).unwrap_err(), TradeError::BarsOutOfOrder);
    assert_eq!(signal_delta(&bars).unwrap_err(), TradeError::BarsOutOfOrder);
}

#[test]
fn signal_is_last_close_minus_previous_close() {
    let bars = vec![
        Bar { date: 20240101, close: 10_000 },
        Bar { date: 20240102, close: 10_500 },
    ];
    assert_eq!(signal_delta(&bars).unwrap(), 500);
    let down = vec![
        Bar { date: 20240101, close: 10_500 },
        Bar { date: 20240102, close: 10_000 },
    ];
    assert_eq!(signal_delta(&down).unwrap(), -500);
}

#[test]
fn signal_needs_exactly_two_bars() {
    assert_eq!(
        signal_delta(&vec![Bar { date: 1, close: 10 }]).unwrap_err(),
        TradeError::WrongBarCount
    );
    let three = vec![
        Bar { date: 1, close: 10 },
        Bar { date: 2, close: 11 },
        Bar { date: 3, close: 12 },
    ];
    assert_eq!(signal_delta(&three).unwrap_err(), TradeError::WrongBarCount);
}

#[test]
fn empty_or_unpriced_bars_are_rejected() {
    assert_eq!(last_bar_close(&vec![]).unwrap_err(), TradeError::NoBars);
    let zero = vec![Bar { date: 1, close: 0 }];
    assert_eq!(last_bar_close(&zero).unwrap_err(), TradeError::InvalidPrice);
}

#[test]
fn settle_buy_requires_cash_to_decrease() {
    let o = settle_buy(100_000, 5_000, 9).expect("cash decreased");
    assert_eq!(o.aud_delta, -95_000);
    assert_eq!(o.share_delta, 9);
    assert_eq!(settle_buy(100_000, 100_000, 9).unwrap_err(), TradeError::NonPositiveDelta);
    assert_eq!(settle_buy(100_000, 100_001, 9).unwrap_err(), TradeError::NonPositiveDelta);
}

#[test]
fn settle_sell_requires_cash_to_increase() {
    let o = settle_sell(5_000, 106_000, 9).expect("cash increased");
    assert_eq!(o.aud_delta, 101_000);
    assert_eq!(o.share_delta, -9);
    assert_eq!(settle_sell(5_000, 5_000, 9).unwrap_err(), TradeError::NonPositiveDelta);
    assert_eq!(settle_sell(5_000, 4_000, 9).unwrap_err(), TradeError::NonPositiveDelta);
}

#[test]
fn starting_balance_must_be_covered() {
    assert!(validate_starting_balance(100_000, 100_000).is_ok());
    assert_eq!(
        validate_starting_balance(100_000, 99_999).unwrap_err(),
        TradeError::InsufficientFunds
    );
}
