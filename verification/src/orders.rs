use vstd::prelude::*;

use crate::errors::{is_validation_error, TradeError};

verus! {

/// One daily price bar: the day it covers (as reported by the exchange, any
/// strictly increasing day encoding) and its closing price in cents.
#[derive(Debug, Clone, Copy, PartialEq, Eq, Structural)]
pub struct Bar {
    pub date: i64,
    pub close: i64,
}

/// A price is never negative.
pub open spec fn bar_wf(b: Bar) -> bool {
    0 <= b.close
}

/// Bars run oldest first: strictly increasing dates.
pub open spec fn oldest_first(bars: Seq<Bar>) -> bool {
    forall|i: int, j: int| 0 <= i < j < bars.len() ==> bars[i].date < bars[j].date
}

/// The realized effect of one filled order on the ledger: signed cash and
/// share deltas.
#[derive(Debug, Clone, Copy, PartialEq, Eq, Structural)]
pub struct OrderOutcome {
    pub aud_delta: i64,
    pub share_delta: i64,
}

/// An order amount must be strictly positive.
pub fn check_amount(amount: i64) -> (r: Result<(), TradeError>)
    ensures
        r is Ok <==> 0 < amount,
        amount <= 0 ==> r == Err::<(), TradeError>(TradeError::InvalidAmount),
        r matches Err(e) ==> is_validation_error(e),
{
    if amount > 0 {
        Ok(())
    } else {
        Err(TradeError::InvalidAmount)
    }
}

/// The queried cash balance must cover the requested buy amount.
pub fn check_funds(amount_cents: i64, cash_balance_cents: i64) -> (r: Result<(), TradeError>)
    ensures
        r is Ok <==> amount_cents <= cash_balance_cents,
        cash_balance_cents < amount_cents ==> r == Err::<(), TradeError>(
            TradeError::InsufficientFunds,
        ),
        r matches Err(e) ==> is_validation_error(e),
{
    if cash_balance_cents < amount_cents {
        Err(TradeError::InsufficientFunds)
    } else {
        Ok(())
    }
}

/// The queried position must cover the requested sell amount.
pub fn check_position(share_amount: i64, position: i64) -> (r: Result<(), TradeError>)
    ensures
        r is Ok <==> share_amount <= position,
        position < share_amount ==> r == Err::<(), TradeError>(TradeError::InsufficientShares),
        r matches Err(e) ==> is_validation_error(e),
{
    if position < share_amount {
        Err(TradeError::InsufficientShares)
    } else {
        Ok(())
    }
}

/// Whether bars run oldest first.
pub fn verify_bar_order(bars: &Vec<Bar>) -> (r: bool)
    ensures
        r == oldest_first(bars@),
{
    let n = bars.len();
    if n == 0 {
        return true;
    }
    for k in 1..n
        invariant
            n == bars@.len(),
            1 <= n,
            forall|a: int, b: int| 0 <= a < b < k ==> bars@[a].date < bars@[b].date,
    {
        if bars[k - 1].date >= bars[k].date {
            assert(!oldest_first(bars@));
            return false;
        }
    }
    true
}

/// The most recent closing price of an oldest-first bar sequence: the order
/// is checked, never assumed, and the price must be strictly positive to be
/// usable for quantity computation.
pub fn last_bar_close(bars: &Vec<Bar>) -> (r: Result<i64, TradeError>)
    ensures
        bars@.len() == 0 ==> r == Err::<i64, TradeError>(TradeError::NoBars),
        bars@.len() > 0 && !oldest_first(bars@) ==> r == Err::<i64, TradeError>(
            TradeError::BarsOutOfOrder,
        ),
        bars@.len() > 0 && oldest_first(bars@) && bars@.last().close <= 0 ==> r == Err::<
            i64,
            TradeError,
        >(TradeError::InvalidPrice),
        bars@.len() > 0 && oldest_first(bars@) && bars@.last().close > 0 ==> r == Ok::<
            i64,
            TradeError,
        >(bars@.last().close),
{
    if bars.len() == 0 {
        return Err(TradeError::NoBars);
    }
    if !verify_bar_order(bars) {
        return Err(TradeError::BarsOutOfOrder);
    }
    let close = bars[bars.len() - 1].close;
    if close <= 0 {
        return Err(TradeError::InvalidPrice);
    }
    Ok(close)
}

/// The share quantity a buy amount affords at the given price: the floor of
/// their ratio.
pub fn max_shares(amount_cents: i64, last_close_cents: i64) -> (r: i64)
    requires
        0 < amount_cents,
        0 < last_close_cents,
    ensures
        r == amount_cents as int / last_close_cents as int,
{
    amount_cents / last_close_cents
}

/// The market signal over exactly two oldest-first daily bars: the most
/// recent close minus the previous close. The bar order is checked, never
/// assumed, so a newest-first feed is rejected rather than inverting the
/// signal.
pub fn signal_delta(bars: &Vec<Bar>) -> (r: Result<i64, TradeError>)
    requires
        forall|i: int| 0 <= i < bars@.len() ==> bar_wf(#[trigger] bars@[i]),
    ensures
        bars@.len() != 2 ==> r == Err::<i64, TradeError>(TradeError::WrongBarCount),
        bars@.len() == 2 && !oldest_first(bars@) ==> r == Err::<i64, TradeError>(
            TradeError::BarsOutOfOrder,
        ),
        bars@.len() == 2 && oldest_first(bars@) ==> r == Ok::<i64, TradeError>(
            (bars@[1].close - bars@[0].close) as i64,
        ),
{
    if bars.len() != 2 {
        return Err(TradeError::WrongBarCount);
    }
    if !verify_bar_order(bars) {
        return Err(TradeError::BarsOutOfOrder);
    }
    Ok(bars[1].close - bars[0].close)
}

/// Post-fill check for a buy: cash must have strictly decreased, else the
/// ledger estimate has diverged from reality and the fill is reported
/// inconsistent, never silently accepted.
pub fn settle_buy(balance_before: i64, balance_after: i64, shares: i64) -> (r: Result<
    OrderOutcome,
    TradeError,
>)
    requires
        0 <= balance_before,
        0 <= balance_after,
    ensures
        r is Ok <==> balance_after < balance_before,
        r matches Ok(o) ==> o.aud_delta == balance_after - balance_before && o.share_delta
            == shares,
        balance_before <= balance_after ==> r == Err::<OrderOutcome, TradeError>(
            TradeError::NonPositiveDelta,
        ),
{
    if balance_after < balance_before {
        Ok(OrderOutcome { aud_delta: balance_after - balance_before, share_delta: shares })
    } else {
        Err(TradeError::NonPositiveDelta)
    }
}

/// Post-fill check for a sell: cash must have strictly increased, else the
/// fill is reported inconsistent.
pub fn settle_sell(balance_before: i64, balance_after: i64, shares_sold: i64) -> (r: Result<
    OrderOutcome,
    TradeError,
>)
    requires
        0 <= balance_before,
        0 <= balance_after,
        0 <= shares_sold,
    ensures
        r is Ok <==> balance_before < balance_after,
        r matches Ok(o) ==> o.aud_delta == balance_after - balance_before && o.share_delta == -(
        shares_sold as int),
        balance_after <= balance_before ==> r == Err::<OrderOutcome, TradeError>(
            TradeError::NonPositiveDelta,
        ),
{
    if balance_before < balance_after {
        Ok(OrderOutcome { aud_delta: balance_after - balance_before, share_delta: -shares_sold })
    } else {
        Err(TradeError::NonPositiveDelta)
    }
}

/// Startup gate: the configured starting balance must be covered by the real
/// account balance, else the process must not start trading.
pub fn validate_starting_balance(starting_cents: i64, real_balance_cents: i64) -> (r: Result<
    (),
    TradeError,
>)
    ensures
        r is Ok <==> starting_cents <= real_balance_cents,
        real_balance_cents < starting_cents ==> r == Err::<(), TradeError>(
            TradeError::InsufficientFunds,
        ),
{
    if real_balance_cents < starting_cents {
        Err(TradeError::InsufficientFunds)
    } else {
        Ok(())
    }
}

} // verus!
