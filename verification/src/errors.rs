use vstd::prelude::*;

verus! {

/// Why a raw trading-hours feed was rejected. Any of these is fatal for the
/// whole feed: the calendar is not constructed from partially good data.
#[derive(Debug, Clone, Copy, PartialEq, Eq, Structural)]
pub enum ParseError {
    /// The declared timezone is not the exchange's timezone.
    TimezoneMismatch,
    /// An entry does not have the `YYYYMMDD:<time-spec>` shape.
    MalformedEntry,
    /// A local session time did not resolve to a unique absolute instant.
    UnresolvableLocalTime,
}

/// Why a trade-side operation was refused or reported failure.
#[derive(Debug, Clone, Copy, PartialEq, Eq, Structural)]
pub enum TradeError {
    /// A requested amount was not strictly positive.
    InvalidAmount,
    /// The queried cash balance does not cover the requested amount.
    InsufficientFunds,
    /// The queried position does not cover the requested share amount.
    InsufficientShares,
    /// No price bars were returned.
    NoBars,
    /// A different number of price bars than required was returned.
    WrongBarCount,
    /// The price bars were not ordered oldest first.
    BarsOutOfOrder,
    /// The most recent closing price was not strictly positive.
    InvalidPrice,
    /// The realized balance change after a fill had the wrong sign.
    NonPositiveDelta,
    /// The order was cancelled before it filled.
    OrderCancelled,
    /// A summary batch ended before any row matched the queried balance.
    NoBalance,
    /// A position batch ended before any row matched the queried contract.
    NoPosition,
    /// The status stream ended without reaching a terminal status.
    StreamEnded,
}

/// The errors that reject a request before any order is placed.
pub open spec fn is_validation_error(e: TradeError) -> bool {
    e == TradeError::InvalidAmount || e == TradeError::InsufficientFunds
        || e == TradeError::InsufficientShares
}

} // verus!
