//! Core logic of a daily single-exchange trading bot: the session calendar
//! derived from a raw trading-hours feed, the order-executor decision rules,
//! the fill-await state machine, and the cycle controller that sequences one
//! trading day with an explicit recoverable-versus-fatal failure policy.

pub mod account;
pub mod calendar;
pub mod cycle;
pub mod errors;
pub mod fill;
pub mod orders;
pub mod text;
