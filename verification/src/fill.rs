use vstd::prelude::*;

use crate::errors::TradeError;
use crate::text::{str_eq, views_of};

verus! {

/// What one order-status event means for an awaited order.
#[derive(Debug, Clone, Copy, PartialEq, Eq, Structural)]
pub enum FillStep {
    /// Not terminal: keep waiting. Unknown status strings land here too.
    Pending,
    /// Terminal success: the order is fully executed.
    Done,
    /// Terminal failure: the order was cancelled by either side.
    Cancelled,
}

/// Classification of one status string. `Filled` is the only success;
/// `Cancelled` and `ApiCancelled` are the only failures; everything else,
/// known or unknown, is non-terminal.
pub open spec fn spec_fill_step(s: Seq<char>) -> FillStep {
    if s == "Filled"@ {
        FillStep::Done
    } else if s == "Cancelled"@ || s == "ApiCancelled"@ {
        FillStep::Cancelled
    } else {
        FillStep::Pending
    }
}

/// Classify one order-status string.
pub fn fill_step(status: &str) -> (r: FillStep)
    ensures
        r == spec_fill_step(status@),
{
    if str_eq(status, "Filled") {
        FillStep::Done
    } else if str_eq(status, "Cancelled") {
        FillStep::Cancelled
    } else if str_eq(status, "ApiCancelled") {
        FillStep::Cancelled
    } else {
        FillStep::Pending
    }
}

/// The outcome the fill-await loop reports for a finite status sequence: the
/// first terminal status decides, later events are never observed, and a
/// sequence that ends without a terminal status is itself a failure.
pub open spec fn spec_fill_outcome(statuses: Seq<Seq<char>>) -> Result<(), TradeError>
    decreases statuses.len(),
{
    if statuses.len() == 0 {
        Err(TradeError::StreamEnded)
    } else {
        match spec_fill_step(statuses[0]) {
            FillStep::Done => Ok(()),
            FillStep::Cancelled => Err(TradeError::OrderCancelled),
            FillStep::Pending => spec_fill_outcome(statuses.drop_first()),
        }
    }
}

/// Drive the fill state machine over an already-delivered status sequence,
/// in delivery order, stopping at the first terminal status.
pub fn resolve_fill(statuses: &Vec<String>) -> (r: Result<(), TradeError>)
    ensures
        r == spec_fill_outcome(views_of(statuses@)),
{
    let ghost vs = views_of(statuses@);
    proof {
        assert(vs.skip(0) =~= vs);
    }
    let n = statuses.len();
    for i in 0..n
        invariant
            n == statuses@.len(),
            vs == views_of(statuses@),
            spec_fill_outcome(vs) == spec_fill_outcome(vs.skip(i as int)),
    {
        proof {
            assert(vs.skip(i as int)[0] == statuses@[i as int]@);
            assert(vs.skip(i as int).drop_first() =~= vs.skip(i as int + 1));
        }
        match fill_step(statuses[i].as_str()) {
            FillStep::Done => {
                return Ok(());
            },
            FillStep::Cancelled => {
                return Err(TradeError::OrderCancelled);
            },
            FillStep::Pending => {},
        }
    }
    proof {
        assert(vs.skip(n as int) =~= Seq::<Seq<char>>::empty());
    }
    Err(TradeError::StreamEnded)
}

} // verus!
