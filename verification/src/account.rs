use vstd::prelude::*;

use crate::errors::TradeError;
use crate::text::str_eq;

verus! {

/// One account-summary event reduced to plain values.
#[derive(Debug, Clone)]
pub enum SummaryEvent {
    /// One summary row: its tag, the currency it is expressed in, and its
    /// textual value.
    Summary { tag: String, currency: String, value: String },
    /// The end marker of a summary batch.
    End,
}

/// One position event reduced to plain values: the share count is reported
/// for the contract it belongs to.
#[derive(Debug, Clone, Copy, PartialEq, Eq)]
pub enum PositionEvent {
    /// One position row: the contract it is for and the held share count.
    Position { contract_id: i32, shares: i64 },
    /// The end marker of a position batch.
    End,
}

/// What one summary event means for a balance query: nothing (keep
/// scanning), the value of the first row matching tag and currency, or the
/// end marker before any match.
pub open spec fn spec_balance_step(
    tag: Seq<char>,
    currency: Seq<char>,
    ev: SummaryEvent,
) -> Option<Result<Seq<char>, TradeError>> {
    match ev {
        SummaryEvent::End => Some(Err(TradeError::NoBalance)),
        SummaryEvent::Summary { tag: t, currency: c, value: v } => if t@ == tag && c@
            == currency {
            Some(Ok(v@))
        } else {
            None
        },
    }
}

/// What a finite summary event sequence yields: the first decisive event
/// wins, and a sequence that ends without one is itself a failure.
pub open spec fn spec_balance_outcome(
    events: Seq<SummaryEvent>,
    tag: Seq<char>,
    currency: Seq<char>,
) -> Result<Seq<char>, TradeError>
    decreases events.len(),
{
    if events.len() == 0 {
        Err(TradeError::StreamEnded)
    } else {
        match spec_balance_step(tag, currency, events[0]) {
            Some(out) => out,
            None => spec_balance_outcome(events.drop_first(), tag, currency),
        }
    }
}

/// Classify one account-summary event for a balance query.
pub fn balance_step(tag: &str, currency: &str, ev: &SummaryEvent) -> (r: Option<
    Result<String, TradeError>,
>)
    ensures
        match spec_balance_step(tag@, currency@, *ev) {
            None => r is None,
            Some(Err(e)) => r == Some(Err::<String, TradeError>(e)),
            Some(Ok(v)) => r matches Some(Ok(s)) && s@ == v,
        },
{
    match ev {
        SummaryEvent::End => Some(Err(TradeError::NoBalance)),
        SummaryEvent::Summary { tag: t, currency: c, value: v } => {
            if str_eq(t.as_str(), tag) && str_eq(c.as_str(), currency) {
                Some(Ok(v.clone()))
            } else {
                None
            }
        },
    }
}

/// Scan an already-delivered summary sequence for the requested balance, in
/// delivery order, stopping at the first decisive event.
pub fn resolve_balance(events: &Vec<SummaryEvent>, tag: &str, currency: &str) -> (r: Result<
    String,
    TradeError,
>)
    ensures
        match spec_balance_outcome(events@, tag@, currency@) {
            Err(e) => r == Err::<String, TradeError>(e),
            Ok(v) => r matches Ok(s) && s@ == v,
        },
{
    let n = events.len();
    proof {
        assert(events@.skip(0) =~= events@);
    }
    for i in 0..n
        invariant
            n == events@.len(),
            spec_balance_outcome(events@, tag@, currency@) == spec_balance_outcome(
                events@.skip(i as int),
                tag@,
                currency@,
            ),
    {
        proof {
            assert(events@.skip(i as int)[0] == events@[i as int]);
            assert(events@.skip(i as int).drop_first() =~= events@.skip(i as int + 1));
        }
        match balance_step(tag, currency, &events[i]) {
            Some(out) => {
                return out;
            },
            None => {},
        }
    }
    proof {
        assert(events@.skip(n as int) =~= Seq::<SummaryEvent>::empty());
    }
    Err(TradeError::StreamEnded)
}

/// What one position event means for a position query: nothing (keep
/// scanning), the share count of the first row for the contract, or the end
/// marker before any match.
pub open spec fn spec_position_step(target_id: i32, ev: PositionEvent) -> Option<
    Result<i64, TradeError>,
> {
    match ev {
        PositionEvent::End => Some(Err(TradeError::NoPosition)),
        PositionEvent::Position { contract_id, shares } => if contract_id == target_id {
            Some(Ok(shares))
        } else {
            None
        },
    }
}

/// What a finite position event sequence yields.
pub open spec fn spec_position_outcome(events: Seq<PositionEvent>, target_id: i32) -> Result<
    i64,
    TradeError,
>
    decreases events.len(),
{
    if events.len() == 0 {
        Err(TradeError::StreamEnded)
    } else {
        match spec_position_step(target_id, events[0]) {
            Some(out) => out,
            None => spec_position_outcome(events.drop_first(), target_id),
        }
    }
}

/// Classify one position event for a position query.
pub fn position_step(target_id: i32, ev: &PositionEvent) -> (r: Option<Result<i64, TradeError>>)
    ensures
        r == spec_position_step(target_id, *ev),
{
    match ev {
        PositionEvent::End => Some(Err(TradeError::NoPosition)),
        PositionEvent::Position { contract_id, shares } => {
            if *contract_id == target_id {
                Some(Ok(*shares))
            } else {
                None
            }
        },
    }
}

/// Scan an already-delivered position sequence for the contract's share
/// count, in delivery order, stopping at the first decisive event.
pub fn resolve_position(events: &Vec<PositionEvent>, target_id: i32) -> (r: Result<
    i64,
    TradeError,
>)
    ensures
        r == spec_position_outcome(events@, target_id),
{
    let n = events.len();
    proof {
        assert(events@.skip(0) =~= events@);
    }
    for i in 0..n
        invariant
            n == events@.len(),
            spec_position_outcome(events@, target_id) == spec_position_outcome(
                events@.skip(i as int),
                target_id,
            ),
    {
        proof {
            assert(events@.skip(i as int)[0] == events@[i as int]);
            assert(events@.skip(i as int).drop_first() =~= events@.skip(i as int + 1));
        }
        match position_step(target_id, &events[i]) {
            Some(out) => {
                return out;
            },
            None => {},
        }
    }
    proof {
        assert(events@.skip(n as int) =~= Seq::<PositionEvent>::empty());
    }
    Err(TradeError::StreamEnded)
}

} // verus!
