use vstd::prelude::*;

use crate::calendar::Hours;
use crate::orders::OrderOutcome;

verus! {

/// One phase of the daily trading cycle. The failure policy is a property of
/// the phase: before capital is committed an adverse event abandons only the
/// current iteration; from `Holding` on it stops the whole process.
#[derive(Debug, Clone, Copy, PartialEq, Eq, Structural)]
pub enum Phase {
    /// Between iterations: cancelling stale orders and fetching the schedule.
    Idle,
    /// A target session is chosen; waiting for its open.
    AwaitOpen,
    /// The session is open: evaluating the signal and, if favourable, buying.
    Evaluate,
    /// Capital is committed: holding the position until just before close.
    Holding,
    /// The close is near: selling the whole position.
    Settling,
}

/// What the controller observes between decisions. A `false` or `None`
/// payload reports that the step failed or produced nothing.
#[derive(Debug, Clone, Copy, PartialEq, Eq)]
pub enum CycleEvent {
    /// Whether cancelling all open orders succeeded.
    CancelResult(bool),
    /// The next session resolved from a fresh schedule, if any.
    ScheduleOutcome(Option<Hours>),
    /// Whether the session open was still ahead when the wait was computed.
    OpenWait(bool),
    /// The market signal delta, if it could be fetched and had the right shape.
    SignalOutcome(Option<i64>),
    /// The realized outcome of the buy, if it filled consistently.
    BuyOutcome(Option<OrderOutcome>),
    /// Whether the session close was still ahead when the wait was computed.
    CloseWait(bool),
    /// The realized outcome of the sell, if it filled consistently.
    SellOutcome(Option<OrderOutcome>),
}

/// What the controller asks its environment to do next.
#[derive(Debug, Clone, Copy, PartialEq, Eq)]
pub enum CycleAction {
    /// Fetch a fresh exchange schedule and resolve the next session.
    FetchSchedule,
    /// Sleep until the given instant, then report whether it was still ahead.
    SleepUntil(i64),
    /// Fetch the signal bars and report the delta.
    EvaluateSignal,
    /// Place a market buy worth the given cash amount (cents).
    PlaceBuy(i64),
    /// Place a market sell of the given share count.
    PlaceSell(i64),
    /// Abandon this iteration and start the next one.
    NextCycle,
    /// Stop the process: a committed position cannot be managed further.
    FatalStop,
}

/// The controller's working state across the process lifetime. The balance is
/// a local estimate in cents; the account is re-queried around every trade.
#[derive(Debug, Clone, Copy, PartialEq, Eq)]
pub struct TradingCycleState {
    pub phase: Phase,
    pub aud_balance: i64,
    pub position: i64,
    pub target: Option<Hours>,
}

/// A value representable as a 64-bit signed integer.
pub open spec fn within_i64(v: int) -> bool {
    i64::MIN <= v <= i64::MAX
}

/// Back to the start of an iteration, keeping the ledger estimates.
pub open spec fn spec_reset(pre: TradingCycleState) -> TradingCycleState {
    TradingCycleState { phase: Phase::Idle, target: None, ..pre }
}

/// The events a phase can observe.
pub open spec fn event_fits(p: Phase, ev: CycleEvent) -> bool {
    match (p, ev) {
        (Phase::Idle, CycleEvent::CancelResult(_)) => true,
        (Phase::Idle, CycleEvent::ScheduleOutcome(_)) => true,
        (Phase::AwaitOpen, CycleEvent::OpenWait(_)) => true,
        (Phase::Evaluate, CycleEvent::SignalOutcome(_)) => true,
        (Phase::Evaluate, CycleEvent::BuyOutcome(_)) => true,
        (Phase::Holding, CycleEvent::CloseWait(_)) => true,
        (Phase::Settling, CycleEvent::SellOutcome(_)) => true,
        _ => false,
    }
}

/// An event that reports failure, staleness or absence.
pub open spec fn adverse_event(ev: CycleEvent) -> bool {
    match ev {
        CycleEvent::CancelResult(ok) => !ok,
        CycleEvent::ScheduleOutcome(o) => o is None,
        CycleEvent::OpenWait(reached) => !reached,
        CycleEvent::SignalOutcome(o) => o is None,
        CycleEvent::BuyOutcome(o) => o is None,
        CycleEvent::CloseWait(reached) => !reached,
        CycleEvent::SellOutcome(o) => o is None,
    }
}

/// Capital is committed in these phases: a buy has filled and the position
/// must be managed to the end.
pub open spec fn committed(p: Phase) -> bool {
    p == Phase::Holding || p == Phase::Settling
}

/// The transition function of the cycle controller: from state and observed
/// event to next state and requested action. An event that its phase cannot
/// observe stops the process.
pub open spec fn spec_cycle_step(pre: TradingCycleState, ev: CycleEvent) -> (
    TradingCycleState,
    CycleAction,
) {
    match (pre.phase, ev) {
        (Phase::Idle, CycleEvent::CancelResult(ok)) => if ok {
            (pre, CycleAction::FetchSchedule)
        } else {
            (spec_reset(pre), CycleAction::NextCycle)
        },
        (Phase::Idle, CycleEvent::ScheduleOutcome(opt)) => match opt {
            None => (spec_reset(pre), CycleAction::NextCycle),
            Some(h) => if within_i64(h.open_utc + 60) {
                (
                    TradingCycleState { phase: Phase::AwaitOpen, target: Some(h), ..pre },
                    CycleAction::SleepUntil((h.open_utc + 60) as i64),
                )
            } else {
                (spec_reset(pre), CycleAction::NextCycle)
            },
        },
        (Phase::AwaitOpen, CycleEvent::OpenWait(reached)) => if reached {
            (TradingCycleState { phase: Phase::Evaluate, ..pre }, CycleAction::EvaluateSignal)
        } else {
            (spec_reset(pre), CycleAction::NextCycle)
        },
        (Phase::Evaluate, CycleEvent::SignalOutcome(opt)) => match opt {
            None => (spec_reset(pre), CycleAction::NextCycle),
            Some(d) => if d > 0 {
                (pre, CycleAction::PlaceBuy(pre.aud_balance))
            } else {
                (spec_reset(pre), CycleAction::NextCycle)
            },
        },
        (Phase::Evaluate, CycleEvent::BuyOutcome(opt)) => match opt {
            None => (spec_reset(pre), CycleAction::NextCycle),
            Some(o) => match pre.target {
                Some(t) => if within_i64(pre.aud_balance + o.aud_delta) && within_i64(
                    pre.position + o.share_delta,
                ) && within_i64(t.close_utc - 60) {
                    (
                        TradingCycleState {
                            phase: Phase::Holding,
                            aud_balance: (pre.aud_balance + o.aud_delta) as i64,
                            position: (pre.position + o.share_delta) as i64,
                            ..pre
                        },
                        CycleAction::SleepUntil((t.close_utc - 60) as i64),
                    )
                } else {
                    (pre, CycleAction::FatalStop)
                },
                None => (pre, CycleAction::FatalStop),
            },
        },
        (Phase::Holding, CycleEvent::CloseWait(reached)) => if reached {
            (TradingCycleState { phase: Phase::Settling, ..pre }, CycleAction::PlaceSell(pre.position))
        } else {
            (pre, CycleAction::FatalStop)
        },
        (Phase::Settling, CycleEvent::SellOutcome(opt)) => match opt {
            None => (pre, CycleAction::FatalStop),
            Some(o) => if within_i64(pre.aud_balance + o.aud_delta) && within_i64(
                pre.position + o.share_delta,
            ) {
                (
                    TradingCycleState {
                        phase: Phase::Idle,
                        aud_balance: (pre.aud_balance + o.aud_delta) as i64,
                        position: (pre.position + o.share_delta) as i64,
                        target: None,
                    },
                    CycleAction::NextCycle,
                )
            } else {
                (pre, CycleAction::FatalStop)
            },
        },
        _ => (pre, CycleAction::FatalStop),
    }
}

/// i64 addition with an explicit overflow verdict.
fn add_i64(a: i64, b: i64) -> (r: Option<i64>)
    ensures
        r matches Some(s) ==> s == a + b,
        r is None <==> !within_i64(a + b),
{
    if b >= 0 {
        if a > i64::MAX - b {
            None
        } else {
            Some(a + b)
        }
    } else {
        if a < i64::MIN - b {
            None
        } else {
            Some(a + b)
        }
    }
}

impl TradingCycleState {
    /// Fresh controller state for a validated starting balance.
    pub fn new(starting_balance_cents: i64) -> (r: Self)
        ensures
            r.phase == Phase::Idle,
            r.aud_balance == starting_balance_cents,
            r.position == 0,
            r.target is None,
    {
        TradingCycleState {
            phase: Phase::Idle,
            aud_balance: starting_balance_cents,
            position: 0,
            target: None,
        }
    }

    /// One decision of the controller: consume an observed event, update the
    /// working state, and say what to do next.
    pub fn step(&mut self, event: CycleEvent) -> (a: CycleAction)
        ensures
            *final(self) == spec_cycle_step(*old(self), event).0,
            a == spec_cycle_step(*old(self), event).1,
    {
        let phase = self.phase;
        match (phase, event) {
            (Phase::Idle, CycleEvent::CancelResult(ok)) => {
                if ok {
                    CycleAction::FetchSchedule
                } else {
                    self.phase = Phase::Idle;
                    self.target = None;
                    CycleAction::NextCycle
                }
            },
            (Phase::Idle, CycleEvent::ScheduleOutcome(opt)) => {
                match opt {
                    None => {
                        self.phase = Phase::Idle;
                        self.target = None;
                        CycleAction::NextCycle
                    },
                    Some(h) => {
                        match add_i64(h.open_utc, 60) {
                            Some(at) => {
                                self.phase = Phase::AwaitOpen;
                                self.target = Some(h);
                                CycleAction::SleepUntil(at)
                            },
                            None => {
                                self.phase = Phase::Idle;
                                self.target = None;
                                CycleAction::NextCycle
                            },
                        }
                    },
                }
            },
            (Phase::AwaitOpen, CycleEvent::OpenWait(reached)) => {
                if reached {
                    self.phase = Phase::Evaluate;
                    CycleAction::EvaluateSignal
                } else {
                    self.phase = Phase::Idle;
                    self.target = None;
                    CycleAction::NextCycle
                }
            },
            (Phase::Evaluate, CycleEvent::SignalOutcome(opt)) => {
                match opt {
                    Some(d) => {
                        if d > 0 {
                            CycleAction::PlaceBuy(self.aud_balance)
                        } else {
                            self.phase = Phase::Idle;
                            self.target = None;
                            CycleAction::NextCycle
                        }
                    },
                    None => {
                        self.phase = Phase::Idle;
                        self.target = None;
                        CycleAction::NextCycle
                    },
                }
            },
            (Phase::Evaluate, CycleEvent::BuyOutcome(opt)) => {
                match opt {
                    None => {
                        self.phase = Phase::Idle;
                        self.target = None;
                        CycleAction::NextCycle
                    },
                    Some(o) => {
                        match self.target {
                            Some(t) => {
                                let nb = add_i64(self.aud_balance, o.aud_delta);
                                let np = add_i64(self.position, o.share_delta);
                                let at = add_i64(t.close_utc, -60);
                                match (nb, np, at) {
                                    (Some(nb), Some(np), Some(at)) => {
                                        self.phase = Phase::Holding;
                                        self.aud_balance = nb;
                                        self.position = np;
                                        CycleAction::SleepUntil(at)
                                    },
                                    _ => CycleAction::FatalStop,
                                }
                            },
                            None => CycleAction::FatalStop,
                        }
                    },
                }
            },
            (Phase::Holding, CycleEvent::CloseWait(reached)) => {
                if reached {
                    self.phase = Phase::Settling;
                    CycleAction::PlaceSell(self.position)
                } else {
                    CycleAction::FatalStop
                }
            },
            (Phase::Settling, CycleEvent::SellOutcome(opt)) => {
                match opt {
                    None => CycleAction::FatalStop,
                    Some(o) => {
                        let nb = add_i64(self.aud_balance, o.aud_delta);
                        let np = add_i64(self.position, o.share_delta);
                        match (nb, np) {
                            (Some(nb), Some(np)) => {
                                self.phase = Phase::Idle;
                                self.aud_balance = nb;
                                self.position = np;
                                self.target = None;
                                CycleAction::NextCycle
                            },
                            _ => CycleAction::FatalStop,
                        }
                    },
                }
            },
            _ => CycleAction::FatalStop,
        }
    }
}

/// The commitment asymmetry, the central failure-handling contract: in an
/// uncommitted phase an adverse event only abandons the iteration and returns
/// the controller to `Idle`; in a committed phase it stops the process.
pub proof fn lemma_failure_policy(pre: TradingCycleState, ev: CycleEvent)
    requires
        event_fits(pre.phase, ev),
        adverse_event(ev),
    ensures
        !committed(pre.phase) ==> spec_cycle_step(pre, ev).1 == CycleAction::NextCycle
            && spec_cycle_step(pre, ev).0.phase == Phase::Idle,
        committed(pre.phase) ==> spec_cycle_step(pre, ev).1 == CycleAction::FatalStop
            && spec_cycle_step(pre, ev).0 == pre,
{
}

/// A sell failure after a committed buy stops the process; it is never
/// retried within the cycle.
pub proof fn lemma_sell_failure_fatal(pre: TradingCycleState)
    requires
        pre.phase == Phase::Settling,
    ensures
        spec_cycle_step(pre, CycleEvent::SellOutcome(None)).1 == CycleAction::FatalStop,
{
}

/// Seconds to sleep until `target_utc`, or nothing if it has already passed.
pub fn sleep_seconds_until(target_utc: i64, now_utc: i64) -> (r: Option<u64>)
    requires
        0 <= now_utc,
    ensures
        now_utc < target_utc ==> r == Some((target_utc - now_utc) as u64),
        target_utc <= now_utc ==> r is None,
{
    if now_utc < target_utc {
        Some((target_utc - now_utc) as u64)
    } else {
        None
    }
}

/// The gateway port for the chosen trading mode: live trading or paper
/// trading.
pub fn gateway_port(live: bool) -> (r: u16)
    ensures
        r == if live { 4001u16 } else { 4002u16 },
{
    if live {
        4001
    } else {
        4002
    }
}

} // verus!
