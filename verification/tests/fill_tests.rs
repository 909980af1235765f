use ibkr_bot::errors::TradeError;
use ibkr_bot::fill::{fill_step, resolve_fill, FillStep};

fn statuses(v: &[&str]) -> Vec<String> {
    v.iter().map(|s| s.to_string()).collect()
}

#[test]
fn submitted_then_filled_succeeds() {
    assert!(resolve_fill(&statuses(&["Submitted", "Filled"])).is_ok());
}

#[test]
fn submitted_then_cancelled_fails() {
    assert_eq!(
        resolve_fill(&statuses(&["Submitted", "Cancelled"])).unwrap_err(),
        TradeError::OrderCancelled
    );
    assert_eq!(
        resolve_fill(&statuses(&["PreSubmitted", "ApiCancelled"])).unwrap_err(),
        TradeError::OrderCancelled
    );
}

#[test]
fn stream_end_without_terminal_status_fails() {
    assert_eq!(resolve_fill(&statuses(&[])).unwrap_err(), TradeError::StreamEnded);
    assert_eq!(
        resolve_fill(&statuses(&["Inactive", "PreSubmitted", "Submitted"])).unwrap_err(),
        TradeError::StreamEnded
    );
}

#[test]
fn first_terminal_status_decides() {
    // Filled before a later Cancelled wins; events after the terminal one are
    // never observed.
    assert!(resolve_fill(&statuses(&["Filled", "Cancelled"])).is_ok());
}

#[test]
fn unknown_statuses_are_non_terminal() {
    assert_eq!(fill_step("SomethingNew"), FillStep::Pending);
    assert_eq!(fill_step("Inactive"), FillStep::Pending);
    assert_eq!(fill_step("PreSubmitted"), FillStep::Pending);
    assert_eq!(fill_step("Submitted"), FillStep::Pending);
    assert_eq!(fill_step("Filled"), FillStep::Done);
    assert_eq!(fill_step("Cancelled"), FillStep::Cancelled);
    assert_eq!(fill_step("ApiCancelled"), FillStep::Cancelled);
    assert_eq!(
        resolve_fill(&statuses(&["SomethingNew", "Filled"])).unwrap(),
        ()
    );
}
