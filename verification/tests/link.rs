use barcode_engine::barcode_len_ok;
use barcode_engine::supervisor::step_connecting;
use barcode_engine::supervisor::step_open;
use barcode_engine::supervisor::LinkAction;
use barcode_engine::supervisor::LinkState;
use barcode_engine::supervisor::OpenOutcome;
use barcode_engine::supervisor::ReadOutcome;
use barcode_engine::supervisor::READ_PAUSE_MS;
use barcode_engine::supervisor::REFRESH_INTERVAL_SECS;
use barcode_engine::supervisor::RETRY_DELAY_SECS;

#[test]
fn successful_open_starts_a_fresh_session() {
    let (state, action) = step_connecting(OpenOutcome::Opened);
    assert_eq!(state, LinkState::Open);
    assert_eq!(action, LinkAction::StartSession);
}

#[test]
fn failed_open_waits_and_retries() {
    let (state, action) = step_connecting(OpenOutcome::OpenFailed);
    assert_eq!(state, LinkState::Connecting);
    assert_eq!(action, LinkAction::WaitAndRetryOpen);
}

#[test]
fn data_keeps_the_session_reading() {
    let (state, action) = step_open(ReadOutcome::DataRead);
    assert_eq!(state, LinkState::Open);
    assert_eq!(action, LinkAction::ReadAgain);
}

#[test]
fn timeout_is_no_data_not_an_error() {
    let (state, action) = step_open(ReadOutcome::TimedOut);
    assert_eq!(state, LinkState::Open);
    assert_eq!(action, LinkAction::ReadAgain);
}

#[test]
fn read_error_ends_the_session_and_reconnects() {
    let (state, action) = step_open(ReadOutcome::ReadFailed);
    assert_eq!(state, LinkState::Connecting);
    assert_eq!(action, LinkAction::ReopenLink);
}

#[test]
fn configured_intervals() {
    assert_eq!(RETRY_DELAY_SECS, 5);
    assert_eq!(READ_PAUSE_MS, 50);
    assert_eq!(REFRESH_INTERVAL_SECS, 5);
}

#[test]
fn barcode_length_check() {
    assert!(barcode_len_ok(&"000000000000000001".as_bytes().to_vec()));
    assert!(!barcode_len_ok(&"0001".as_bytes().to_vec()));
    assert!(!barcode_len_ok(&Vec::new()));
}
