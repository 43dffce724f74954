use vstd::prelude::*;

verus! {

/// How long the supervisor waits after a failed open before the next
/// attempt to open the hardware link, in seconds.
pub const RETRY_DELAY_SECS: u64 = 5;

/// The pause at the end of every iteration of the read loop, in
/// milliseconds, bounding how often the link is polled.
pub const READ_PAUSE_MS: u64 = 50;

/// The fixed interval between two refresh ticks of the registry, in
/// seconds.
pub const REFRESH_INTERVAL_SECS: u64 = 5;

/// The states of the hardware-link supervisor that persist between
/// iterations: either still trying to open the link, or reading from an
/// open link.
#[derive(Clone, Copy, PartialEq, Eq, Structural, Debug)]
pub enum LinkState {
    Connecting,
    Open,
}

/// What one attempt to open the hardware link came to.
#[derive(Clone, Copy, PartialEq, Eq, Structural, Debug)]
pub enum OpenOutcome {
    /// The link opened; a read session can start.
    Opened,
    /// The link could not be opened.
    OpenFailed,
}

/// What one read from the open link came to.
#[derive(Clone, Copy, PartialEq, Eq, Structural, Debug)]
pub enum ReadOutcome {
    /// The read returned bytes; they go to the framer.
    DataRead,
    /// The read timed out: a normal no-data condition, not an error.
    TimedOut,
    /// The read failed for any other reason: the session is over.
    ReadFailed,
}

/// What the surrounding loop must do next.
#[derive(Clone, Copy, PartialEq, Eq, Structural, Debug)]
pub enum LinkAction {
    /// Begin a fresh read session: discard any buffered bytes of the
    /// previous session, then read.
    StartSession,
    /// Wait the retry delay, then attempt to open the link again.
    WaitAndRetryOpen,
    /// Pause briefly, then read from the link again.
    ReadAgain,
    /// Attempt to open the link again at once.
    ReopenLink,
}

/// The transition the supervisor makes in the connecting state.
pub open spec fn spec_step_connecting(outcome: OpenOutcome) -> (LinkState, LinkAction) {
    match outcome {
        OpenOutcome::Opened => (LinkState::Open, LinkAction::StartSession),
        OpenOutcome::OpenFailed => (LinkState::Connecting, LinkAction::WaitAndRetryOpen),
    }
}

/// The transition the supervisor makes in the open state.
pub open spec fn spec_step_open(outcome: ReadOutcome) -> (LinkState, LinkAction) {
    match outcome {
        ReadOutcome::DataRead => (LinkState::Open, LinkAction::ReadAgain),
        ReadOutcome::TimedOut => (LinkState::Open, LinkAction::ReadAgain),
        ReadOutcome::ReadFailed => (LinkState::Connecting, LinkAction::ReopenLink),
    }
}

/// Decides what follows one attempt to open the link. A failed open never
/// gives up: the supervisor stays in the connecting state and retries after
/// the fixed delay, for as long as the process runs.
pub fn step_connecting(outcome: OpenOutcome) -> (r: (LinkState, LinkAction))
    ensures
        r == spec_step_connecting(outcome),
{
    match outcome {
        OpenOutcome::Opened => (LinkState::Open, LinkAction::StartSession),
        OpenOutcome::OpenFailed => (LinkState::Connecting, LinkAction::WaitAndRetryOpen),
    }
}

/// Decides what follows one read from the open link. A timeout is treated
/// as "no data" and the session continues; any other read error ends the
/// session and sends the supervisor back to connecting.
pub fn step_open(outcome: ReadOutcome) -> (r: (LinkState, LinkAction))
    ensures
        r == spec_step_open(outcome),
{
    match outcome {
        ReadOutcome::DataRead => (LinkState::Open, LinkAction::ReadAgain),
        ReadOutcome::TimedOut => (LinkState::Open, LinkAction::ReadAgain),
        ReadOutcome::ReadFailed => (LinkState::Connecting, LinkAction::ReopenLink),
    }
}

} // verus!
