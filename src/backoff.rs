use vstd::prelude::*;

verus! {

/// Seconds to wait after a submission before the first poll.
pub const WARM_UP_DELAY_SECS: u64 = 2;

/// Seconds to wait between polls while the job runs.
pub const PROGRESS_POLL_DELAY_SECS: u64 = 10;

/// Seconds to wait after a poll that failed before polling again.
pub const POLL_ERROR_DELAY_SECS: u64 = 5;

/// Seconds to pause after a completion with failures before resubmitting,
/// unless configured otherwise.
pub const DEFAULT_RESTART_PAUSE_SECS: u64 = 300;

} // verus!
