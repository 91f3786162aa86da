//! Supervision of a remote, asynchronous delete-by-query job: progress
//! aggregation across restarts, failure classification, the orchestration
//! state machine and the one-shot cancellation watcher.
pub mod backoff;
pub mod cancel;
pub mod failure;
pub mod progress;
pub mod supervisor;
pub mod wire;

pub use failure::{classify, dedup_failures, Classification, CompletionResult, Failure, FailureKey};
pub use progress::{clamp_count, Progress, ProgressSnapshot};
pub use backoff::{
    DEFAULT_RESTART_PAUSE_SECS, POLL_ERROR_DELAY_SECS, PROGRESS_POLL_DELAY_SECS, WARM_UP_DELAY_SECS,
};
pub use wire::{cancel_path, decimal, poll_path, submit_path, SubmitOptions};
pub use cancel::{cancel_exit_code, CancelDirective, CancelWatch, WatchEvent, CANCEL_FAILED_EXIT};
pub use supervisor::{Action, Event, Phase, PollReport, Supervisor, SUBMIT_FAILED_EXIT};
