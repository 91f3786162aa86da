use vstd::prelude::*;
use crate::backoff::{POLL_ERROR_DELAY_SECS, PROGRESS_POLL_DELAY_SECS, WARM_UP_DELAY_SECS};
use crate::failure::{classify, is_dedup_of, opt_view, verdict, Classification, CompletionResult, FailureKey, Verdict};
use crate::progress::{folded, observed, progress_init, Progress, ProgressModel, ProgressSnapshot};

verus! {

/// Exit code when a job could not be submitted.
pub const SUBMIT_FAILED_EXIT: i32 = 1;

/// Where the orchestration loop stands.
#[derive(Clone, Copy, Debug, PartialEq, Eq, Structural)]
pub enum Phase {
    /// Not started.
    Idle,
    /// A submission is in flight.
    Submitting,
    /// A job runs and is being polled.
    Polling,
    /// A job completed with failures; waiting before resubmitting.
    Pausing,
    /// A job completed without failures. Terminal.
    Succeeded,
    /// A job completed without attaching its result. This is taken as the
    /// end of the work, not as an error: the loop stops, submits nothing more
    /// and exits with code 0, and the runner reports the anomaly. Terminal.
    Anomaly,
    /// A submission failed. Terminal.
    Aborted,
}

/// Whether `p` ends the loop.
pub open spec fn is_terminal(p: Phase) -> bool {
    p == Phase::Succeeded || p == Phase::Anomaly || p == Phase::Aborted
}

/// One poll's answer.
#[derive(Clone, Debug)]
pub struct PollReport {
    pub completed: bool,
    pub status: ProgressSnapshot,
    pub result: Option<CompletionResult>,
}

/// What happened since the last step.
pub enum Event {
    /// The runner starts the loop.
    Start,
    /// The remote accepted a submission and returned this job id.
    Submitted(String),
    /// The submission failed.
    SubmitFailed,
    /// A poll answered.
    Polled(PollReport),
    /// A poll failed (network, server error, job not found).
    PollFailed,
    /// The pause before a restart is over.
    PauseElapsed,
}

/// What the runner is to do next.
#[derive(Debug)]
pub enum Action {
    /// Submit a fresh job.
    Submit,
    /// Publish `job` to the cancellation watcher, wait `delay_secs`, then poll it.
    Publish { job: String, delay_secs: u64 },
    /// Wait `delay_secs`, then poll `job`.
    Poll { job: String, delay_secs: u64 },
    /// Show these distinct failures, wait `delay_secs`, then report the pause over.
    Restart { failures: Vec<FailureKey>, delay_secs: u64 },
    /// Stop with this exit code.
    Exit { code: i32 },
    /// The event does not apply in the current phase: do nothing.
    Ignore,
}

/// The supervisor's state, as plain values.
pub struct SupervisorModel {
    pub phase: Phase,
    /// The id of the job submitted last.
    pub job: Option<Seq<char>>,
    pub progress: ProgressModel,
    /// Seconds to pause before resubmitting after failures.
    pub restart_pause_secs: u64,
}

/// `a` polls `job` after `delay` seconds.
pub open spec fn polls(a: Action, job: Seq<char>, delay: u64) -> bool {
    match a {
        Action::Poll { job: j, delay_secs } => j@ == job && delay_secs == delay,
        _ => false,
    }
}

/// `a` publishes `job`, then polls it after the warm-up delay.
pub open spec fn publishes(a: Action, job: Seq<char>) -> bool {
    match a {
        Action::Publish { job: j, delay_secs } => j@ == job && delay_secs == WARM_UP_DELAY_SECS,
        _ => false,
    }
}

/// `a` ends the process with `code`.
pub open spec fn exits(a: Action, code: i32) -> bool {
    match a {
        Action::Exit { code: c } => c == code,
        _ => false,
    }
}

/// `a` reports the distinct failures of `r`, then pauses `delay` seconds.
pub open spec fn restarts(a: Action, r: CompletionResult, delay: u64) -> bool {
    match a {
        Action::Restart { failures, delay_secs } => is_dedup_of(failures@, r.failures@) && delay_secs == delay,
        _ => false,
    }
}

/// The step taken on a poll's answer while polling: the aggregator observes
/// the counters; then the verdict decides.
pub open spec fn polled(pre: SupervisorModel, r: PollReport, post: SupervisorModel, a: Action) -> bool {
    let seen = observed(pre.progress, r.status);
    match verdict(r.completed, r.result) {
        Verdict::InProgress => post == SupervisorModel { progress: seen, ..pre } && polls(
            a,
            pre.job.unwrap(),
            PROGRESS_POLL_DELAY_SECS,
        ),
        Verdict::Anomaly => post == SupervisorModel { phase: Phase::Anomaly, progress: seen, ..pre }
            && exits(a, 0),
        Verdict::Success => post == SupervisorModel {
            phase: Phase::Succeeded,
            progress: folded(seen, r.result.unwrap().status.deleted),
            ..pre
        } && exits(a, 0),
        Verdict::Retry => post == SupervisorModel {
            phase: Phase::Pausing,
            progress: folded(seen, r.result.unwrap().status.deleted),
            ..pre
        } && restarts(a, r.result.unwrap(), pre.restart_pause_secs),
    }
}

/// One step of the orchestration loop, from `pre` on event `e` to `post`
/// with action `a`. An event that does not fit the phase changes nothing.
pub open spec fn stepped(pre: SupervisorModel, e: Event, post: SupervisorModel, a: Action) -> bool {
    let fits = match e {
        Event::Start => pre.phase == Phase::Idle,
        Event::Submitted(_) => pre.phase == Phase::Submitting,
        Event::SubmitFailed => pre.phase == Phase::Submitting,
        Event::Polled(_) => pre.phase == Phase::Polling,
        Event::PollFailed => pre.phase == Phase::Polling,
        Event::PauseElapsed => pre.phase == Phase::Pausing,
    };
    if !fits {
        post == pre && a is Ignore
    } else {
        match e {
            Event::Start => post == SupervisorModel { phase: Phase::Submitting, ..pre } && a is Submit,
            Event::Submitted(j) => post == SupervisorModel { phase: Phase::Polling, job: Some(j@), ..pre }
                && publishes(a, j@),
            Event::SubmitFailed => post == SupervisorModel { phase: Phase::Aborted, ..pre } && exits(
                a,
                SUBMIT_FAILED_EXIT,
            ),
            Event::Polled(r) => polled(pre, r, post, a),
            Event::PollFailed => post == pre && polls(a, pre.job.unwrap(), POLL_ERROR_DELAY_SECS),
            Event::PauseElapsed => post == SupervisorModel { phase: Phase::Submitting, ..pre } && a is Submit,
        }
    }
}

/// Drives submission, polling, completion handling and restarts of one
/// delete-by-query job.
pub struct Supervisor {
    phase: Phase,
    job: Option<String>,
    progress: Progress,
    restart_pause_secs: u64,
}

impl View for Supervisor {
    type V = SupervisorModel;

    closed spec fn view(&self) -> SupervisorModel {
        SupervisorModel {
            phase: self.phase,
            job: opt_view(self.job),
            progress: self.progress@,
            restart_pause_secs: self.restart_pause_secs,
        }
    }
}

impl Supervisor {
    /// A job id is known whenever a job is polled or paused after.
    #[verifier::type_invariant]
    spec fn job_known(self) -> bool {
        (self.phase == Phase::Polling || self.phase == Phase::Pausing) ==> self.job is Some
    }

    /// An idle supervisor that pauses `restart_pause_secs` before each restart.
    pub fn new(restart_pause_secs: u64) -> (r: Supervisor)
        ensures
            r@ == (SupervisorModel {
                phase: Phase::Idle,
                job: None,
                progress: progress_init(),
                restart_pause_secs,
            }),
    {
        Supervisor { phase: Phase::Idle, job: None, progress: Progress::new(), restart_pause_secs }
    }

    /// Takes in one event and says what to do next.
    pub fn step(&mut self, e: Event) -> (a: Action)
        ensures
            stepped(old(self)@, e, final(self)@, a),
    {
        match e {
            Event::Start => {
                if self.phase == Phase::Idle {
                    self.phase = Phase::Submitting;
                    Action::Submit
                } else {
                    Action::Ignore
                }
            },
            Event::Submitted(j) => {
                if self.phase == Phase::Submitting {
                    self.job = Some(j.clone());
                    self.phase = Phase::Polling;
                    Action::Publish { job: j, delay_secs: WARM_UP_DELAY_SECS }
                } else {
                    Action::Ignore
                }
            },
            Event::SubmitFailed => {
                if self.phase == Phase::Submitting {
                    self.phase = Phase::Aborted;
                    Action::Exit { code: SUBMIT_FAILED_EXIT }
                } else {
                    Action::Ignore
                }
            },
            Event::PollFailed => {
                proof {
                    use_type_invariant(&*self);
                }
                if self.phase == Phase::Polling {
                    match &self.job {
                        Some(j) => Action::Poll { job: j.clone(), delay_secs: POLL_ERROR_DELAY_SECS },
                        None => Action::Ignore,
                    }
                } else {
                    Action::Ignore
                }
            },
            Event::PauseElapsed => {
                if self.phase == Phase::Pausing {
                    self.phase = Phase::Submitting;
                    Action::Submit
                } else {
                    Action::Ignore
                }
            },
            Event::Polled(r) => {
                if self.phase == Phase::Polling {
                    self.on_poll(r)
                } else {
                    Action::Ignore
                }
            },
        }
    }

    fn on_poll(&mut self, r: PollReport) -> (a: Action)
        requires
            old(self).phase == Phase::Polling,
        ensures
            polled(old(self)@, r, final(self)@, a),
    {
        proof {
            use_type_invariant(&*self);
        }
        let job = match &self.job {
            Some(j) => j.clone(),
            None => String::new(),
        };
        let mut progress = self.progress;
        progress.observe(&r.status);
        let deleted: i64 = match &r.result {
            Some(res) => res.status.deleted,
            None => 0,
        };
        match classify(r.completed, &r.result) {
            Classification::InProgress => {
                self.progress = progress;
                Action::Poll { job, delay_secs: PROGRESS_POLL_DELAY_SECS }
            },
            Classification::Anomaly => {
                self.progress = progress;
                self.phase = Phase::Anomaly;
                Action::Exit { code: 0 }
            },
            Classification::Success => {
                progress.fold_on_completion(deleted);
                self.progress = progress;
                self.phase = Phase::Succeeded;
                Action::Exit { code: 0 }
            },
            Classification::RetryableFailure(keys) => {
                progress.fold_on_completion(deleted);
                self.progress = progress;
                self.phase = Phase::Pausing;
                Action::Restart { failures: keys, delay_secs: self.restart_pause_secs }
            },
        }
    }

    /// The current phase.
    pub fn phase(&self) -> (r: Phase)
        ensures
            r == self@.phase,
    {
        self.phase
    }

    /// Deletions of all completed jobs.
    pub fn deleted_total(&self) -> (r: u64)
        ensures
            r == self@.progress.deleted_total,
    {
        self.progress.deleted_total()
    }

    /// The displayed position: completed jobs' deletions plus the current job's.
    pub fn position(&self) -> (r: u64)
        ensures
            r == self@.progress.position(),
    {
        self.progress.position()
    }

    /// The displayed total: the largest estimate seen.
    pub fn length(&self) -> (r: u64)
        ensures
            r == self@.progress.total_estimate,
    {
        self.progress.length()
    }

    /// The id of the job submitted last.
    pub fn job(&self) -> (r: Option<String>)
        ensures
            match r {
                Some(j) => self@.job == Some(j@),
                None => self@.job is None,
            },
    {
        match &self.job {
            Some(j) => Some(j.clone()),
            None => None,
        }
    }
}

/// What every step keeps: the displayed total is never lowered; the deleted
/// total changes only when a poll reports a completed job with its result;
/// the job id changes only when a submission is accepted; and a job is
/// submitted only at the start or once the pause after failures is over.
pub proof fn lemma_step_keeps_invariants(pre: SupervisorModel, e: Event, post: SupervisorModel, a: Action)
    requires
        stepped(pre, e, post, a),
    ensures
        post.progress.total_estimate >= pre.progress.total_estimate,
        post.progress.deleted_total != pre.progress.deleted_total ==> match e {
            Event::Polled(r) => r.completed && r.result is Some,
            _ => false,
        },
        post.job != pre.job ==> e is Submitted,
        a is Submit ==> (pre.phase == Phase::Idle || pre.phase == Phase::Pausing),
        post.restart_pause_secs == pre.restart_pause_secs,
{
}

/// Once the loop has ended (success, anomaly or a failed submission), no
/// event changes its state or asks for any further work.
pub proof fn lemma_terminal_is_final(pre: SupervisorModel, e: Event, post: SupervisorModel, a: Action)
    requires
        is_terminal(pre.phase),
        stepped(pre, e, post, a),
    ensures
        post == pre,
        a is Ignore,
{
}

/// A failed poll neither restarts nor resubmits: the job, the phase and the
/// progress stay as they were and the same job is polled again after the
/// poll-error delay.
pub proof fn lemma_poll_error_keeps_job(pre: SupervisorModel, post: SupervisorModel, a: Action)
    requires
        pre.phase == Phase::Polling,
        stepped(pre, Event::PollFailed, post, a),
    ensures
        post == pre,
        polls(a, pre.job.unwrap(), POLL_ERROR_DELAY_SECS),
{
}

} // verus!
