use vstd::prelude::*;
use crate::failure::opt_view;

verus! {

/// Exit code when the remote refused or failed the cancellation request.
pub const CANCEL_FAILED_EXIT: i32 = 12;

/// What the cancellation watcher observes.
pub enum WatchEvent {
    /// The orchestration loop published the id of the job it just submitted.
    Published(String),
    /// The operator asked to stop.
    Interrupted,
}

/// What the cancellation watcher asks its runner to do.
pub enum CancelDirective {
    /// Nothing to do.
    Idle,
    /// An interrupt came before any job was published: wait for one.
    AwaitJob,
    /// Cancel this job, then end the process.
    Cancel(String),
}

/// A `WatchEvent` as plain values.
pub enum WatchInput {
    Published(Seq<char>),
    Interrupted,
}

/// A `CancelDirective` as plain values.
pub enum DirectiveModel {
    Idle,
    AwaitJob,
    Cancel(Seq<char>),
}

impl View for WatchEvent {
    type V = WatchInput;

    open spec fn view(&self) -> WatchInput {
        match self {
            WatchEvent::Published(j) => WatchInput::Published(j@),
            WatchEvent::Interrupted => WatchInput::Interrupted,
        }
    }
}

impl View for CancelDirective {
    type V = DirectiveModel;

    open spec fn view(&self) -> DirectiveModel {
        match self {
            CancelDirective::Idle => DirectiveModel::Idle,
            CancelDirective::AwaitJob => DirectiveModel::AwaitJob,
            CancelDirective::Cancel(j) => DirectiveModel::Cancel(j@),
        }
    }
}

/// The watcher's state, as plain values.
pub struct WatchModel {
    /// The most recently published job id.
    pub latest: Option<Seq<char>>,
    /// Whether an interrupt was seen.
    pub interrupted: bool,
    /// Whether the one cancel request was issued.
    pub sent: bool,
}

/// The watcher before any event.
pub open spec fn watch_init() -> WatchModel {
    WatchModel { latest: None, interrupted: false, sent: false }
}

/// One step of the watcher: the latest published job wins; the first
/// interrupt cancels that job, or the first job published after it; a cancel
/// is issued at most once.
pub open spec fn watch_step(s: WatchModel, e: WatchInput) -> (WatchModel, DirectiveModel) {
    match e {
        WatchInput::Published(j) => if s.interrupted && !s.sent {
            (WatchModel { latest: Some(j), sent: true, ..s }, DirectiveModel::Cancel(j))
        } else {
            (WatchModel { latest: Some(j), ..s }, DirectiveModel::Idle)
        },
        WatchInput::Interrupted => if s.interrupted {
            (s, DirectiveModel::Idle)
        } else {
            match s.latest {
                Some(j) => (WatchModel { interrupted: true, sent: true, ..s }, DirectiveModel::Cancel(j)),
                None => (WatchModel { interrupted: true, ..s }, DirectiveModel::AwaitJob),
            }
        },
    }
}

/// The state and the directives after feeding `es` to the watcher in state `s`.
pub open spec fn watch_run(s: WatchModel, es: Seq<WatchInput>) -> (WatchModel, Seq<DirectiveModel>)
    decreases es.len(),
{
    if es.len() == 0 {
        (s, Seq::empty())
    } else {
        let (s1, ds) = watch_run(s, es.drop_last());
        let (s2, d) = watch_step(s1, es.last());
        (s2, ds.push(d))
    }
}

/// Watches the latest submitted job and turns the first interrupt into one
/// cancel request.
pub struct CancelWatch {
    latest: Option<String>,
    interrupted: bool,
    sent: bool,
}

impl View for CancelWatch {
    type V = WatchModel;

    closed spec fn view(&self) -> WatchModel {
        WatchModel { latest: opt_view(self.latest), interrupted: self.interrupted, sent: self.sent }
    }
}

impl CancelWatch {
    /// No job published, no interrupt seen.
    pub fn new() -> (r: CancelWatch)
        ensures
            r@ == watch_init(),
    {
        CancelWatch { latest: None, interrupted: false, sent: false }
    }

    /// Takes in one event and says what to do about it.
    pub fn on_event(&mut self, e: WatchEvent) -> (d: CancelDirective)
        ensures
            (final(self)@, d@) == watch_step(old(self)@, e@),
    {
        match e {
            WatchEvent::Published(j) => {
                if self.interrupted && !self.sent {
                    self.sent = true;
                    self.latest = Some(j.clone());
                    CancelDirective::Cancel(j)
                } else {
                    self.latest = Some(j);
                    CancelDirective::Idle
                }
            },
            WatchEvent::Interrupted => {
                if self.interrupted {
                    CancelDirective::Idle
                } else {
                    self.interrupted = true;
                    match &self.latest {
                        Some(j) => {
                            self.sent = true;
                            CancelDirective::Cancel(j.clone())
                        },
                        None => CancelDirective::AwaitJob,
                    }
                }
            },
        }
    }

    /// Whether the cancel request was issued.
    pub fn cancel_sent(&self) -> (r: bool)
        ensures
            r == self@.sent,
    {
        self.sent
    }
}

/// The process's exit code once the cancel request was answered.
pub fn cancel_exit_code(acknowledged: bool) -> (r: i32)
    ensures
        r == (if acknowledged { 0i32 } else { CANCEL_FAILED_EXIT }),
{
    if acknowledged {
        0
    } else {
        CANCEL_FAILED_EXIT
    }
}

/// Along any run, a cancel is issued only once `sent` is set, and at most once.
proof fn lemma_run_sends_once(es: Seq<WatchInput>)
    ensures
        ({
            let (s, ds) = watch_run(watch_init(), es);
            &&& ds.len() == es.len()
            &&& s.sent ==> s.interrupted
            &&& !s.sent ==> forall|i: int| 0 <= i < ds.len() ==> !(#[trigger] ds[i] is Cancel)
            &&& forall|i: int, j: int|
                0 <= i < j < ds.len() ==> !(#[trigger] ds[i] is Cancel && #[trigger] ds[j] is Cancel)
        }),
    decreases es.len(),
{
    if es.len() > 0 {
        lemma_run_sends_once(es.drop_last());
    }
}

/// Whatever the events, the watcher issues at most one cancel request.
pub proof fn lemma_cancel_at_most_once(es: Seq<WatchInput>)
    ensures
        forall|i: int, j: int|
            0 <= i < j < watch_run(watch_init(), es).1.len() ==> !(#[trigger] watch_run(watch_init(), es).1[i] is Cancel
                && #[trigger] watch_run(watch_init(), es).1[j] is Cancel),
{
    lemma_run_sends_once(es);
}

/// Interrupts alone, with no job published, only ever ask to wait.
proof fn lemma_waiting(es: Seq<WatchInput>)
    requires
        es.len() > 0,
        es[0] == WatchInput::Interrupted,
        forall|i: int| 0 <= i < es.len() ==> #[trigger] es[i] == WatchInput::Interrupted,
    ensures
        ({
            let (s, ds) = watch_run(watch_init(), es);
            &&& s == (WatchModel { latest: None, interrupted: true, sent: false })
            &&& ds.len() == es.len()
            &&& ds[0] == DirectiveModel::AwaitJob
            &&& forall|i: int| 0 <= i < ds.len() ==> !(#[trigger] ds[i] is Cancel)
        }),
    decreases es.len(),
{
    if es.len() > 1 {
        let p = es.drop_last();
        assert forall|i: int| 0 <= i < p.len() implies #[trigger] p[i] == WatchInput::Interrupted by {
            assert(p[i] == es[i]);
        }
        lemma_waiting(p);
        let ds1 = watch_run(watch_init(), p).1;
        assert(es.last() == WatchInput::Interrupted);
        assert(watch_run(watch_init(), es).1 == ds1.push(DirectiveModel::Idle));
        assert(watch_run(watch_init(), es).1[0] == ds1[0]);
        assert forall|i: int| 0 <= i < es.len() implies !(#[trigger] watch_run(watch_init(), es).1[i] is Cancel) by {
            if i < p.len() {
                assert(watch_run(watch_init(), es).1[i] == ds1[i]);
            }
        }
    } else {
        assert(watch_run(watch_init(), es.drop_last()) == (watch_init(), Seq::<DirectiveModel>::empty()));
        assert(es.last() == WatchInput::Interrupted);
    }
}

/// An interrupt that comes before any job is published waits for the first
/// job that is published after it and cancels exactly that one: nothing is
/// cancelled before, the first directive is to wait.
pub proof fn lemma_early_interrupt_cancels_first_job(es: Seq<WatchInput>, k: int, job: Seq<char>)
    requires
        0 < k < es.len(),
        es[k] == WatchInput::Published(job),
        forall|i: int| 0 <= i < k ==> #[trigger] es[i] == WatchInput::Interrupted,
    ensures
        ({
            let ds = watch_run(watch_init(), es).1;
            &&& ds[0] == DirectiveModel::AwaitJob
            &&& forall|i: int| 0 <= i < k ==> !(#[trigger] ds[i] is Cancel)
            &&& ds[k] == DirectiveModel::Cancel(job)
        }),
{
    let pre = es.take(k);
    assert forall|i: int| 0 <= i < pre.len() implies #[trigger] pre[i] == WatchInput::Interrupted by {
        assert(pre[i] == es[i]);
    }
    lemma_waiting(pre);
    let upto = es.take(k + 1);
    assert(upto.drop_last() =~= pre);
    lemma_run_prefix(es, k + 1);
}

/// Feeding more events never changes the directives already given.
proof fn lemma_run_prefix(es: Seq<WatchInput>, n: int)
    requires
        0 <= n <= es.len(),
    ensures
        watch_run(watch_init(), es).1.len() == es.len(),
        forall|i: int|
            0 <= i < n ==> #[trigger] watch_run(watch_init(), es).1[i] == watch_run(watch_init(), es.take(n)).1[i],
    decreases es.len(),
{
    lemma_run_sends_once(es);
    lemma_run_sends_once(es.take(n));
    if n < es.len() {
        let p = es.drop_last();
        assert(p.take(n) =~= es.take(n));
        lemma_run_prefix(p, n);
        lemma_run_sends_once(p);
    } else {
        assert(es.take(n) =~= es);
    }
}

} // verus!
