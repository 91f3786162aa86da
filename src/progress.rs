use vstd::prelude::*;

verus! {

/// A count reported by the remote, floored at zero: the remote may report
/// negative placeholders while a job is still being scheduled.
pub open spec fn clamp(n: i64) -> nat {
    if n < 0 {
        0
    } else {
        n as nat
    }
}

/// The total estimate after observing a reported total `t`: raised when `t`
/// is larger, never lowered.
pub open spec fn raised(cur: u64, t: i64) -> u64 {
    if clamp(t) > cur {
        t as u64
    } else {
        cur
    }
}

/// `total + clamp(d)`, saturating at `u64::MAX`.
pub open spec fn added(total: u64, d: i64) -> u64 {
    if total + clamp(d) > u64::MAX {
        u64::MAX
    } else {
        (total + clamp(d)) as u64
    }
}

/// The sum of the floored deletions `ds`.
pub open spec fn sum_clamped(ds: Seq<i64>) -> nat
    decreases ds.len(),
{
    if ds.len() == 0 {
        0
    } else {
        sum_clamped(ds.drop_last()) + clamp(ds.last())
    }
}

/// Floors a count reported by the remote at zero.
pub fn clamp_count(n: i64) -> (r: u64)
    ensures
        r == clamp(n),
{
    if n < 0 {
        0
    } else {
        n as u64
    }
}

/// The counters of one poll of a running job.
#[derive(Clone, Copy, Debug, PartialEq, Eq)]
pub struct ProgressSnapshot {
    pub total: i64,
    pub updated: i64,
    pub created: i64,
    pub deleted: i64,
    pub batches: i64,
    pub version_conflicts: i64,
    pub noops: i64,
    pub retries_bulk: i64,
    pub retries_search: i64,
    pub throttled_millis: i64,
    pub throttled_until_millis: i64,
}

/// What the aggregator holds, as plain values.
pub struct ProgressModel {
    /// Deletions of the jobs that completed, over all restarts.
    pub deleted_total: u64,
    /// Deletions that the current job has reported so far.
    pub current_deleted: u64,
    /// The largest total estimate seen so far.
    pub total_estimate: u64,
}

/// Folds per-job progress into a running total across restarts.
#[derive(Clone, Copy, Debug)]
pub struct Progress {
    deleted_total: u64,
    current_deleted: u64,
    total_estimate: u64,
}

impl View for Progress {
    type V = ProgressModel;

    closed spec fn view(&self) -> ProgressModel {
        ProgressModel {
            deleted_total: self.deleted_total,
            current_deleted: self.current_deleted,
            total_estimate: self.total_estimate,
        }
    }
}

impl ProgressModel {
    /// The position shown to the operator: all completed deletions plus the
    /// current job's, saturating at `u64::MAX`.
    pub open spec fn position(self) -> u64 {
        if self.deleted_total + self.current_deleted > u64::MAX {
            u64::MAX
        } else {
            (self.deleted_total + self.current_deleted) as u64
        }
    }
}

/// The aggregator after observing one poll of the current job.
pub open spec fn observed(m: ProgressModel, snap: ProgressSnapshot) -> ProgressModel {
    ProgressModel {
        deleted_total: m.deleted_total,
        current_deleted: clamp(snap.deleted) as u64,
        total_estimate: raised(m.total_estimate, snap.total),
    }
}

/// The aggregator after the current job completed having deleted `deleted`.
pub open spec fn folded(m: ProgressModel, deleted: i64) -> ProgressModel {
    ProgressModel {
        deleted_total: added(m.deleted_total, deleted),
        current_deleted: 0,
        total_estimate: m.total_estimate,
    }
}

impl Progress {
    /// Nothing deleted, nothing estimated.
    pub fn new() -> (r: Progress)
        ensures
            r@ == progress_init(),
    {
        Progress { deleted_total: 0, current_deleted: 0, total_estimate: 0 }
    }

    /// Takes in the counters of one poll of the current job.
    pub fn observe(&mut self, snap: &ProgressSnapshot)
        ensures
            final(self)@ == observed(old(self)@, *snap),
    {
        let t = clamp_count(snap.total);
        if t > self.total_estimate {
            self.total_estimate = t;
        }
        self.current_deleted = clamp_count(snap.deleted);
    }

    /// Adds a completed job's deletions to the total for good and resets the
    /// current job's counters, ready for a restart.
    pub fn fold_on_completion(&mut self, deleted: i64)
        ensures
            final(self)@ == folded(old(self)@, deleted),
    {
        let d = clamp_count(deleted);
        if d > u64::MAX - self.deleted_total {
            self.deleted_total = u64::MAX;
        } else {
            self.deleted_total = self.deleted_total + d;
        }
        self.current_deleted = 0;
    }

    /// Deletions of all completed jobs.
    pub fn deleted_total(&self) -> (r: u64)
        ensures
            r == self@.deleted_total,
    {
        self.deleted_total
    }

    /// The displayed total: the largest estimate seen.
    pub fn length(&self) -> (r: u64)
        ensures
            r == self@.total_estimate,
    {
        self.total_estimate
    }

    /// The displayed position.
    pub fn position(&self) -> (r: u64)
        ensures
            r == self@.position(),
    {
        if self.current_deleted > u64::MAX - self.deleted_total {
            u64::MAX
        } else {
            self.deleted_total + self.current_deleted
        }
    }
}

/// The aggregator with nothing deleted and nothing estimated.
pub open spec fn progress_init() -> ProgressModel {
    ProgressModel { deleted_total: 0, current_deleted: 0, total_estimate: 0 }
}

/// The aggregator after observing the polls `snaps`, in order, from `m`.
pub open spec fn observe_all(m: ProgressModel, snaps: Seq<ProgressSnapshot>) -> ProgressModel
    decreases snaps.len(),
{
    if snaps.len() == 0 {
        m
    } else {
        observed(observe_all(m, snaps.drop_last()), snaps.last())
    }
}

/// The aggregator after completions that reported the deletions `ds`, in order, from `m`.
pub open spec fn fold_all(m: ProgressModel, ds: Seq<i64>) -> ProgressModel
    decreases ds.len(),
{
    if ds.len() == 0 {
        m
    } else {
        folded(fold_all(m, ds.drop_last()), ds.last())
    }
}

/// The displayed total never decreases and ends as the largest total that any
/// poll reported (floored at zero): it bounds every reported total, equals one
/// of them once one was reported, and bounds the total after any prefix.
pub proof fn lemma_total_is_running_max(snaps: Seq<ProgressSnapshot>)
    ensures
        forall|i: int|
            0 <= i < snaps.len() ==> clamp(#[trigger] snaps[i].total) <= observe_all(progress_init(), snaps).total_estimate,
        snaps.len() == 0 ==> observe_all(progress_init(), snaps).total_estimate == 0,
        snaps.len() > 0 ==> exists|i: int|
            0 <= i < snaps.len() && observe_all(progress_init(), snaps).total_estimate == clamp(snaps[i].total),
        forall|k: int|
            0 <= k <= snaps.len() ==> observe_all(progress_init(), #[trigger] snaps.take(k)).total_estimate
                <= observe_all(progress_init(), snaps).total_estimate,
    decreases snaps.len(),
{
    let z = progress_init();
    if snaps.len() > 0 {
        let p = snaps.drop_last();
        lemma_total_is_running_max(p);
        let tp = observe_all(z, p).total_estimate;
        let t = observe_all(z, snaps).total_estimate;
        assert(t == raised(tp, snaps.last().total));
        assert forall|i: int| 0 <= i < snaps.len() implies clamp(#[trigger] snaps[i].total) <= t by {
            if i < p.len() {
                assert(snaps[i] == p[i]);
            }
        }
        if clamp(snaps.last().total) > tp {
            assert(t == clamp(snaps[snaps.len() - 1].total));
        } else if p.len() > 0 {
            let j = choose|j: int| 0 <= j < p.len() && tp == clamp(p[j].total);
            assert(snaps[j] == p[j]);
        } else {
            assert(t == clamp(snaps[0].total));
        }
        assert forall|k: int| 0 <= k <= snaps.len() implies observe_all(z, #[trigger] snaps.take(k)).total_estimate
            <= t by {
            if k < snaps.len() {
                assert(snaps.take(k) =~= p.take(k));
            } else {
                assert(snaps.take(k) =~= snaps);
            }
        }
    }
}

/// Polls never change the deleted total: only completions do.
pub proof fn lemma_polls_keep_deleted_total(m: ProgressModel, snaps: Seq<ProgressSnapshot>)
    ensures
        observe_all(m, snaps).deleted_total == m.deleted_total,
    decreases snaps.len(),
{
    if snaps.len() > 0 {
        lemma_polls_keep_deleted_total(m, snaps.drop_last());
    }
}

/// When the sum fits in a `u64`, the deleted total after a run of completed
/// jobs is exactly the sum of their floored deletions.
pub proof fn lemma_deleted_is_sum(ds: Seq<i64>)
    requires
        sum_clamped(ds) <= u64::MAX,
    ensures
        fold_all(progress_init(), ds).deleted_total == sum_clamped(ds),
    decreases ds.len(),
{
    if ds.len() > 0 {
        lemma_deleted_is_sum(ds.drop_last());
    }
}

} // verus!
