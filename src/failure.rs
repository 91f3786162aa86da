use vstd::prelude::*;
use crate::progress::ProgressSnapshot;

verus! {

/// One shard-level failure of a completed job.
#[derive(Clone, Debug)]
pub struct Failure {
    /// The target partition (index), when the remote names one.
    pub index: Option<String>,
    pub node: String,
    pub shard: i64,
    /// The reason's message.
    pub reason: String,
    /// The reason's kind.
    pub kind: String,
}

/// The part of a failure that the operator is shown; failures with equal keys
/// are reported once.
#[derive(Clone, Debug)]
pub struct FailureKey {
    pub node: String,
    pub index: Option<String>,
    pub reason: String,
}

/// The result that the remote attaches to a completed job.
#[derive(Clone, Debug)]
pub struct CompletionResult {
    pub status: ProgressSnapshot,
    pub took: i64,
    pub timed_out: bool,
    pub failures: Vec<Failure>,
}

/// The verdict on one poll.
#[derive(Debug)]
pub enum Classification {
    /// The job is still running.
    InProgress,
    /// The job completed without attaching a result.
    Anomaly,
    /// The job completed without failures.
    Success,
    /// The job completed with failures: their distinct keys.
    RetryableFailure(Vec<FailureKey>),
}

/// An optional string as an optional character sequence.
pub open spec fn opt_view(o: Option<String>) -> Option<Seq<char>> {
    match o {
        Some(s) => Some(s@),
        None => None,
    }
}

/// The dedup key of a failure: (node, target partition, reason message).
pub open spec fn key_of(f: Failure) -> (Seq<char>, Option<Seq<char>>, Seq<char>) {
    (f.node@, opt_view(f.index), f.reason@)
}

/// The (node, target partition, reason message) of a reported key.
pub open spec fn key_view(k: FailureKey) -> (Seq<char>, Option<Seq<char>>, Seq<char>) {
    (k.node@, opt_view(k.index), k.reason@)
}

/// The set of distinct keys of `fs`.
pub open spec fn key_set(fs: Seq<Failure>) -> Set<(Seq<char>, Option<Seq<char>>, Seq<char>)> {
    Set::new(|k: (Seq<char>, Option<Seq<char>>, Seq<char>)| exists|j: int| 0 <= j < fs.len() && key_of(#[trigger] fs[j]) == k)
}

/// The set of the keys in `keys`.
pub open spec fn listed_keys(keys: Seq<FailureKey>) -> Set<(Seq<char>, Option<Seq<char>>, Seq<char>)> {
    Set::new(|k: (Seq<char>, Option<Seq<char>>, Seq<char>)| exists|i: int| 0 <= i < keys.len() && key_view(#[trigger] keys[i]) == k)
}

/// `keys` lists each key of `fs` exactly once, and nothing else.
pub open spec fn is_dedup_of(keys: Seq<FailureKey>, fs: Seq<Failure>) -> bool {
    &&& forall|i: int, j: int|
        0 <= i < j < keys.len() ==> key_view(#[trigger] keys[i]) != key_view(#[trigger] keys[j])
    &&& listed_keys(keys) == key_set(fs)
}

/// The verdict kinds, as plain values.
pub enum Verdict {
    InProgress,
    Anomaly,
    Success,
    Retry,
}

/// What a poll reporting `completed` and `result` means.
pub open spec fn verdict(completed: bool, result: Option<CompletionResult>) -> Verdict {
    if !completed {
        Verdict::InProgress
    } else {
        match result {
            None => Verdict::Anomaly,
            Some(r) => if r.failures.len() == 0 {
                Verdict::Success
            } else {
                Verdict::Retry
            },
        }
    }
}

/// Whether `c` is the classification of a poll reporting `completed` and `result`.
pub open spec fn classifies(c: Classification, completed: bool, result: Option<CompletionResult>) -> bool {
    match verdict(completed, result) {
        Verdict::InProgress => c is InProgress,
        Verdict::Anomaly => c is Anomaly,
        Verdict::Success => c is Success,
        Verdict::Retry => match c {
            Classification::RetryableFailure(keys) => is_dedup_of(keys@, result.unwrap().failures@),
            _ => false,
        },
    }
}

fn clone_opt(o: &Option<String>) -> (r: Option<String>)
    ensures
        opt_view(r) == opt_view(*o),
{
    match o {
        Some(s) => Some(s.clone()),
        None => None,
    }
}

fn opt_eq(a: &Option<String>, b: &Option<String>) -> (r: bool)
    ensures
        r == (opt_view(*a) == opt_view(*b)),
{
    match (a, b) {
        (Some(x), Some(y)) => *x == *y,
        (None, None) => true,
        _ => false,
    }
}

fn key_matches(k: &FailureKey, f: &Failure) -> (r: bool)
    ensures
        r == (key_view(*k) == key_of(*f)),
{
    k.node == f.node && opt_eq(&k.index, &f.index) && k.reason == f.reason
}

/// The distinct (node, partition, reason) keys of `fs`, in order of first appearance.
pub fn dedup_failures(fs: &Vec<Failure>) -> (r: Vec<FailureKey>)
    ensures
        is_dedup_of(r@, fs@),
{
    let mut out: Vec<FailureKey> = Vec::new();
    // origin[a]: a failure whose key `out[a]` is; place[q]: where the key of `fs[q]` went.
    let ghost mut origin: Seq<int> = Seq::empty();
    let ghost mut place: Seq<int> = Seq::empty();
    let mut j: usize = 0;
    while j < fs.len()
        invariant
            j <= fs.len(),
            origin.len() == out@.len(),
            place.len() == j,
            forall|a: int, b: int|
                0 <= a < b < out@.len() ==> key_view(#[trigger] out@[a]) != key_view(#[trigger] out@[b]),
            forall|a: int|
                0 <= a < out@.len() ==> 0 <= #[trigger] origin[a] < j && key_of(fs@[origin[a]]) == key_view(out@[a]),
            forall|q: int|
                0 <= q < j ==> 0 <= #[trigger] place[q] < out@.len() && key_view(out@[place[q]]) == key_of(fs@[q]),
        decreases fs.len() - j,
    {
        let f = &fs[j];
        let mut seen = false;
        let mut a: usize = 0;
        while a < out.len() && !seen
            invariant
                a <= out@.len(),
                j < fs@.len(),
                f == fs@[j as int],
                !seen ==> forall|b: int| 0 <= b < a ==> key_view(#[trigger] out@[b]) != key_of(*f),
                seen ==> a > 0 && key_view(out@[a - 1]) == key_of(*f),
            decreases out@.len() - a,
        {
            if key_matches(&out[a], f) {
                seen = true;
            }
            a = a + 1;
        }
        if seen {
            proof {
                place = place.push(a - 1);
            }
        } else {
            let k = FailureKey { node: f.node.clone(), index: clone_opt(&f.index), reason: f.reason.clone() };
            assert(key_view(k) == key_of(fs@[j as int]));
            proof {
                place = place.push(out@.len() as int);
                origin = origin.push(j as int);
            }
            out.push(k);
        }
        j = j + 1;
    }
    assert forall|k| #[trigger] key_set(fs@).contains(k) implies listed_keys(out@).contains(k) by {
        let q = choose|q: int| 0 <= q < fs@.len() && key_of(#[trigger] fs@[q]) == k;
        let i = place[q];
        assert(key_view(out@[i]) == k);
    }
    assert forall|k| #[trigger] listed_keys(out@).contains(k) implies key_set(fs@).contains(k) by {
        let i = choose|i: int| 0 <= i < out@.len() && key_view(#[trigger] out@[i]) == k;
        let q = origin[i];
        assert(key_of(fs@[q]) == k);
    }
    assert(listed_keys(out@) =~= key_set(fs@));
    out
}

/// Decides what a poll means: still running, completed without a result
/// (anomaly), completed cleanly, or completed with failures worth a restart.
pub fn classify(completed: bool, result: &Option<CompletionResult>) -> (c: Classification)
    ensures
        classifies(c, completed, *result),
{
    if !completed {
        Classification::InProgress
    } else {
        match result {
            None => Classification::Anomaly,
            Some(r) => if r.failures.len() == 0 {
                Classification::Success
            } else {
                Classification::RetryableFailure(dedup_failures(&r.failures))
            },
        }
    }
}

} // verus!
