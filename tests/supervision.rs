use delete_by_query::{
    cancel_exit_code, cancel_path, classify, clamp_count, decimal, dedup_failures, poll_path,
    submit_path, Action, CancelDirective, CancelWatch, Classification, CompletionResult, Event,
    Failure, Phase, PollReport, Progress, ProgressSnapshot, SubmitOptions, Supervisor, WatchEvent,
    CANCEL_FAILED_EXIT, DEFAULT_RESTART_PAUSE_SECS, POLL_ERROR_DELAY_SECS,
    PROGRESS_POLL_DELAY_SECS, SUBMIT_FAILED_EXIT, WARM_UP_DELAY_SECS,
};

fn snap(total: i64, deleted: i64) -> ProgressSnapshot {
    ProgressSnapshot {
        total,
        updated: 0,
        created: 0,
        deleted,
        batches: 1,
        version_conflicts: 0,
        noops: 0,
        retries_bulk: 0,
        retries_search: 0,
        throttled_millis: 0,
        throttled_until_millis: 0,
    }
}

fn failure(node: &str, index: Option<&str>, shard: i64, reason: &str) -> Failure {
    Failure {
        index: index.map(|s| s.to_string()),
        node: node.to_string(),
        shard,
        reason: reason.to_string(),
        kind: "es_rejected_execution_exception".to_string(),
    }
}

fn result(deleted: i64, failures: Vec<Failure>) -> CompletionResult {
    CompletionResult { status: snap(deleted, deleted), took: 100, timed_out: false, failures }
}

fn running(total: i64, deleted: i64) -> Event {
    Event::Polled(PollReport { completed: false, status: snap(total, deleted), result: None })
}

fn done(total: i64, deleted: i64, failures: Vec<Failure>) -> Event {
    Event::Polled(PollReport {
        completed: true,
        status: snap(total, deleted),
        result: Some(result(deleted, failures)),
    })
}

fn started(pause: u64, job: &str) -> Supervisor {
    let mut s = Supervisor::new(pause);
    assert!(matches!(s.step(Event::Start), Action::Submit));
    match s.step(Event::Submitted(job.to_string())) {
        Action::Publish { job: j, delay_secs } => {
            assert_eq!(j, job);
            assert_eq!(delay_secs, WARM_UP_DELAY_SECS);
        }
        other => panic!("unexpected {:?}", other),
    }
    s
}

#[test]
fn clamp_floors_negative_counts() {
    assert_eq!(clamp_count(-5), 0);
    assert_eq!(clamp_count(0), 0);
    assert_eq!(clamp_count(42), 42);
}

#[test]
fn displayed_total_is_max_of_polls() {
    let mut p = Progress::new();
    for t in [0i64, 5, 3, 10, 7, -1] {
        p.observe(&snap(t, 0));
    }
    assert_eq!(p.length(), 10);
}

#[test]
fn displayed_total_of_negative_polls_is_zero() {
    let mut p = Progress::new();
    p.observe(&snap(-3, -2));
    assert_eq!(p.length(), 0);
    assert_eq!(p.position(), 0);
}

#[test]
fn deleted_total_is_sum_over_restarts() {
    let mut p = Progress::new();
    p.observe(&snap(100, 40));
    assert_eq!(p.position(), 40);
    p.fold_on_completion(40);
    assert_eq!(p.deleted_total(), 40);
    assert_eq!(p.position(), 40);
    p.observe(&snap(60, 25));
    assert_eq!(p.position(), 65);
    p.fold_on_completion(60);
    p.fold_on_completion(-7);
    assert_eq!(p.deleted_total(), 100);
    assert_eq!(p.length(), 100);
}

#[test]
fn deleted_total_saturates() {
    let mut p = Progress::new();
    p.fold_on_completion(i64::MAX);
    p.fold_on_completion(i64::MAX);
    p.fold_on_completion(i64::MAX);
    assert_eq!(p.deleted_total(), u64::MAX);
}

#[test]
fn dedup_collapses_equal_tuples() {
    let fs = vec![
        failure("n1", Some("i1"), 0, "r1"),
        failure("n1", Some("i1"), 3, "r1"),
        failure("n2", Some("i2"), 1, "r2"),
    ];
    let keys = dedup_failures(&fs);
    assert_eq!(keys.len(), 2);
    assert_eq!(keys[0].node, "n1");
    assert_eq!(keys[0].index.as_deref(), Some("i1"));
    assert_eq!(keys[0].reason, "r1");
    assert_eq!(keys[1].node, "n2");
    assert_eq!(keys[1].reason, "r2");
    match classify(true, &Some(result(3, fs))) {
        Classification::RetryableFailure(k) => assert_eq!(k.len(), 2),
        other => panic!("unexpected {:?}", other),
    }
}

#[test]
fn dedup_tells_partitions_apart() {
    let fs = vec![failure("n1", Some("i1"), 0, "r1"), failure("n1", None, 0, "r1"), failure("n1", Some("i2"), 0, "r1")];
    assert_eq!(dedup_failures(&fs).len(), 3);
    assert_eq!(dedup_failures(&vec![]).len(), 0);
}

#[test]
fn classify_each_verdict() {
    assert!(matches!(classify(false, &None), Classification::InProgress));
    assert!(matches!(classify(false, &Some(result(1, vec![]))), Classification::InProgress));
    assert!(matches!(classify(true, &None), Classification::Anomaly));
    assert!(matches!(classify(true, &Some(result(1, vec![]))), Classification::Success));
}

#[test]
fn interrupt_before_publish_waits_then_cancels_once() {
    let mut w = CancelWatch::new();
    assert!(matches!(w.on_event(WatchEvent::Interrupted), CancelDirective::AwaitJob));
    assert!(!w.cancel_sent());
    match w.on_event(WatchEvent::Published("node:1".to_string())) {
        CancelDirective::Cancel(j) => assert_eq!(j, "node:1"),
        other => panic!("unexpected {:?}", matches!(other, CancelDirective::Idle)),
    }
    assert!(w.cancel_sent());
    assert!(matches!(w.on_event(WatchEvent::Published("node:2".to_string())), CancelDirective::Idle));
    assert!(matches!(w.on_event(WatchEvent::Interrupted), CancelDirective::Idle));
}

#[test]
fn interrupt_cancels_latest_job() {
    let mut w = CancelWatch::new();
    assert!(matches!(w.on_event(WatchEvent::Published("node:1".to_string())), CancelDirective::Idle));
    assert!(matches!(w.on_event(WatchEvent::Published("node:2".to_string())), CancelDirective::Idle));
    match w.on_event(WatchEvent::Interrupted) {
        CancelDirective::Cancel(j) => assert_eq!(j, "node:2"),
        _ => panic!("expected a cancel"),
    }
    assert!(matches!(w.on_event(WatchEvent::Interrupted), CancelDirective::Idle));
}

#[test]
fn cancel_exit_codes() {
    assert_eq!(cancel_exit_code(true), 0);
    assert_eq!(cancel_exit_code(false), CANCEL_FAILED_EXIT);
    assert_ne!(CANCEL_FAILED_EXIT, 0);
}

#[test]
fn clean_completion_succeeds() {
    let mut s = started(DEFAULT_RESTART_PAUSE_SECS, "node:7");
    match s.step(running(50, 20)) {
        Action::Poll { job, delay_secs } => {
            assert_eq!(job, "node:7");
            assert_eq!(delay_secs, PROGRESS_POLL_DELAY_SECS);
        }
        other => panic!("unexpected {:?}", other),
    }
    assert_eq!(s.position(), 20);
    assert_eq!(s.length(), 50);
    assert!(matches!(s.step(done(50, 50, vec![])), Action::Exit { code: 0 }));
    assert_eq!(s.phase(), Phase::Succeeded);
    assert_eq!(s.deleted_total(), 50);
    assert!(matches!(s.step(Event::Start), Action::Ignore));
}

#[test]
fn failures_restart_twice_and_carry_total() {
    let mut s = started(30, "node:1");
    let fs = || vec![failure("n1", Some("i1"), 0, "r1"), failure("n1", Some("i1"), 1, "r1")];
    match s.step(done(100, 40, fs())) {
        Action::Restart { failures, delay_secs } => {
            assert_eq!(failures.len(), 1);
            assert_eq!(delay_secs, 30);
        }
        other => panic!("unexpected {:?}", other),
    }
    assert_eq!(s.phase(), Phase::Pausing);
    assert_eq!(s.deleted_total(), 40);
    assert!(matches!(s.step(Event::PauseElapsed), Action::Submit));
    assert!(matches!(s.step(Event::Submitted("node:2".to_string())), Action::Publish { .. }));
    assert_eq!(s.job().as_deref(), Some("node:2"));
    s.step(running(60, 10));
    assert_eq!(s.position(), 50);
    assert_eq!(s.length(), 100);
    match s.step(done(60, 25, fs())) {
        Action::Restart { failures, delay_secs } => {
            assert_eq!(failures.len(), 1);
            assert_eq!(delay_secs, 30);
        }
        other => panic!("unexpected {:?}", other),
    }
    assert_eq!(s.deleted_total(), 65);
    assert!(matches!(s.step(Event::PauseElapsed), Action::Submit));
    s.step(Event::Submitted("node:3".to_string()));
    assert!(matches!(s.step(done(35, 35, vec![])), Action::Exit { code: 0 }));
    assert_eq!(s.deleted_total(), 100);
}

#[test]
fn poll_errors_retry_without_restart() {
    let mut s = started(DEFAULT_RESTART_PAUSE_SECS, "node:9");
    for _ in 0..3 {
        match s.step(Event::PollFailed) {
            Action::Poll { job, delay_secs } => {
                assert_eq!(job, "node:9");
                assert_eq!(delay_secs, POLL_ERROR_DELAY_SECS);
            }
            other => panic!("unexpected {:?}", other),
        }
        assert_eq!(s.phase(), Phase::Polling);
    }
    assert!(matches!(s.step(running(10, 3)), Action::Poll { delay_secs: PROGRESS_POLL_DELAY_SECS, .. }));
    assert_eq!(s.phase(), Phase::Polling);
    assert_eq!(s.job().as_deref(), Some("node:9"));
}

#[test]
fn completion_without_result_is_anomaly() {
    let mut s = started(DEFAULT_RESTART_PAUSE_SECS, "node:4");
    let e = Event::Polled(PollReport { completed: true, status: snap(10, 10), result: None });
    assert!(matches!(s.step(e), Action::Exit { code: 0 }));
    assert_eq!(s.phase(), Phase::Anomaly);
    assert_eq!(s.deleted_total(), 0);
    assert!(matches!(s.step(Event::PauseElapsed), Action::Ignore));
    assert!(matches!(s.step(Event::Start), Action::Ignore));
    assert_eq!(s.phase(), Phase::Anomaly);
}

#[test]
fn submission_failure_aborts() {
    let mut s = Supervisor::new(DEFAULT_RESTART_PAUSE_SECS);
    assert!(matches!(s.step(Event::PollFailed), Action::Ignore));
    s.step(Event::Start);
    assert!(matches!(s.step(Event::SubmitFailed), Action::Exit { code: SUBMIT_FAILED_EXIT }));
    assert_eq!(s.phase(), Phase::Aborted);
    assert!(s.job().is_none());
}

#[test]
fn submit_path_with_all_options() {
    let o = SubmitOptions {
        index: "logs-*".to_string(),
        requests_per_second: Some(500),
        scroll_size: Some(1000),
        abort_on_conflict: false,
    };
    assert_eq!(
        submit_path(&o),
        "/logs-*/_delete_by_query?wait_for_completion=false&conflicts=proceed&requests_per_second=500&scroll_size=1000"
    );
}

#[test]
fn submit_path_minimal_and_abort() {
    let o = SubmitOptions {
        index: "*".to_string(),
        requests_per_second: None,
        scroll_size: None,
        abort_on_conflict: true,
    };
    assert_eq!(submit_path(&o), "/*/_delete_by_query?wait_for_completion=false&conflicts=abort");
    let n = SubmitOptions { requests_per_second: Some(-1), ..o };
    assert_eq!(
        submit_path(&n),
        "/*/_delete_by_query?wait_for_completion=false&conflicts=abort&requests_per_second=-1"
    );
}

#[test]
fn decimal_text() {
    assert_eq!(decimal(0), "0");
    assert_eq!(decimal(7), "7");
    assert_eq!(decimal(1234567890), "1234567890");
    assert_eq!(decimal(u64::MAX), "18446744073709551615");
}

#[test]
fn task_paths() {
    assert_eq!(poll_path("abc:12"), "/_tasks/abc:12");
    assert_eq!(cancel_path("abc:12"), "/_tasks/abc:12/_cancel");
}
