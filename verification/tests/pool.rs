use indy_load_generator::counters::{PipelineResult, WorkerCounters};
use indy_load_generator::pipeline::Outcome;
use indy_load_generator::pool::{run_load_test, runs_fit, Pool};
use indy_load_generator::replay::replay;
use indy_load_generator::report::ThroughputReport;
use indy_load_generator::threaded::Lifecycle;
use indy_load_generator::worker::{LoopEvent, Message};

fn stage_success(sequence: u64) -> Vec<Outcome> {
    vec![
        Outcome::Built(format!("id-{}", sequence)),
        Outcome::Signed,
        Outcome::Reply(format!("{{\"result\":{{\"txnMetadata\":{{\"seqNo\":{}}}}}}}", sequence)),
    ]
}

fn succeeding_pipeline(revocation_entries: u32) -> PipelineResult {
    let mut outcomes = Vec::new();
    for k in 0..40 {
        outcomes.extend(stage_success(k + 1));
    }
    replay(revocation_entries, 0, &outcomes)
}

fn pipeline_failing_at_schema() -> PipelineResult {
    let mut outcomes = stage_success(1);
    outcomes.push(Outcome::Built(String::from("schema")));
    outcomes.push(Outcome::Signed);
    outcomes.push(Outcome::Failed);
    replay(1, 0, &outcomes)
}

fn iterations(result: PipelineResult, n: usize) -> Vec<LoopEvent> {
    let mut events = vec![LoopEvent::Completed(result); n];
    events.push(LoopEvent::Command(Message::Exit));
    events
}

#[test]
fn three_workers_whose_pipelines_all_succeed() {
    let per_worker = 4;
    let result = succeeding_pipeline(1);
    assert_eq!(result.writes_completed, 5);
    let runs = vec![
        Some(iterations(result, per_worker)),
        Some(iterations(result, per_worker)),
        Some(iterations(result, per_worker)),
    ];
    let report = run_load_test(3, 0, 1, &runs, 5);
    assert_eq!(report.total_writes, 3 * per_worker as u64 * 5);
    assert_eq!(report.total_reads, 0);
    assert_eq!(report.elapsed_seconds, 5);
    assert_eq!(report.writes_per_second(), Some(12));
    assert_eq!(report.reads_per_second(), Some(0));
    let late = run_load_test(3, 0, 1, &runs, 7);
    assert_eq!(late.total_writes, 60);
    assert_eq!(late.writes_per_second(), Some(8));
}

#[test]
fn one_worker_whose_pipelines_all_fail_at_the_schema() {
    let result = pipeline_failing_at_schema();
    assert_eq!(result.writes_completed, 1);
    for n in [0usize, 1, 6, 25] {
        let runs = vec![Some(iterations(result, n))];
        let report = run_load_test(1, 0, 1, &runs, 3);
        assert_eq!(report.total_writes, n as u64);
        assert_eq!(report.total_reads, 0);
    }
}

#[test]
fn one_worker_that_cannot_be_initialised() {
    let runs: Vec<Option<Vec<LoopEvent>>> = vec![None];
    let report = run_load_test(1, 0, 1, &runs, 5);
    assert_eq!(
        report,
        ThroughputReport { total_writes: 0, total_reads: 0, elapsed_seconds: 5 }
    );
    assert_eq!(report.writes_per_second(), Some(0));
    assert_eq!(report.reads_per_second(), Some(0));
}

#[test]
fn workers_that_cannot_be_initialised_add_nothing() {
    let result = succeeding_pipeline(3);
    assert_eq!(result.writes_completed, 7);
    let runs = vec![
        None,
        Some(iterations(result, 2)),
        None,
        Some(iterations(result, 3)),
    ];
    let report = run_load_test(4, 0, 3, &runs, 10);
    assert_eq!(report.total_writes, 35);
}

#[test]
fn run_without_workers_reports_zero() {
    let report = run_load_test(0, 0, 1, &vec![], 2);
    assert_eq!(report.total_writes, 0);
    assert_eq!(report.total_reads, 0);
    assert_eq!(report.elapsed_seconds, 2);
}

#[test]
fn results_after_the_stop_are_not_reported() {
    let result = succeeding_pipeline(1);
    let mut events = iterations(result, 2);
    events.push(LoopEvent::Completed(result));
    let report = run_load_test(1, 0, 1, &vec![Some(events)], 1);
    assert_eq!(report.total_writes, 10);
}

#[test]
fn reads_are_reported_too() {
    let result = PipelineResult {
        writes_completed: 5,
        reads_completed: 3,
        last_completed_stage: None,
    };
    let runs = vec![Some(iterations(result, 2)), Some(iterations(result, 1))];
    let report = run_load_test(2, 3, 1, &runs, 4);
    assert_eq!(report.total_writes, 15);
    assert_eq!(report.total_reads, 9);
    assert_eq!(report.writes_per_second(), Some(3));
    assert_eq!(report.reads_per_second(), Some(2));
}

#[test]
fn pool_takes_in_only_workers_that_were_initialised() {
    let mut pool = Pool::new();
    assert_eq!(pool.len(), 0);
    assert!(pool.enlist(2, 1, true));
    assert!(!pool.enlist(2, 1, false));
    assert!(pool.enlist(2, 1, true));
    assert_eq!(pool.len(), 2);
    assert_eq!(pool.workers[0].worker.id, "1");
    assert_eq!(pool.workers[1].worker.id, "3");
    assert_eq!(pool.indices, vec![0, 2]);
    assert_eq!(pool.attempts, 3);
    assert_eq!(pool.workers[0].state, Lifecycle::Running);
    assert_eq!(pool.workers[1].state, Lifecycle::Running);
    assert_eq!(pool.workers[1].worker.read_ratio, 2);
    assert_eq!(pool.workers[1].worker.revocation_entries, 1);
}

#[test]
fn pool_stops_and_joins_all_its_workers() {
    let mut pool = Pool::new();
    pool.enlist(0, 1, true);
    pool.enlist(0, 1, true);
    pool.enlist(0, 1, true);
    pool.stop_all();
    assert!(pool.workers.iter().all(|w| w.state == Lifecycle::Stopping));
    pool.stop_all();
    assert!(pool.workers.iter().all(|w| w.state == Lifecycle::Stopping));
    let totals = pool.join_all(&vec![(5, 1), (10, 0), (15, 2)]);
    assert_eq!(totals, WorkerCounters { writes: 30, reads: 3 });
    assert!(pool.workers.iter().all(|w| w.state == Lifecycle::Terminated));
    assert_eq!(pool.workers[1].worker.writes, 10);
    let again = pool.join_all(&vec![(1, 1), (1, 1), (1, 1)]);
    assert_eq!(again, WorkerCounters { writes: 30, reads: 3 });
}

#[test]
fn empty_pool_joins_to_zero() {
    let mut pool = Pool::new();
    pool.stop_all();
    assert_eq!(pool.join_all(&vec![]), WorkerCounters { writes: 0, reads: 0 });
}

#[test]
fn can_join_all_asks_for_one_pair_per_worker_and_totals_that_fit() {
    let mut pool = Pool::new();
    pool.enlist(0, 1, true);
    pool.enlist(0, 1, true);
    assert!(pool.can_join_all(&vec![(1, 2), (3, 4)]));
    assert!(!pool.can_join_all(&vec![(1, 2)]));
    assert!(!pool.can_join_all(&vec![(1, 2), (3, 4), (5, 6)]));
    assert!(pool.can_join_all(&vec![(u64::MAX - 1, 0), (1, u64::MAX)]));
    assert!(!pool.can_join_all(&vec![(u64::MAX, 0), (1, 0)]));
    assert!(!pool.can_join_all(&vec![(0, u64::MAX), (0, 1)]));
    assert_eq!(
        pool.join_all(&vec![(u64::MAX - 1, 0), (1, u64::MAX)]),
        WorkerCounters { writes: u64::MAX, reads: u64::MAX }
    );
    assert!(pool.can_join_all(&vec![(u64::MAX, 0), (u64::MAX, 0)]));
    assert_eq!(
        pool.join_all(&vec![(u64::MAX, 0), (u64::MAX, 0)]),
        WorkerCounters { writes: u64::MAX, reads: u64::MAX }
    );
    assert!(Pool::new().can_join_all(&vec![]));
}

#[test]
fn runs_fit_tells_when_the_report_would_overflow() {
    let big = PipelineResult {
        writes_completed: u64::MAX - 1,
        reads_completed: 0,
        last_completed_stage: None,
    };
    let one = PipelineResult { writes_completed: 1, reads_completed: 0, last_completed_stage: None };
    assert!(runs_fit(&vec![]));
    assert!(runs_fit(&vec![None, Some(iterations(big, 1)), Some(iterations(one, 1))]));
    assert!(!runs_fit(&vec![Some(iterations(big, 1)), None, Some(iterations(one, 2))]));
    assert!(!runs_fit(&vec![Some(iterations(big, 2))]));
    let mut late = iterations(big, 1);
    late.push(LoopEvent::Completed(big));
    assert!(runs_fit(&vec![Some(late)]));
    let report = run_load_test(
        3,
        0,
        1,
        &vec![None, Some(iterations(big, 1)), Some(iterations(one, 1))],
        1,
    );
    assert_eq!(report.total_writes, u64::MAX);
}

#[test]
fn labels_in_a_pool_are_distinct() {
    let mut pool = Pool::new();
    for n in 0..40 {
        pool.enlist(0, 1, n % 3 != 1);
    }
    let mut labels: Vec<String> = pool.workers.iter().map(|w| w.worker.id.clone()).collect();
    let count = labels.len();
    assert_eq!(count, 27);
    labels.sort();
    labels.dedup();
    assert_eq!(labels.len(), count);
    assert_eq!(pool.workers[0].worker.id, "1");
    assert_eq!(pool.workers[1].worker.id, "3");
    assert_eq!(pool.workers[26].worker.id, "40");
}
