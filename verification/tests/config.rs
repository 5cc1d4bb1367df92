use indy_load_generator::config::{stop_due, worker_count, Args, StopCondition};
use indy_load_generator::counters::WorkerCounters;
use indy_load_generator::report::ThroughputReport;

fn args(threads: Option<u32>, duration: Option<u64>, reads: i8) -> Args {
    Args {
        seed: String::from("000000000000000000000000Trustee1"),
        genesis_file: String::from("./pool_transactions_genesis"),
        threads,
        duration,
        reads,
        revocation_entries: 1,
    }
}

#[test]
fn worker_count_is_the_number_asked_for() {
    assert_eq!(worker_count(Some(3), 8), 3);
    assert_eq!(worker_count(Some(0), 8), 0);
    assert_eq!(args(Some(12), None, 0).worker_count(), 12);
}

#[test]
fn worker_count_defaults_to_the_cores() {
    assert_eq!(worker_count(None, 8), 8);
    assert_eq!(worker_count(None, 1), 1);
    assert!(args(None, None, 0).worker_count() >= 1);
}

#[test]
fn worker_count_keeps_the_low_bits_of_the_cores() {
    if usize::BITS > 32 {
        let cores = (1u64 << 32) as usize + 6;
        assert_eq!(worker_count(None, cores), 6);
    }
    assert_eq!(worker_count(None, u32::MAX as usize), u32::MAX);
}

#[test]
fn duration_decides_what_ends_the_run() {
    assert_eq!(args(None, Some(15), 0).stop_condition(), StopCondition::After(15));
    assert_eq!(args(None, Some(0), 0).stop_condition(), StopCondition::After(0));
    assert_eq!(args(None, None, 0).stop_condition(), StopCondition::UntilInterrupt);
}

#[test]
fn timed_run_ends_by_time_alone() {
    assert!(!stop_due(StopCondition::After(5), 4, false));
    assert!(!stop_due(StopCondition::After(5), 4, true));
    assert!(stop_due(StopCondition::After(5), 5, false));
    assert!(stop_due(StopCondition::After(5), 6, true));
    assert!(stop_due(StopCondition::After(0), 0, false));
}

#[test]
fn untimed_run_ends_by_interrupt_alone() {
    assert!(!stop_due(StopCondition::UntilInterrupt, 0, false));
    assert!(!stop_due(StopCondition::UntilInterrupt, u64::MAX, false));
    assert!(stop_due(StopCondition::UntilInterrupt, 0, true));
}

#[test]
fn negative_reads_mean_none() {
    assert_eq!(args(None, None, 0).reads_per_write(), 0);
    assert_eq!(args(None, None, 3).reads_per_write(), 3);
    assert_eq!(args(None, None, 127).reads_per_write(), 127);
    assert_eq!(args(None, None, -1).reads_per_write(), 0);
    assert_eq!(args(None, None, -128).reads_per_write(), 0);
}

#[test]
fn report_carries_totals_and_time() {
    let report = ThroughputReport::new(WorkerCounters { writes: 75, reads: 10 }, 5);
    assert_eq!(
        report,
        ThroughputReport { total_writes: 75, total_reads: 10, elapsed_seconds: 5 }
    );
    assert_eq!(report.writes_per_second(), Some(15));
    assert_eq!(report.reads_per_second(), Some(2));
}

#[test]
fn rates_are_whole_operations_per_second() {
    let report = ThroughputReport { total_writes: 9, total_reads: 10, elapsed_seconds: 10 };
    assert_eq!(report.writes_per_second(), Some(0));
    assert_eq!(report.reads_per_second(), Some(1));
    let report = ThroughputReport { total_writes: u64::MAX, total_reads: 0, elapsed_seconds: 1 };
    assert_eq!(report.writes_per_second(), Some(u64::MAX));
}

#[test]
fn no_rate_without_measured_time() {
    let report = ThroughputReport { total_writes: 9, total_reads: 10, elapsed_seconds: 0 };
    assert_eq!(report.writes_per_second(), None);
    assert_eq!(report.reads_per_second(), None);
}
