use indy_load_generator::counters::{PipelineResult, Stage, WorkerCounters};
use indy_load_generator::worker::{resolve, IndyWorker, LoopEvent, Message};

fn completed(writes: u64, reads: u64) -> LoopEvent {
    LoopEvent::Completed(PipelineResult {
        writes_completed: writes,
        reads_completed: reads,
        last_completed_stage: if writes == 0 { None } else { Some(Stage::Identity) },
    })
}

#[test]
fn new_worker_has_counted_nothing() {
    let worker = IndyWorker::new(String::from("1"), 2, 7);
    assert_eq!(worker.id, "1");
    assert_eq!(worker.read_ratio, 2);
    assert_eq!(worker.revocation_entries, 7);
    assert_eq!(worker.counters(), WorkerCounters { writes: 0, reads: 0 });
}

#[test]
fn loop_folds_every_result_before_the_command_once() {
    let mut worker = IndyWorker::new(String::from("1"), 0, 1);
    let events = vec![
        completed(5, 0),
        completed(1, 2),
        completed(0, 0),
        completed(7, 3),
        LoopEvent::Command(Message::Exit),
    ];
    assert_eq!(worker.run_loop(&events), (13, 5));
    assert_eq!(worker.counters(), WorkerCounters { writes: 13, reads: 5 });
}

#[test]
fn nothing_after_the_command_is_counted() {
    let mut worker = IndyWorker::new(String::from("1"), 0, 1);
    let events = vec![
        completed(5, 1),
        LoopEvent::Command(Message::Exit),
        completed(5, 1),
        LoopEvent::Command(Message::Exit),
        completed(5, 1),
    ];
    assert_eq!(worker.run_loop(&events), (5, 1));
    assert_eq!(worker.writes, 5);
    assert_eq!(worker.reads, 1);
}

#[test]
fn command_with_no_pipeline_returned_ends_the_loop_at_once() {
    let mut worker = IndyWorker::new(String::from("3"), 0, 1);
    let events = vec![LoopEvent::Command(Message::Exit), completed(5, 0)];
    assert_eq!(worker.run_loop(&events), (0, 0));
    assert_eq!(worker.counters(), WorkerCounters { writes: 0, reads: 0 });
}

#[test]
fn loop_without_command_folds_all_results() {
    let mut worker = IndyWorker::new(String::from("1"), 0, 1);
    assert_eq!(worker.run_loop(&vec![]), (0, 0));
    assert_eq!(worker.run_loop(&vec![completed(2, 1), completed(3, 1)]), (5, 2));
}

#[test]
fn loop_goes_on_from_the_counters_it_has() {
    let mut worker = IndyWorker::new(String::from("1"), 0, 1);
    worker.run_loop(&vec![completed(2, 1), LoopEvent::Command(Message::Exit)]);
    assert_eq!(
        worker.run_loop(&vec![completed(4, 4), LoopEvent::Command(Message::Exit)]),
        (6, 5)
    );
}

#[test]
fn on_event_folds_a_result_and_goes_on() {
    let mut worker = IndyWorker::new(String::from("1"), 0, 1);
    assert_eq!(worker.on_event(completed(5, 2)), None);
    assert_eq!((worker.writes, worker.reads), (5, 2));
    assert_eq!(worker.on_event(completed(1, 0)), None);
    assert_eq!((worker.writes, worker.reads), (6, 2));
}

#[test]
fn on_event_ends_on_a_command_with_the_counters_as_they_stand() {
    let mut worker = IndyWorker::new(String::from("1"), 0, 1);
    worker.on_event(completed(5, 2));
    assert_eq!(worker.on_event(LoopEvent::Command(Message::Exit)), Some((5, 2)));
    assert_eq!((worker.writes, worker.reads), (5, 2));
}

#[test]
fn command_wins_over_a_completed_pipeline() {
    let result = PipelineResult {
        writes_completed: 5,
        reads_completed: 0,
        last_completed_stage: Some(Stage::RevocationRegistryInit),
    };
    assert_eq!(
        resolve(Some(Message::Exit), Some(result)),
        Some(LoopEvent::Command(Message::Exit))
    );
    assert_eq!(resolve(Some(Message::Exit), None), Some(LoopEvent::Command(Message::Exit)));
    assert_eq!(resolve(None, Some(result)), Some(LoopEvent::Completed(result)));
    assert_eq!(resolve(None, None), None);
}

#[test]
fn can_fold_tells_when_the_counters_would_overflow() {
    let mut worker = IndyWorker::new(String::from("1"), 0, 1);
    worker.writes = u64::MAX - 5;
    worker.reads = 10;
    let fits = PipelineResult { writes_completed: 5, reads_completed: 1, last_completed_stage: None };
    let over = PipelineResult { writes_completed: 6, reads_completed: 1, last_completed_stage: None };
    assert!(worker.can_fold(&fits));
    assert!(!worker.can_fold(&over));
    assert_eq!(worker.on_event(LoopEvent::Completed(fits)), None);
    assert_eq!(worker.writes, u64::MAX);
}

#[test]
fn worker_builds_pipelines_from_its_configuration() {
    let worker = IndyWorker::new(String::from("1"), 3, 9);
    let pipeline = worker.pipeline();
    assert_eq!(pipeline.revocation_entries, 9);
    assert_eq!(pipeline.reads_per_write, 3);
    assert_eq!(pipeline.writes, 0);
    assert!(!pipeline.is_finished());
}

#[test]
fn counters_record_results() {
    let mut counters = WorkerCounters::new();
    assert_eq!(counters.as_pair(), (0, 0));
    let result = PipelineResult {
        writes_completed: 5,
        reads_completed: 2,
        last_completed_stage: Some(Stage::RevocationRegistryInit),
    };
    assert!(counters.can_record(&result));
    counters.record(&result);
    counters.record(&result);
    assert_eq!(counters, WorkerCounters { writes: 10, reads: 4 });
    assert_eq!(counters.as_pair(), (10, 4));
    let full = WorkerCounters { writes: 1, reads: u64::MAX - 1 };
    assert!(!full.can_record(&result));
}

#[test]
fn can_fold_all_looks_at_what_precedes_the_command() {
    let mut worker = IndyWorker::new(String::from("1"), 0, 1);
    worker.writes = u64::MAX - 10;
    assert!(worker.can_fold_all(&vec![]));
    assert!(worker.can_fold_all(&vec![completed(5, 0), completed(5, 0)]));
    assert!(!worker.can_fold_all(&vec![completed(5, 0), completed(6, 0)]));
    assert!(worker.can_fold_all(&vec![
        completed(5, 0),
        LoopEvent::Command(Message::Exit),
        completed(6, 0),
    ]));
    assert!(!worker.can_fold_all(&vec![completed(0, u64::MAX), completed(0, 1)]));
    assert_eq!(
        worker.run_loop(&vec![completed(5, 1), completed(5, 2), LoopEvent::Command(Message::Exit)]),
        (u64::MAX, 3)
    );
}
