use kafka_benchmark::config::{ProducerScenario, ProducerType};
use kafka_benchmark::runner::{
    aggregate_results, worker_complete_burst, worker_init, worker_next, worker_record_failure,
    worker_record_send, WorkerAction, WorkerState,
};
use kafka_benchmark::units::rate_per_sec;

fn scenario(threads: u64, repeat_times: u64, message_count: u64) -> ProducerScenario {
    ProducerScenario {
        repeat_times,
        repeat_pause: 0,
        threads,
        producer_type: ProducerType::BaseProducer,
        message_size: 100,
        message_count,
        message_file: "payloads.cache".to_string(),
        topic: "bench".to_string(),
        producer_config: vec![("bootstrap.servers".to_string(), "localhost:9092".to_string())],
    }
}

/// Drive one worker through its burst loop, failing its `fail_after`-th send
/// if one is given; every payload counts 100 bytes.
fn run_worker(s: &ProducerScenario, fail_after: Option<u64>) -> WorkerState {
    let mut st = worker_init();
    let mut sends: u64 = 0;
    loop {
        match worker_next(s, &st) {
            WorkerAction::Send => {
                if fail_after == Some(sends) {
                    worker_record_failure(s, &mut st);
                } else {
                    worker_record_send(s, &mut st, 100);
                    sends += 1;
                }
            }
            WorkerAction::Pause => {
                // The real coordinator sleeps `repeat_pause` here.
                worker_complete_burst(s, &mut st);
            }
            WorkerAction::Done => return st,
        }
    }
}

#[test]
fn full_run_issues_exactly_the_configured_sends() {
    let s = scenario(4, 3, 10);
    let mut workers: Vec<WorkerState> = Vec::new();
    for _ in 0..s.threads {
        let st = run_worker(&s, None);
        assert_eq!(st.messages_sent, 30);
        assert!(!st.failed);
        workers.push(st);
    }
    let result = aggregate_results(&workers, 1000);
    assert_eq!(result.messages_sent, 120);
    assert_eq!(result.bytes_sent, 12000);
    assert_eq!(result.failed_workers, 0);
    assert_eq!(result.duration_ms, 1000);
}

#[test]
fn one_failed_worker_does_not_reduce_the_others() {
    let s = scenario(4, 3, 10);
    let mut workers: Vec<WorkerState> = Vec::new();
    for i in 0..s.threads {
        let fail_after = if i == 0 { Some(5) } else { None };
        workers.push(run_worker(&s, fail_after));
    }
    assert_eq!(workers[0].messages_sent, 5);
    assert!(workers[0].failed);
    for w in &workers[1..] {
        assert_eq!(w.messages_sent, 30);
        assert!(!w.failed);
    }
    let result = aggregate_results(&workers, 1000);
    // The total is the sum of the per-worker counts: 5 + 3 * 30.
    assert_eq!(result.messages_sent, 95);
    assert_eq!(result.failed_workers, 1);
}

#[test]
fn worker_with_zero_bursts_sends_nothing() {
    let s = scenario(1, 0, 10);
    let st = run_worker(&s, None);
    assert_eq!(st.messages_sent, 0);
    assert_eq!(st.bursts_completed, 0);
}

#[test]
fn aggregate_of_no_workers_is_empty() {
    let workers: Vec<WorkerState> = Vec::new();
    let result = aggregate_results(&workers, 500);
    assert_eq!(result.messages_sent, 0);
    assert_eq!(result.bytes_sent, 0);
    assert_eq!(result.failed_workers, 0);
}

#[test]
fn rates_are_counts_scaled_to_seconds() {
    assert_eq!(rate_per_sec(120, 1000), 120);
    assert_eq!(rate_per_sec(120, 2000), 60);
    assert_eq!(rate_per_sec(1, 3000), 0);
    assert_eq!(rate_per_sec(12000, 500), 24000);
}

#[test]
fn zero_duration_reports_zero_rate() {
    assert_eq!(rate_per_sec(120, 0), 0);
}
