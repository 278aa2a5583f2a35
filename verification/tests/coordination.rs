use eth_wallet_generator::coordinator::{
    default_prefix, should_report_progress, worker_next, ProgressCounter, WorkerState,
    DEFAULT_CLEAN_RATIO_PPM, PROGRESS_INTERVAL,
};

#[test]
fn counter_counts_every_examination() {
    let mut counter = ProgressCounter::new();
    assert_eq!(counter.count, 0);
    let examinations: u64 = 5000;
    let mut last = 0;
    for _ in 0..examinations {
        last = counter.increment();
    }
    assert_eq!(counter.count, examinations);
    assert_eq!(last, examinations);
}

#[test]
fn progress_reported_every_interval() {
    assert!(should_report_progress(PROGRESS_INTERVAL));
    assert!(should_report_progress(2 * PROGRESS_INTERVAL));
    assert!(!should_report_progress(PROGRESS_INTERVAL - 1));
    assert!(!should_report_progress(PROGRESS_INTERVAL + 1));
}

#[test]
fn worker_stops_on_cancellation() {
    let running = worker_next(WorkerState::Running, true);
    assert!(matches!(running, WorkerState::Running));
    let stopped = worker_next(WorkerState::Running, false);
    assert!(matches!(stopped, WorkerState::Stopped));
}

#[test]
fn stopped_worker_stays_stopped() {
    let state = worker_next(WorkerState::Stopped, true);
    assert!(matches!(state, WorkerState::Stopped));
    let state = worker_next(WorkerState::Stopped, false);
    assert!(matches!(state, WorkerState::Stopped));
}

#[test]
fn run_defaults() {
    assert_eq!(default_prefix(), "0x1337");
    assert_eq!(DEFAULT_CLEAN_RATIO_PPM, 920000);
}
