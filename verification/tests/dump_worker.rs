use hybrid_cache::store::HttpVersion;
use hybrid_cache::worker::{
    default_qps, default_queue_cap, default_timeout_ms, enqueue_best_effort,
    init_remote_dump_worker, tick_interval_ms, try_enqueue, worke_inited, worker_new, worker_step,
    DumpJob, WorkerAction, WorkerEvent,
};

fn job(key: &str) -> DumpJob {
    DumpJob {
        cache_key: key.to_string(),
        cache_site: "example.com".to_string(),
        url: "https://example.com/a".to_string(),
        method: "GET".to_string(),
        status: 200,
        request_headers: vec![],
        response_headers: vec![],
        body: vec![1, 2, 3],
        http_version: HttpVersion::Http11,
        dump_remote: None,
    }
}

#[test]
fn configuration_defaults() {
    assert_eq!(default_queue_cap(), 10_000);
    assert_eq!(default_qps(), 50);
    assert_eq!(default_timeout_ms(), 2_500);
}

#[test]
fn tick_interval_matches_the_rate_limit() {
    assert_eq!(tick_interval_ms(10), 100);
    assert_eq!(tick_interval_ms(50), 20);
    assert_eq!(tick_interval_ms(1), 1000);
    assert_eq!(tick_interval_ms(0), 1000);
    assert_eq!(tick_interval_ms(3000), 1);
}

#[test]
fn init_is_lazy_and_idempotent() {
    let mut w = worker_new();
    assert!(!worke_inited(&w));
    init_remote_dump_worker(&mut w, 100, 10, 500);
    assert!(worke_inited(&w));
    assert_eq!(w.cap, 100);
    assert_eq!(w.qps, 10);
    assert_eq!(w.timeout_ms, 500);
    // A second init leaves the first configuration in place.
    init_remote_dump_worker(&mut w, 7, 7, 7);
    assert_eq!(w.cap, 100);
    assert_eq!(w.qps, 10);
    assert_eq!(w.timeout_ms, 500);
}

#[test]
fn fast_path_enqueue_drops_before_init() {
    let mut w = worker_new();
    assert!(!try_enqueue(&mut w, job("k1")));
    assert_eq!(w.queue.len(), 0);
}

#[test]
fn best_effort_enqueue_never_blocks_on_a_full_queue() {
    let mut w = worker_new();
    // First use initializes with the given configuration: capacity one.
    assert!(enqueue_best_effort(&mut w, job("k1"), 1, 50, 2500));
    // The queue is full: the job is dropped at once, never waited for.
    assert!(!enqueue_best_effort(&mut w, job("k2"), 1, 50, 2500));
    assert_eq!(w.queue.len(), 1);
    assert_eq!(w.queue[0].cache_key, "k1");
}

#[test]
fn duplicate_key_is_dropped_while_in_flight() {
    let mut w = worker_new();
    init_remote_dump_worker(&mut w, 10, 50, 2500);
    let a1 = worker_step(&mut w, &WorkerEvent::JobArrived(job("same-key")));
    assert_eq!(a1, WorkerAction::PushAfterTick);
    // The same key arrives again before the first push finished.
    let a2 = worker_step(&mut w, &WorkerEvent::JobArrived(job("same-key")));
    assert_eq!(a2, WorkerAction::DropDuplicate);
    // A different key is admitted.
    let a3 = worker_step(&mut w, &WorkerEvent::JobArrived(job("other-key")));
    assert_eq!(a3, WorkerAction::PushAfterTick);
}

#[test]
fn finished_push_frees_its_key() {
    let mut w = worker_new();
    init_remote_dump_worker(&mut w, 10, 50, 2500);
    assert_eq!(worker_step(&mut w, &WorkerEvent::JobArrived(job("k"))), WorkerAction::PushAfterTick);
    let done = WorkerEvent::PushFinished { cache_key: "k".to_string(), timed_out: false };
    assert_eq!(worker_step(&mut w, &done), WorkerAction::Continue);
    assert_eq!(worker_step(&mut w, &WorkerEvent::JobArrived(job("k"))), WorkerAction::PushAfterTick);
}

#[test]
fn timed_out_push_is_logged_and_does_not_block_the_next_job() {
    let mut w = worker_new();
    init_remote_dump_worker(&mut w, 10, 50, 2500);
    assert_eq!(worker_step(&mut w, &WorkerEvent::JobArrived(job("slow"))), WorkerAction::PushAfterTick);
    let timed = WorkerEvent::PushFinished { cache_key: "slow".to_string(), timed_out: true };
    assert_eq!(worker_step(&mut w, &timed), WorkerAction::LogTimeout);
    // The worker goes on: the next job, same key included, is admitted.
    assert_eq!(worker_step(&mut w, &WorkerEvent::JobArrived(job("slow"))), WorkerAction::PushAfterTick);
}
