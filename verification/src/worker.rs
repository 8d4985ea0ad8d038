//! The remote dump worker's decisions: the bounded inbound queue, the
//! in-flight key set used for dedup, the fixed-rate tick derived from the
//! configured rate limit, and the lazily fixed configuration.

use vstd::prelude::*;
use crate::store::HttpVersion;

verus! {

/// A job shipping one cached entry to the remote cache server.
#[derive(Debug, Clone)]
pub struct DumpJob {
    /// The entry's cache key.
    pub cache_key: String,
    /// The host-level grouping key of the site the entry belongs to.
    pub cache_site: String,
    /// The entry's URL.
    pub url: String,
    /// The request method.
    pub method: String,
    /// The response status.
    pub status: u16,
    /// The request headers.
    pub request_headers: Vec<(String, String)>,
    /// The response headers.
    pub response_headers: Vec<(String, String)>,
    /// The response body.
    pub body: Vec<u8>,
    /// The response's HTTP version.
    pub http_version: HttpVersion,
    /// The remote target: `None` and `Some("true")` mean the default
    /// endpoint; any other value overrides the base URL.
    pub dump_remote: Option<String>,
}

/// The queue capacity used when none is configured.
pub fn default_queue_cap() -> (r: usize)
    ensures
        r == 10000,
{
    10_000
}

/// The rate limit in queries per second used when none is configured.
pub fn default_qps() -> (r: u32)
    ensures
        r == 50,
{
    50
}

/// The per-push timeout in milliseconds used when none is configured.
pub fn default_timeout_ms() -> (r: u64)
    ensures
        r == 2500,
{
    2_500
}

/// The worker's tick interval for a configured rate limit, in milliseconds.
pub open spec fn tick_interval_spec(qps: u32) -> u64 {
    let q = if qps >= 1 { qps as u64 } else { 1u64 };
    if 1000u64 / q >= 1 { 1000u64 / q } else { 1u64 }
}

/// The interval between two pushes that the rate limit allows: at least one
/// millisecond, and `1000 / qps` milliseconds otherwise, with a rate limit
/// of zero treated as one query per second.
pub fn tick_interval_ms(qps: u32) -> (r: u64)
    ensures
        r == tick_interval_spec(qps),
        r >= 1,
{
    let q: u64 = if qps >= 1 { qps as u64 } else { 1 };
    let t: u64 = 1000 / q;
    if t >= 1 { t } else { 1 }
}

/// The remote dump worker's own state: constructed once per process, on
/// first use; the configuration is read once then and fixed. The pending
/// queue is bounded by `cap`; `inflight` holds the cache keys whose push is
/// underway, each at most once.
pub struct DumpWorker {
    /// Whether the worker has been constructed.
    pub started: bool,
    /// The pending jobs, in arrival order.
    pub queue: Vec<DumpJob>,
    /// The queue's capacity.
    pub cap: usize,
    /// The cache keys currently being pushed.
    pub inflight: Vec<String>,
    /// The configured rate limit, fixed at first initialization.
    pub qps: u32,
    /// The configured per-push timeout, fixed at first initialization.
    pub timeout_ms: u64,
}

/// The set of cache keys currently in flight.
pub open spec fn inflight_view(w: DumpWorker) -> Set<Seq<char>> {
    Set::new(|k: Seq<char>| exists|i: int| 0 <= i < w.inflight.len() && w.inflight[i]@ == k)
}

/// Whether a job with the given cache key would be dropped on arrival: it
/// is exactly when a push for that key is already underway.
pub open spec fn arrival_dropped(w: DumpWorker, key: Seq<char>) -> bool {
    inflight_view(w).contains(key)
}

/// A worker is well formed when no key is in flight twice and the queue
/// respects its bound.
pub open spec fn worker_wf(w: DumpWorker) -> bool {
    &&& forall|i: int, j: int|
        0 <= i < j < w.inflight.len() ==> w.inflight[i]@ != w.inflight[j]@
    &&& w.queue.len() <= w.cap
    &&& !w.started ==> w.queue.len() == 0
}

/// A worker that has not been started yet.
pub fn worker_new() -> (r: DumpWorker)
    ensures
        !r.started,
        r.queue@.len() == 0,
        r.inflight@.len() == 0,
        worker_wf(r),
{
    DumpWorker {
        started: false,
        queue: Vec::new(),
        cap: 0,
        inflight: Vec::new(),
        qps: 0,
        timeout_ms: 0,
    }
}

/// Initialize the worker if it has not been started yet: idempotent, and
/// the configuration is fixed by whichever call comes first.
pub fn init_remote_dump_worker(
    w: &mut DumpWorker,
    queue_cap: usize,
    qps: u32,
    timeout_ms: u64,
)
    requires
        worker_wf(*old(w)),
    ensures
        worker_wf(*final(w)),
        final(w).started,
        old(w).started ==> *final(w) == *old(w),
        !old(w).started ==> {
            &&& final(w).cap == if queue_cap >= 1 { queue_cap as int } else { 1int }
            &&& final(w).qps == qps
            &&& final(w).timeout_ms == timeout_ms
            &&& final(w).queue@ == old(w).queue@
            &&& final(w).inflight@ == old(w).inflight@
        },
{
    if !w.started {
        w.started = true;
        w.cap = if queue_cap >= 1 { queue_cap } else { 1 };
        w.qps = qps;
        w.timeout_ms = timeout_ms;
    }
}

/// Whether the worker has been started.
pub fn worke_inited(w: &DumpWorker) -> (r: bool)
    ensures
        r == w.started,
{
    w.started
}

/// Non-suspending fast-path enqueue: the job is dropped, and `false`
/// returned at once, when the worker is not started or the queue is full;
/// the caller is never blocked.
pub fn try_enqueue(w: &mut DumpWorker, job: DumpJob) -> (r: bool)
    requires
        worker_wf(*old(w)),
    ensures
        worker_wf(*final(w)),
        r == (old(w).started && old(w).queue.len() < old(w).cap),
        r ==> final(w).queue@ == old(w).queue@.push(job),
        !r ==> final(w).queue@ == old(w).queue@,
        final(w).started == old(w).started,
        final(w).cap == old(w).cap,
        final(w).inflight@ == old(w).inflight@,
{
    if w.started && w.queue.len() < w.cap {
        w.queue.push(job);
        true
    } else {
        false
    }
}

/// Best-effort enqueue: initializes the worker on first use with the given
/// configuration, then enqueues without ever blocking the caller — a full
/// queue drops the job and returns `false` at once.
pub fn enqueue_best_effort(
    w: &mut DumpWorker,
    job: DumpJob,
    queue_cap: usize,
    qps: u32,
    timeout_ms: u64,
) -> (r: bool)
    requires
        worker_wf(*old(w)),
    ensures
        worker_wf(*final(w)),
        final(w).started,
        r == (old(w).queue.len() < final(w).cap),
        r ==> final(w).queue@ == old(w).queue@.push(job),
        !r ==> final(w).queue@ == old(w).queue@,
        final(w).inflight@ == old(w).inflight@,
{
    init_remote_dump_worker(w, queue_cap, qps, timeout_ms);
    try_enqueue(w, job)
}

/// An event the worker reacts to.
pub enum WorkerEvent {
    /// A job was received from the queue.
    JobArrived(DumpJob),
    /// The push for a key finished: by success, by failure, or — when
    /// `timed_out` — by exceeding the configured timeout.
    PushFinished { cache_key: String, timed_out: bool },
}

/// What the worker does next.
#[derive(Debug, PartialEq, Eq, Structural)]
pub enum WorkerAction {
    /// The job's key is already in flight: drop the job silently, so that
    /// two pushes for one key never race each other.
    DropDuplicate,
    /// Wait for the next rate-limiting tick, then push the job with the
    /// configured timeout.
    PushAfterTick,
    /// Log a warning for the timed-out push, then move on; the job is not
    /// retried.
    LogTimeout,
    /// Nothing to do beyond taking the next job.
    Continue,
}

/// One step of the worker loop: from the current state and an event to the
/// next state and the action carried out. A job whose key is in flight is
/// dropped; an admitted job marks its key in flight; a finished push —
/// timed out or not — frees its key again.
pub fn worker_step(w: &mut DumpWorker, ev: &WorkerEvent) -> (r: WorkerAction)
    requires
        worker_wf(*old(w)),
    ensures
        worker_wf(*final(w)),
        final(w).queue@ == old(w).queue@,
        final(w).started == old(w).started,
        final(w).cap == old(w).cap,
        match *ev {
            WorkerEvent::JobArrived(job) => if arrival_dropped(*old(w), job.cache_key@) {
                r == WorkerAction::DropDuplicate && inflight_view(*final(w)) == inflight_view(
                    *old(w),
                )
            } else {
                r == WorkerAction::PushAfterTick && inflight_view(*final(w)) == inflight_view(
                    *old(w),
                ).insert(job.cache_key@)
            },
            WorkerEvent::PushFinished { cache_key, timed_out } => {
                &&& r == if timed_out {
                    WorkerAction::LogTimeout
                } else {
                    WorkerAction::Continue
                }
                &&& inflight_view(*final(w)) == inflight_view(*old(w)).remove(cache_key@)
            },
        },
{
    match ev {
        WorkerEvent::JobArrived(job) => {
            if inflight_contains(w, &job.cache_key) {
                assert(inflight_view(*w) =~= inflight_view(*old(w)));
                WorkerAction::DropDuplicate
            } else {
                w.inflight.push(job.cache_key.clone());
                proof {
                    let v0 = *old(w);
                    assert forall|k: Seq<char>|
                        inflight_view(*w).contains(k) == inflight_view(v0).insert(
                            job.cache_key@,
                        ).contains(k) by {
                        if inflight_view(*w).contains(k) {
                            let i = choose|i: int|
                                0 <= i < w.inflight.len() && w.inflight[i]@ == k;
                            if i < v0.inflight.len() {
                                assert(inflight_view(v0).contains(k));
                            }
                        } else {
                            if inflight_view(v0).contains(k) {
                                let i = choose|i: int|
                                    0 <= i < v0.inflight.len() && v0.inflight[i]@ == k;
                                assert(w.inflight[i]@ == k);
                            }
                            if k == job.cache_key@ {
                                assert(w.inflight[w.inflight.len() - 1]@ == k);
                            }
                        }
                    }
                    assert(inflight_view(*w) =~= inflight_view(v0).insert(job.cache_key@));
                }
                WorkerAction::PushAfterTick
            }
        },
        WorkerEvent::PushFinished { cache_key, timed_out } => {
            inflight_remove(w, cache_key);
            if *timed_out {
                WorkerAction::LogTimeout
            } else {
                WorkerAction::Continue
            }
        },
    }
}

/// Whether a key is in the in-flight set.
fn inflight_contains(w: &DumpWorker, key: &String) -> (r: bool)
    ensures
        r == inflight_view(*w).contains(key@),
{
    let n = w.inflight.len();
    let mut i: usize = 0;
    while i < n
        invariant
            i <= n,
            n == w.inflight.len(),
            forall|j: int| 0 <= j < i ==> w.inflight[j]@ != key@,
        decreases n - i,
    {
        if w.inflight[i].eq(key) {
            assert(inflight_view(*w).contains(key@));
            return true;
        }
        i += 1;
    }
    assert(!inflight_view(*w).contains(key@));
    false
}

/// Remove a key from the in-flight set, leaving every other key in flight.
fn inflight_remove(w: &mut DumpWorker, key: &String)
    requires
        worker_wf(*old(w)),
    ensures
        worker_wf(*final(w)),
        inflight_view(*final(w)) == inflight_view(*old(w)).remove(key@),
        final(w).queue@ == old(w).queue@,
        final(w).started == old(w).started,
        final(w).cap == old(w).cap,
{
    let n = w.inflight.len();
    let mut i: usize = 0;
    while i < n
        invariant
            i <= n,
            n == w.inflight.len(),
            worker_wf(*w),
            *w == *old(w),
            forall|j: int| 0 <= j < i ==> w.inflight[j]@ != key@,
        decreases n - i,
    {
        if w.inflight[i].eq(key) {
            let ghost v0 = *w;
            w.inflight.remove(i);
            proof {
                assert forall|k: Seq<char>|
                    inflight_view(*w).contains(k) == inflight_view(v0).remove(key@).contains(
                        k,
                    ) by {
                    if inflight_view(*w).contains(k) {
                        let m = choose|m: int|
                            0 <= m < w.inflight.len() && w.inflight[m]@ == k;
                        if m < i {
                            assert(v0.inflight[m]@ == k);
                        } else {
                            assert(v0.inflight[m + 1]@ == k);
                        }
                    } else if inflight_view(v0).remove(key@).contains(k) {
                        let m = choose|m: int|
                            0 <= m < v0.inflight.len() && v0.inflight[m]@ == k;
                        assert(m != i);
                        if m < i {
                            assert(w.inflight[m]@ == k);
                        } else {
                            assert(w.inflight[m - 1]@ == k);
                        }
                    }
                }
                assert(inflight_view(*w) =~= inflight_view(v0).remove(key@));
            }
            return ;
        }
        i += 1;
    }
    proof {
        assert(!inflight_view(*w).contains(key@));
        assert(inflight_view(*w) =~= inflight_view(*w).remove(key@));
    }
}

/// Dedup law: once a job's key has been admitted for push — the state went
/// from `w0` to `w1` by marking the key in flight — any further job with
/// the same key arriving before that push finishes is dropped, so at most
/// one push per key is ever underway.
pub proof fn lemma_duplicate_key_dropped(w0: DumpWorker, w1: DumpWorker, key: Seq<char>)
    requires
        !arrival_dropped(w0, key),
        inflight_view(w1) == inflight_view(w0).insert(key),
    ensures
        arrival_dropped(w1, key),
{
}

/// Liveness of the key after any outcome: a finished push — success,
/// failure or timeout alike — takes its key out of flight (`w1` to `w2`),
/// so a later job with that key is admitted again and a timed-out push
/// never blocks the ones after it.
pub proof fn lemma_finished_key_freed(w1: DumpWorker, w2: DumpWorker, key: Seq<char>)
    requires
        inflight_view(w2) == inflight_view(w1).remove(key),
    ensures
        !arrival_dropped(w2, key),
{
}

} // verus!
