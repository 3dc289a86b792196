use vstd::prelude::*;
use vstd::arithmetic::mul::{lemma_mul_inequality, lemma_mul_is_distributive_add_other_way};
use crate::config::ProducerScenario;

verus! {

/// What a worker does next in its repeat/pause burst loop.
#[derive(Debug, Clone, Copy, PartialEq, Eq, Structural)]
pub enum WorkerAction {
    /// Send one payload to the topic.
    Send,
    /// The burst is complete: pause for `repeat_pause` and then close the
    /// burst with `worker_complete_burst`.
    Pause,
    /// The worker has no work left, by completion or by failure.
    Done,
}

/// One worker's progress through its burst loop, and its counters. The
/// counters stay with the worker: results are combined only after every
/// worker has finished, by `aggregate_results`.
#[derive(Debug, Clone, Copy, PartialEq, Eq, Structural)]
pub struct WorkerState {
    /// Bursts this worker has fully completed.
    pub bursts_completed: u64,
    /// Sends issued in the burst now under way.
    pub sent_in_burst: u64,
    /// Messages sent over all bursts.
    pub messages_sent: u64,
    /// Payload bytes sent over all bursts, saturating at `u64::MAX`.
    pub bytes_sent: u64,
    /// Whether a send failed; a failed worker issues no further work.
    pub failed: bool,
}

/// The per-worker send budget fits a `u64` counter.
pub open spec fn sends_bounded(s: ProducerScenario) -> bool {
    s.repeat_times * s.message_count <= u64::MAX
}

/// Addition on a `u64` counter that sticks at the top instead of wrapping.
pub open spec fn spec_saturating_add(a: u64, b: u64) -> u64 {
    if a + b > u64::MAX {
        u64::MAX
    } else {
        (a + b) as u64
    }
}

/// What holds of every reachable worker state: the counters agree with the
/// burst arithmetic and never pass the scenario's budget.
pub open spec fn worker_invariant(s: ProducerScenario, st: WorkerState) -> bool {
    &&& st.bursts_completed <= s.repeat_times
    &&& st.sent_in_burst <= s.message_count
    &&& st.messages_sent == st.bursts_completed * s.message_count + st.sent_in_burst
    &&& (st.bursts_completed == s.repeat_times ==> st.sent_in_burst == 0)
}

/// The action a worker state calls for.
pub open spec fn spec_worker_next(s: ProducerScenario, st: WorkerState) -> WorkerAction {
    if st.failed {
        WorkerAction::Done
    } else if st.bursts_completed >= s.repeat_times {
        WorkerAction::Done
    } else if st.sent_in_burst < s.message_count {
        WorkerAction::Send
    } else {
        WorkerAction::Pause
    }
}

/// A worker before its first burst.
pub fn worker_init() -> (st: WorkerState)
    ensures
        st == (WorkerState {
            bursts_completed: 0,
            sent_in_burst: 0,
            messages_sent: 0,
            bytes_sent: 0,
            failed: false,
        }),
        forall|s: ProducerScenario| #[trigger] worker_invariant(s, st),
{
    WorkerState { bursts_completed: 0, sent_in_burst: 0, messages_sent: 0, bytes_sent: 0, failed: false }
}

/// What the worker does next: a failed or finished worker stops, an
/// unfinished burst sends, a finished burst pauses.
pub fn worker_next(s: &ProducerScenario, st: &WorkerState) -> (r: WorkerAction)
    ensures
        r == spec_worker_next(*s, *st),
{
    if st.failed {
        WorkerAction::Done
    } else if st.bursts_completed >= s.repeat_times {
        WorkerAction::Done
    } else if st.sent_in_burst < s.message_count {
        WorkerAction::Send
    } else {
        WorkerAction::Pause
    }
}

/// Record one successful send of `payload_bytes` payload bytes.
pub fn worker_record_send(s: &ProducerScenario, st: &mut WorkerState, payload_bytes: u64)
    requires
        sends_bounded(*s),
        worker_invariant(*s, *old(st)),
        spec_worker_next(*s, *old(st)) == WorkerAction::Send,
    ensures
        worker_invariant(*s, *final(st)),
        final(st).bursts_completed == old(st).bursts_completed,
        final(st).sent_in_burst == old(st).sent_in_burst + 1,
        final(st).messages_sent == old(st).messages_sent + 1,
        final(st).bytes_sent == spec_saturating_add(old(st).bytes_sent, payload_bytes),
        final(st).failed == old(st).failed,
{
    proof {
        lemma_mul_inequality(
            st.bursts_completed + 1,
            s.repeat_times as int,
            s.message_count as int,
        );
        lemma_mul_is_distributive_add_other_way(
            s.message_count as int,
            st.bursts_completed as int,
            1,
        );
        assert(st.messages_sent + 1 <= s.repeat_times * s.message_count);
    }
    st.sent_in_burst = st.sent_in_burst + 1;
    st.messages_sent = st.messages_sent + 1;
    st.bytes_sent = if u64::MAX - st.bytes_sent < payload_bytes {
        u64::MAX
    } else {
        st.bytes_sent + payload_bytes
    };
}

/// Record a failed send: the worker keeps its counters but abandons its
/// remaining bursts.
pub fn worker_record_failure(s: &ProducerScenario, st: &mut WorkerState)
    requires
        worker_invariant(*s, *old(st)),
    ensures
        worker_invariant(*s, *final(st)),
        *final(st) == (WorkerState { failed: true, ..*old(st) }),
{
    st.failed = true;
}

/// Close a finished burst: one more burst done, the in-burst counter reset.
/// The result says whether bursts remain, i.e. whether the worker pauses and
/// goes on.
pub fn worker_complete_burst(s: &ProducerScenario, st: &mut WorkerState) -> (more: bool)
    requires
        worker_invariant(*s, *old(st)),
        spec_worker_next(*s, *old(st)) == WorkerAction::Pause,
    ensures
        worker_invariant(*s, *final(st)),
        final(st).bursts_completed == old(st).bursts_completed + 1,
        final(st).sent_in_burst == 0,
        final(st).messages_sent == old(st).messages_sent,
        final(st).bytes_sent == old(st).bytes_sent,
        final(st).failed == old(st).failed,
        more <==> spec_worker_next(*s, *final(st)) != WorkerAction::Done,
{
    proof {
        lemma_mul_is_distributive_add_other_way(
            s.message_count as int,
            st.bursts_completed as int,
            1,
        );
        assert((st.bursts_completed + 1) * s.message_count == st.bursts_completed
            * s.message_count + s.message_count);
    }
    st.bursts_completed = st.bursts_completed + 1;
    st.sent_in_burst = 0;
    st.bursts_completed < s.repeat_times
}

/// Law: a worker that reaches `Done` without a send failure has sent exactly
/// `repeat_times * message_count` messages.
pub proof fn lemma_completed_worker_count(s: ProducerScenario, st: WorkerState)
    requires
        worker_invariant(s, st),
        !st.failed,
        spec_worker_next(s, st) == WorkerAction::Done,
    ensures
        st.messages_sent == s.repeat_times * s.message_count,
{
    assert(st.bursts_completed == s.repeat_times);
    assert(st.sent_in_burst == 0);
}

/// The aggregated outcome of one scenario run.
#[derive(Debug, Clone, Copy, PartialEq, Eq, Structural)]
pub struct ScenarioResult {
    /// Messages sent by all workers together, saturating at `u64::MAX`.
    pub messages_sent: u64,
    /// Payload bytes sent by all workers together, saturating at `u64::MAX`.
    pub bytes_sent: u64,
    /// Wall-clock duration of the run, in milliseconds.
    pub duration_ms: u64,
    /// How many workers stopped early on a send failure.
    pub failed_workers: u64,
}

/// The exact sum of the workers' message counters.
pub open spec fn total_messages(workers: Seq<WorkerState>) -> int
    decreases workers.len(),
{
    if workers.len() == 0 {
        0
    } else {
        total_messages(workers.drop_last()) + workers.last().messages_sent
    }
}

/// The exact sum of the workers' byte counters.
pub open spec fn total_bytes(workers: Seq<WorkerState>) -> int
    decreases workers.len(),
{
    if workers.len() == 0 {
        0
    } else {
        total_bytes(workers.drop_last()) + workers.last().bytes_sent
    }
}

/// How many of the workers failed.
pub open spec fn failed_count(workers: Seq<WorkerState>) -> int
    decreases workers.len(),
{
    if workers.len() == 0 {
        0
    } else {
        failed_count(workers.drop_last()) + if workers.last().failed {
            1int
        } else {
            0int
        }
    }
}

/// A sum clamped to what a `u64` counter can report.
pub open spec fn clamped(v: int) -> int {
    if v > u64::MAX {
        u64::MAX as int
    } else {
        v
    }
}

proof fn lemma_totals_take_step(workers: Seq<WorkerState>, i: int)
    requires
        0 <= i < workers.len(),
    ensures
        total_messages(workers.take(i + 1)) == total_messages(workers.take(i))
            + workers[i].messages_sent,
        total_bytes(workers.take(i + 1)) == total_bytes(workers.take(i)) + workers[i].bytes_sent,
        failed_count(workers.take(i + 1)) == failed_count(workers.take(i)) + if workers[i].failed {
            1int
        } else {
            0int
        },
{
    assert(workers.take(i + 1).drop_last() =~= workers.take(i));
    assert(workers.take(i + 1).last() == workers[i]);
}

proof fn lemma_totals_nonnegative(workers: Seq<WorkerState>)
    ensures
        total_messages(workers) >= 0,
        total_bytes(workers) >= 0,
        0 <= failed_count(workers) <= workers.len(),
    decreases workers.len(),
{
    if workers.len() > 0 {
        lemma_totals_nonnegative(workers.drop_last());
    }
}

/// Combine per-worker results after every worker has joined. Each worker
/// contributes its own counters — a failed worker its partial ones — and the
/// totals are their sums, saturating at `u64::MAX`.
pub fn aggregate_results(workers: &Vec<WorkerState>, duration_ms: u64) -> (r: ScenarioResult)
    requires
        workers@.len() <= u64::MAX,
    ensures
        r.messages_sent == clamped(total_messages(workers@)),
        r.bytes_sent == clamped(total_bytes(workers@)),
        r.failed_workers == failed_count(workers@),
        r.duration_ms == duration_ms,
{
    let mut messages: u64 = 0;
    let mut bytes: u64 = 0;
    let mut failed: u64 = 0;
    let mut i: usize = 0;
    proof {
        assert(workers@.take(0) =~= Seq::empty());
    }
    while i < workers.len()
        invariant
            i <= workers@.len() <= u64::MAX,
            messages == clamped(total_messages(workers@.take(i as int))),
            bytes == clamped(total_bytes(workers@.take(i as int))),
            failed == failed_count(workers@.take(i as int)),
        decreases workers@.len() - i,
    {
        let w = &workers[i];
        proof {
            lemma_totals_take_step(workers@, i as int);
            lemma_totals_nonnegative(workers@.take(i as int));
            lemma_totals_nonnegative(workers@.take(i + 1));
        }
        messages = if u64::MAX - messages < w.messages_sent {
            u64::MAX
        } else {
            messages + w.messages_sent
        };
        bytes = if u64::MAX - bytes < w.bytes_sent {
            u64::MAX
        } else {
            bytes + w.bytes_sent
        };
        if w.failed {
            failed = failed + 1;
        }
        i = i + 1;
    }
    proof {
        assert(workers@.take(workers@.len() as int) =~= workers@);
    }
    ScenarioResult { messages_sent: messages, bytes_sent: bytes, duration_ms, failed_workers: failed }
}

/// Law: a run whose every worker completes without a send failure issues
/// exactly `threads * repeat_times * message_count` sends — with one worker
/// state per configured thread, the total message count is the worker count
/// times the per-worker budget.
pub proof fn lemma_full_run_count(s: ProducerScenario, workers: Seq<WorkerState>)
    requires
        forall|i: int| 0 <= i < workers.len() ==> worker_invariant(s, #[trigger] workers[i]),
        forall|i: int| 0 <= i < workers.len() ==> !(#[trigger] workers[i]).failed,
        forall|i: int|
            0 <= i < workers.len() ==> spec_worker_next(s, #[trigger] workers[i])
                == WorkerAction::Done,
    ensures
        total_messages(workers) == workers.len() * (s.repeat_times * s.message_count),
    decreases workers.len(),
{
    let budget = (s.repeat_times as int) * (s.message_count as int);
    if workers.len() > 0 {
        lemma_full_run_count(s, workers.drop_last());
        lemma_completed_worker_count(s, workers.last());
        lemma_mul_is_distributive_add_other_way(budget, workers.len() - 1, 1);
    }
}

/// Law: one failed worker leaves every other worker's full count in the
/// total — when every worker but the one at `w` completes without a failure,
/// the run's total message count is the full per-worker budget for each of
/// the others plus whatever the worker at `w` sent before it stopped.
pub proof fn lemma_partial_run_count(s: ProducerScenario, workers: Seq<WorkerState>, w: int)
    requires
        0 <= w < workers.len(),
        forall|i: int| 0 <= i < workers.len() ==> worker_invariant(s, #[trigger] workers[i]),
        forall|i: int| 0 <= i < workers.len() && i != w ==> !(#[trigger] workers[i]).failed,
        forall|i: int|
            0 <= i < workers.len() && i != w ==> spec_worker_next(s, #[trigger] workers[i])
                == WorkerAction::Done,
    ensures
        total_messages(workers) == (workers.len() - 1) * (s.repeat_times * s.message_count)
            + workers[w].messages_sent,
    decreases workers.len(),
{
    let budget = (s.repeat_times as int) * (s.message_count as int);
    if w == workers.len() - 1 {
        lemma_full_run_count(s, workers.drop_last());
    } else {
        lemma_partial_run_count(s, workers.drop_last(), w);
        lemma_completed_worker_count(s, workers.last());
        lemma_mul_is_distributive_add_other_way(budget, workers.len() - 2, 1);
    }
}

/// Law: workers are isolated in the aggregate — replace one worker's result
/// and every other worker's contribution to the totals stands unchanged, so
/// one worker's failure cannot reduce what the others report.
pub proof fn lemma_worker_isolation(a: Seq<WorkerState>, b: Seq<WorkerState>, i: int)
    requires
        a.len() == b.len(),
        0 <= i < a.len(),
        forall|j: int| 0 <= j < a.len() && j != i ==> a[j] == b[j],
    ensures
        total_messages(a) - a[i].messages_sent == total_messages(b) - b[i].messages_sent,
        total_bytes(a) - a[i].bytes_sent == total_bytes(b) - b[i].bytes_sent,
    decreases a.len(),
{
    if i == a.len() - 1 {
        assert(a.drop_last() =~= b.drop_last());
    } else {
        lemma_worker_isolation(a.drop_last(), b.drop_last(), i);
        assert(a.drop_last()[i] == a[i]);
        assert(b.drop_last()[i] == b[i]);
        assert(a.last() == b.last());
    }
}

} // verus!
