//! The process runner's scheduling state machine: which selected case to
//! start next, bounded parallelism, completion bookkeeping, and cancellation.
//!
//! The machine holds one slot per selected case. Cases are started in
//! selection order, at most `worker_limit` may be running at once, and
//! completion may arrive in any order. On cancellation no new case starts
//! and every still-queued case is drained as Aborted, so a cancelled run
//! still accounts for every selected case. The caller performs the actual
//! subprocess work between transitions and feeds the results back.

use vstd::prelude::*;
use crate::outcome::RunOutcome;

verus! {

/// Where one selected case stands: not yet started, currently running as a
/// child process, or finished with its outcome.
#[derive(Clone, Copy, PartialEq, Eq, Structural, Debug)]
pub enum CaseSlot {
    Queued,
    Running,
    Done(RunOutcome),
}

/// How many slots in `s` are Done.
pub open spec fn count_done(s: Seq<CaseSlot>) -> nat
    decreases s.len(),
{
    if s.len() == 0 {
        0
    } else {
        count_done(s.drop_last()) + (if s.last() is Done {
            1nat
        } else {
            0nat
        })
    }
}

/// Updating one slot moves the Done count by the difference of the old and
/// new slot.
proof fn lemma_count_done_update(s: Seq<CaseSlot>, i: int, v: CaseSlot)
    requires
        0 <= i < s.len(),
    ensures
        count_done(s.update(i, v)) == count_done(s) + (if v is Done {
            1int
        } else {
            0int
        }) - (if s[i] is Done {
            1int
        } else {
            0int
        }),
    decreases s.len(),
{
    let t = s.update(i, v);
    if i == s.len() - 1 {
        assert(t.drop_last() =~= s.drop_last());
    } else {
        assert(t.drop_last() =~= s.drop_last().update(i, v));
        assert(t.last() == s.last());
        lemma_count_done_update(s.drop_last(), i, v);
    }
}

/// In a prefix where one slot is not Done, the Done count stays below the
/// sequence length.
proof fn lemma_count_done_below_len(s: Seq<CaseSlot>, i: int)
    requires
        0 <= i < s.len(),
        !(s[i] is Done),
    ensures
        count_done(s) < s.len(),
    decreases s.len(),
{
    if i < s.len() - 1 {
        lemma_count_done_below_len(s.drop_last(), i);
    } else {
        lemma_count_done_at_most_len(s.drop_last());
    }
}

/// The Done count never exceeds the length.
proof fn lemma_count_done_at_most_len(s: Seq<CaseSlot>)
    ensures
        count_done(s) <= s.len(),
    decreases s.len(),
{
    if s.len() > 0 {
        lemma_count_done_at_most_len(s.drop_last());
    }
}

/// Slots beyond the started prefix are all Queued and contribute nothing to
/// the Done count.
proof fn lemma_count_done_queued_suffix(s: Seq<CaseSlot>, started: int)
    requires
        0 <= started <= s.len(),
        forall|i: int| started <= i < s.len() ==> s[i] is Queued,
    ensures
        count_done(s) == count_done(s.take(started)),
    decreases s.len(),
{
    if s.len() > started {
        assert(s.drop_last().take(started) =~= s.take(started));
        lemma_count_done_queued_suffix(s.drop_last(), started);
    } else {
        assert(s.take(started) =~= s);
    }
}

/// The concurrency bound: in every reachable state of the machine — its
/// invariant holds after construction and after each transition — no more
/// than `worker_limit` cases are in flight at once.
pub proof fn lemma_worker_bound(rs: RunnerState)
    requires
        rs.inv(),
    ensures
        rs.spec_running() <= rs.worker_limit,
{
}

/// The scheduling state of one run over `slots.len()` selected cases.
pub struct RunnerState {
    pub slots: Vec<CaseSlot>,
    pub worker_limit: usize,
    pub started: usize,
    pub done: usize,
    pub cancelled: bool,
}

impl RunnerState {
    /// The machine's invariant: cases start in order (a slot is non-Queued
    /// exactly when its index lies below `started`), the Done counter is
    /// exact, and — the concurrency bound — the number of in-flight cases,
    /// `started - done`, never exceeds `worker_limit`.
    pub open spec fn inv(&self) -> bool {
        &&& self.worker_limit >= 1
        &&& self.started <= self.slots@.len()
        &&& forall|i: int|
            0 <= i < self.slots@.len() ==> ((self.slots@[i] is Queued) <==> i >= self.started)
        &&& self.done == count_done(self.slots@)
        &&& self.done <= self.started
        &&& self.started - self.done <= self.worker_limit
    }

    /// How many cases are in flight right now.
    pub open spec fn spec_running(&self) -> int {
        self.started - self.done
    }

    /// A fresh machine over `n` selected cases with `workers` slots.
    pub fn new(n: usize, workers: usize) -> (r: RunnerState)
        requires
            workers >= 1,
        ensures
            r.inv(),
            r.slots@.len() == n,
            r.worker_limit == workers,
            r.started == 0,
            r.done == 0,
            !r.cancelled,
            forall|i: int| 0 <= i < n ==> r.slots@[i] is Queued,
    {
        let mut slots: Vec<CaseSlot> = Vec::new();
        let mut i: usize = 0;
        while i < n
            invariant
                i <= n,
                slots@.len() == i,
                forall|t: int| 0 <= t < i ==> slots@[t] is Queued,
            decreases n - i,
        {
            slots.push(CaseSlot::Queued);
            i = i + 1;
        }
        proof {
            lemma_count_done_queued_suffix(slots@, 0);
            assert(slots@.take(0) =~= Seq::<CaseSlot>::empty());
        }
        RunnerState { slots, worker_limit: workers, started: 0, done: 0, cancelled: false }
    }

    /// Whether the machine may start another case: not cancelled, a queued
    /// case remains, and a worker slot is free.
    pub open spec fn spec_can_start(&self) -> bool {
        &&& !self.cancelled
        &&& self.started < self.slots@.len()
        &&& self.started - self.done < self.worker_limit
    }

    /// Ask for the next case to start. Returns the case's index in
    /// selection order when one may start, and leaves the machine unchanged
    /// otherwise. Starting never exceeds the worker bound: afterwards as
    /// before, at most `worker_limit` cases are in flight.
    pub fn poll_start(&mut self) -> (r: Option<usize>)
        requires
            old(self).inv(),
        ensures
            final(self).inv(),
            old(self).spec_can_start() ==> r == Some(old(self).started) && *final(self)
                == (RunnerState {
                slots: final(self).slots,
                started: (old(self).started + 1) as usize,
                ..*old(self)
            }) && final(self).slots@ == old(self).slots@.update(old(self).started as int,
                CaseSlot::Running),
            !old(self).spec_can_start() ==> r is None && *final(self) == *old(self),
            final(self).spec_running() <= final(self).worker_limit,
    {
        if !self.cancelled && self.started < self.slots.len() && self.started - self.done
            < self.worker_limit {
            let idx = self.started;
            proof {
                lemma_count_done_update(self.slots@, idx as int, CaseSlot::Running);
            }
            self.slots.set(idx, CaseSlot::Running);
            self.started = self.started + 1;
            Some(idx)
        } else {
            None
        }
    }

    /// Record that a started case finished with `outcome`. Exactly that
    /// slot moves to Done; nothing else changes.
    pub fn record_outcome(&mut self, case: usize, outcome: RunOutcome)
        requires
            old(self).inv(),
            case < old(self).slots@.len(),
            old(self).slots@[case as int] is Running,
        ensures
            final(self).inv(),
            *final(self) == (RunnerState {
                slots: final(self).slots,
                done: (old(self).done + 1) as usize,
                ..*old(self)
            }),
            final(self).slots@ == old(self).slots@.update(case as int, CaseSlot::Done(outcome)),
    {
        proof {
            lemma_count_done_update(self.slots@, case as int, CaseSlot::Done(outcome));
            lemma_count_done_below_len(self.slots@.take(self.started as int), case as int);
            lemma_count_done_queued_suffix(self.slots@, self.started as int);
            assert(self.slots@.take(self.started as int)[case as int] == self.slots@[case as int]);
        }
        self.slots.set(case, CaseSlot::Done(outcome));
        self.done = self.done + 1;
    }

    /// Request cancellation. Idempotent: only the cancelled flag changes,
    /// and it only ever moves to true.
    pub fn request_cancel(&mut self)
        requires
            old(self).inv(),
        ensures
            final(self).inv(),
            *final(self) == (RunnerState { cancelled: true, ..*old(self) }),
    {
        self.cancelled = true;
    }

    /// After cancellation, drain: every still-queued case is reported as
    /// Aborted rather than silently omitted. Returns the drained indices in
    /// selection order; in-flight cases are untouched and still owe their
    /// own (Aborted) completion.
    pub fn drain_queued(&mut self) -> (aborted: Vec<usize>)
        requires
            old(self).inv(),
            old(self).cancelled,
        ensures
            final(self).inv(),
            final(self).started == final(self).slots@.len(),
            final(self).worker_limit == old(self).worker_limit,
            final(self).cancelled,
            final(self).done == old(self).done + (old(self).slots@.len() - old(self).started),
            final(self).slots@.len() == old(self).slots@.len(),
            forall|i: int|
                0 <= i < old(self).started ==> final(self).slots@[i] == old(self).slots@[i],
            forall|i: int|
                old(self).started <= i < old(self).slots@.len() ==> final(self).slots@[i]
                    == CaseSlot::Done(RunOutcome::Aborted),
            aborted@.len() == old(self).slots@.len() - old(self).started,
            forall|k: int| 0 <= k < aborted@.len() ==> aborted@[k] == old(self).started + k,
    {
        let mut aborted: Vec<usize> = Vec::new();
        let n = self.slots.len();
        while self.started < n
            invariant
                self.inv(),
                self.cancelled,
                n == self.slots@.len(),
                old(self).started <= self.started <= n,
                self.worker_limit == old(self).worker_limit,
                self.done == old(self).done + (self.started - old(self).started),
                self.started - self.done == old(self).started - old(self).done,
                forall|i: int|
                    0 <= i < old(self).started ==> self.slots@[i] == old(self).slots@[i],
                forall|i: int|
                    old(self).started <= i < self.started ==> self.slots@[i] == CaseSlot::Done(
                        RunOutcome::Aborted),
                aborted@.len() == self.started - old(self).started,
                forall|k: int| 0 <= k < aborted@.len() ==> aborted@[k] == old(self).started + k,
            decreases n - self.started,
        {
            let idx = self.started;
            proof {
                lemma_count_done_update(self.slots@, idx as int, CaseSlot::Done(
                    RunOutcome::Aborted));
            }
            self.slots.set(idx, CaseSlot::Done(RunOutcome::Aborted));
            self.done = self.done + 1;
            self.started = self.started + 1;
            aborted.push(idx);
        }
        aborted
    }

    /// Whether every selected case has its outcome.
    pub fn is_complete(&self) -> (b: bool)
        ensures
            b == (self.done == self.slots@.len()),
    {
        self.done == self.slots.len()
    }

    /// How many cases are in flight right now; by the invariant this never
    /// exceeds the worker limit.
    pub fn running(&self) -> (r: usize)
        requires
            self.inv(),
        ensures
            r == self.spec_running(),
            r <= self.worker_limit,
    {
        self.started - self.done
    }
}

} // verus!
