//! Shared progress state across threads: a mutex-protected accumulator
//! of completed analyses and a cooperative cancellation flag.
//!
//! The accumulator's invariant — the completion counter equals the
//! number of recorded analyses, and the error counter equals the sum of
//! their error counts — is the lock's invariant: every thread that takes
//! the lock receives a state satisfying it and must give one back.

use vstd::prelude::*;
use vstd::rwlock::{RwLock, RwLockPredicate};

use std::sync::Arc;

use crate::clock;
use crate::error::spec_message;
use crate::models::FileAnalysis;

verus! {

/// The total number of errors across a sequence of analyses.
pub open spec fn total_errors_of(s: Seq<FileAnalysis>) -> nat
    decreases s.len(),
{
    if s.len() == 0 {
        0
    } else {
        total_errors_of(s.drop_last()) + s.last().errors@.len()
    }
}

/// The line recorded in the error log for one error of one analysis.
pub open spec fn spec_log_line(filename: Seq<char>, e: crate::error::ProcessingError) -> Seq<
    char,
> {
    filename + ": "@ + spec_message(e)
}

/// Tracks overall progress of file processing.
pub struct ProgressTracker {
    /// All completed file analyses, in the order they were recorded.
    pub completed_analyses: Vec<FileAnalysis>,
    /// Total files discovered for processing.
    pub total_files: usize,
    /// Number of files completed.
    pub files_completed: usize,
    /// Total errors encountered.
    pub total_errors: usize,
    /// When processing started.
    pub start_time: std::time::Instant,
    /// One line per recorded error, with the file's name for context.
    pub errors_log: Vec<String>,
}

impl ProgressTracker {
    /// The tracker's invariant: the completion counter equals the
    /// number of recorded analyses, and the error counter equals the
    /// sum of their error counts, which is also the length of the
    /// error log.
    pub open spec fn wf(self) -> bool {
        &&& self.files_completed == self.completed_analyses@.len()
        &&& self.total_errors as nat == total_errors_of(self.completed_analyses@)
        &&& self.errors_log@.len() == self.total_errors
    }

    /// A fresh tracker: nothing completed, nothing total, no errors,
    /// started now.
    pub fn new() -> (t: ProgressTracker)
        ensures
            t.wf(),
            t.completed_analyses@.len() == 0,
            t.total_files == 0,
            t.files_completed == 0,
            t.total_errors == 0,
            t.errors_log@.len() == 0,
    {
        ProgressTracker {
            completed_analyses: Vec::new(),
            total_files: 0,
            files_completed: 0,
            total_errors: 0,
            start_time: std::time::Instant::now(),
            errors_log: Vec::new(),
        }
    }

    /// Set the total number of files to process; nothing else moves.
    pub fn set_total_files(&mut self, total: usize)
        ensures
            final(self).total_files == total,
            final(self).completed_analyses == old(self).completed_analyses,
            final(self).files_completed == old(self).files_completed,
            final(self).total_errors == old(self).total_errors,
            final(self).errors_log == old(self).errors_log,
            final(self).start_time == old(self).start_time,
            old(self).wf() ==> final(self).wf(),
    {
        self.total_files = total;
    }

    /// Record a completed analysis: append it, bump the completion
    /// counter, add its error count, and push one log line per error.
    /// The invariant is preserved.
    pub fn record_completion(&mut self, analysis: FileAnalysis)
        requires
            old(self).wf(),
            old(self).total_errors + analysis.errors@.len() <= usize::MAX,
        ensures
            final(self).wf(),
            final(self).completed_analyses@ == old(self).completed_analyses@.push(analysis),
            final(self).files_completed == old(self).files_completed + 1,
            final(self).total_errors == old(self).total_errors + analysis.errors@.len(),
            final(self).total_files == old(self).total_files,
            final(self).start_time == old(self).start_time,
            final(self).errors_log@.len() == old(self).errors_log@.len()
                + analysis.errors@.len(),
            final(self).errors_log@.take(old(self).errors_log@.len() as int) == old(
                self,
            ).errors_log@,
            forall|i: int|
                0 <= i < analysis.errors@.len() ==> #[trigger] final(self).errors_log@[old(
                    self,
                ).errors_log@.len() + i]@ == spec_log_line(
                    analysis.filename@,
                    analysis.errors@[i],
                ),
    {
        self.total_errors = self.total_errors + analysis.errors.len();

        let mut k: usize = 0;
        while k < analysis.errors.len()
            invariant
                k <= analysis.errors@.len(),
                self.errors_log@.len() == old(self).errors_log@.len() + k,
                self.errors_log@.take(old(self).errors_log@.len() as int) == old(self).errors_log@,
                forall|i: int|
                    0 <= i < k ==> #[trigger] self.errors_log@[old(self).errors_log@.len() + i]@
                        == spec_log_line(analysis.filename@, analysis.errors@[i]),
                self.completed_analyses == old(self).completed_analyses,
                self.files_completed == old(self).files_completed,
                self.total_errors == old(self).total_errors + analysis.errors@.len(),
                self.total_files == old(self).total_files,
                self.start_time == old(self).start_time,
            decreases analysis.errors@.len() - k,
        {
            let line = analysis.filename.clone().concat(": ").concat(
                analysis.errors[k].message().as_str(),
            );
            self.errors_log.push(line);
            proof {
                assert(self.errors_log@.take(old(self).errors_log@.len() as int)
                    =~= old(self).errors_log@);
            }
            k = k + 1;
        }

        self.completed_analyses.push(analysis);
        self.files_completed = self.completed_analyses.len();
        proof {
            assert(self.completed_analyses@.drop_last() =~= old(self).completed_analyses@);
        }
    }

    /// Milliseconds elapsed since the tracker was created; the value
    /// comes from the machine's clock.
    pub fn elapsed_time(&self) -> u64 {
        clock::elapsed_ms(&self.start_time)
    }

    /// A snapshot of the aggregate counters and the elapsed clock.
    pub fn get_summary(&self) -> (s: ProgressSummary)
        ensures
            s.total_files == self.total_files,
            s.files_completed == self.files_completed,
            s.total_errors == self.total_errors,
    {
        ProgressSummary {
            total_files: self.total_files,
            files_completed: self.files_completed,
            total_errors: self.total_errors,
            elapsed_ms: self.elapsed_time(),
        }
    }

    /// All completed analyses, in recording order.
    pub fn get_completed_analyses(&self) -> (r: &Vec<FileAnalysis>)
        ensures
            r == &self.completed_analyses,
    {
        &self.completed_analyses
    }

    /// The error log, in recording order.
    pub fn get_errors(&self) -> (r: &Vec<String>)
        ensures
            r == &self.errors_log,
    {
        &self.errors_log
    }
}

impl Default for ProgressTracker {
    /// The default tracker is a fresh one.
    fn default() -> (t: ProgressTracker)
        ensures
            t.wf(),
            t.completed_analyses@.len() == 0,
            t.total_files == 0,
            t.files_completed == 0,
            t.total_errors == 0,
    {
        ProgressTracker::new()
    }
}

/// Tracker invariant law: in every well-formed tracker — and the
/// shared tracker's lock holds only well-formed ones — the completion
/// counter equals the number of recorded analyses, and the error
/// counter equals the sum of their error counts, which is also the
/// length of the error log.
pub proof fn lemma_tracker_invariant(t: ProgressTracker)
    requires
        t.wf(),
    ensures
        t.files_completed == t.completed_analyses@.len(),
        t.total_errors as nat == total_errors_of(t.completed_analyses@),
        t.errors_log@.len() == t.total_errors,
{
}

/// `n`, capped at the largest `u32`.
pub open spec fn cap_u32(n: nat) -> nat {
    if n > u32::MAX as nat {
        u32::MAX as nat
    } else {
        n
    }
}

/// Summary statistics of progress: plain counters and the elapsed
/// wall-clock milliseconds.
#[derive(Clone, Copy, PartialEq, Eq, Structural, Debug)]
pub struct ProgressSummary {
    pub total_files: usize,
    pub files_completed: usize,
    pub total_errors: usize,
    pub elapsed_ms: u64,
}

impl ProgressSummary {
    /// Progress in thousandths: `1000 · files_completed / total_files`
    /// when a total is set (capped at the largest `u32`; reruns may
    /// push completion past the total), and zero otherwise.
    pub fn progress_permille(&self) -> (r: u32)
        ensures
            self.total_files == 0 ==> r == 0,
            self.total_files > 0 ==> r as nat == cap_u32(
                1000 * self.files_completed as nat / self.total_files as nat,
            ),
    {
        if self.total_files == 0 {
            0
        } else {
            let p: u128 = 1000u128 * (self.files_completed as u128) / (self.total_files as u128);
            if p > u32::MAX as u128 {
                u32::MAX
            } else {
                p as u32
            }
        }
    }

    /// Whether the run this summary describes is finished: everything
    /// asked for has completed.
    pub fn is_complete(&self) -> (r: bool)
        ensures
            r == (self.files_completed >= self.total_files),
    {
        self.files_completed >= self.total_files
    }
}

/// The lock invariant of the shared tracker: the tracker inside is
/// well formed.
pub struct TrackerPred;

impl RwLockPredicate<ProgressTracker> for TrackerPred {
    open spec fn inv(self, t: ProgressTracker) -> bool {
        t.wf()
    }
}

/// The cancellation flag's lock carries no invariant.
pub struct CancelPred;

impl RwLockPredicate<bool> for CancelPred {
    open spec fn inv(self, b: bool) -> bool {
        true
    }
}

/// Thread-safe wrapper for [`ProgressTracker`]: the tracker sits behind
/// a reference-counted lock whose invariant is the tracker's own, and a
/// separate one-shot cancellation flag rides beside it.
pub struct SharedProgressTracker {
    inner: Arc<RwLock<ProgressTracker, TrackerPred>>,
    cancel_flag: Arc<RwLock<bool, CancelPred>>,
}

impl SharedProgressTracker {
    /// A fresh shared tracker, not cancelled.
    pub fn new() -> SharedProgressTracker {
        SharedProgressTracker {
            inner: Arc::new(RwLock::new(ProgressTracker::new(), Ghost(TrackerPred))),
            cancel_flag: Arc::new(RwLock::new(false, Ghost(CancelPred))),
        }
    }

    /// Set the total under the lock.
    pub fn set_total_files(&self, total: usize) {
        let (mut t, handle) = self.inner.acquire_write();
        t.set_total_files(total);
        handle.release_write(t);
    }

    /// Record a completion under the lock. In the (practically
    /// unreachable) case that the error counter cannot take the
    /// analysis's errors without overflowing, the record is skipped:
    /// progress may then undercount but is never corrupted.
    pub fn record_completion(&self, analysis: FileAnalysis) {
        let (mut t, handle) = self.inner.acquire_write();
        if analysis.errors.len() <= usize::MAX - t.total_errors {
            t.record_completion(analysis);
        }
        handle.release_write(t);
    }

    /// A snapshot of the counters at some instant while this call held
    /// the lock. The verified lock cannot be poisoned, so a snapshot is
    /// always produced.
    pub fn get_summary(&self) -> (r: Option<ProgressSummary>)
        ensures
            r is Some,
    {
        let handle = self.inner.acquire_read();
        let s = handle.borrow().get_summary();
        handle.release_read();
        Some(s)
    }

    /// Copies of the analyses recorded at some instant while this call
    /// held the lock. The verified lock cannot be poisoned, so the
    /// copies are always produced.
    pub fn get_completed_analyses(&self) -> (r: Option<Vec<FileAnalysis>>)
        ensures
            r is Some,
    {
        let handle = self.inner.acquire_read();
        let t = handle.borrow();
        let mut out: Vec<FileAnalysis> = Vec::new();
        let mut i: usize = 0;
        while i < t.completed_analyses.len()
            decreases t.completed_analyses@.len() - i,
        {
            out.push(t.completed_analyses[i].duplicate());
            i = i + 1;
        }
        handle.release_read();
        Some(out)
    }

    /// A copy of the error log at some instant while this call held
    /// the lock.
    pub fn get_errors(&self) -> (r: Option<Vec<String>>)
        ensures
            r is Some,
    {
        let handle = self.inner.acquire_read();
        let lines = handle.borrow().errors_log.clone();
        handle.release_read();
        Some(lines)
    }

    /// Whether cancellation has been requested, as of some instant
    /// during this call.
    pub fn is_cancelled(&self) -> bool {
        let handle = self.cancel_flag.acquire_read();
        let c = *handle.borrow();
        handle.release_read();
        c
    }

    /// Request cancellation. One-shot: there is no way back.
    pub fn cancel(&self) {
        let (_, handle) = self.cancel_flag.acquire_write();
        handle.release_write(true);
    }

    /// Another handle on the same tracker lock, for a worker to hold.
    pub fn clone_inner(&self) -> Arc<RwLock<ProgressTracker, TrackerPred>> {
        Arc::clone(&self.inner)
    }

    /// Another handle on the same cancellation flag.
    pub fn clone_cancel_flag(&self) -> Arc<RwLock<bool, CancelPred>> {
        Arc::clone(&self.cancel_flag)
    }
}

impl Default for SharedProgressTracker {
    /// The default shared tracker is a fresh one.
    fn default() -> SharedProgressTracker {
        SharedProgressTracker::new()
    }
}

impl Clone for SharedProgressTracker {
    /// Another pair of handles on the same tracker and the same flag.
    fn clone(&self) -> SharedProgressTracker {
        SharedProgressTracker {
            inner: Arc::clone(&self.inner),
            cancel_flag: Arc::clone(&self.cancel_flag),
        }
    }
}

} // verus!
