//! The worker pool's shared state: a FIFO queue of messages, one
//! message per submitted task plus one terminate message per worker at
//! shutdown.
//!
//! The surrounding program owns the threads: each worker holds the
//! queue under a std mutex, blocks on a condition variable while it is
//! empty, and takes the head; a `NewTask` is run with the lock
//! released, a `Terminate` ends the worker. Every queue operation and
//! the drain-and-stop guarantee itself are verified here.

use vstd::prelude::*;

verus! {

/// Message passed from the submitting thread to the workers.
pub enum Message<T> {
    /// A task to run.
    NewTask(T),
    /// One worker should exit; sent once per worker during shutdown.
    Terminate,
}

/// The shared FIFO queue of messages. Tasks are appended at the tail
/// and taken from the head, so they are dispatched in submission
/// order.
pub struct TaskQueue<T> {
    pub messages: Vec<Message<T>>,
}

/// `n` terminate messages.
pub open spec fn terminate_seq<T>(n: nat) -> Seq<Message<T>> {
    Seq::new(n, |i: int| Message::Terminate)
}

/// The queue a drain-and-stop shutdown leaves for `size` workers:
/// every submitted task in submission order, then one terminate
/// message per worker.
pub open spec fn shutdown_queue<T>(tasks: Seq<T>, size: nat) -> Seq<Message<T>> {
    tasks.map_values(|t: T| Message::NewTask(t)) + terminate_seq(size)
}

impl<T> TaskQueue<T> {
    /// An empty queue.
    pub fn new() -> (q: TaskQueue<T>)
        ensures
            q.messages@ =~= Seq::<Message<T>>::empty(),
    {
        TaskQueue { messages: Vec::new() }
    }

    /// How many messages are waiting.
    pub fn len(&self) -> (n: usize)
        ensures
            n == self.messages@.len(),
    {
        self.messages.len()
    }

    /// Whether the queue is empty; workers block on the condition
    /// variable exactly while this holds.
    pub fn is_empty(&self) -> (r: bool)
        ensures
            r == (self.messages@.len() == 0),
    {
        self.messages.len() == 0
    }

    /// Append a task at the tail. Never blocks; there is no
    /// backpressure.
    pub fn push_task(&mut self, task: T)
        ensures
            final(self).messages@ == old(self).messages@.push(Message::NewTask(task)),
    {
        self.messages.push(Message::NewTask(task));
    }

    /// Append `count` terminate messages at the tail, one per worker;
    /// queued tasks stay ahead of them, so a drain-and-stop shutdown
    /// runs every queued task first.
    pub fn push_terminates(&mut self, count: usize)
        ensures
            final(self).messages@ == old(self).messages@ + terminate_seq(count as nat),
    {
        let mut k: usize = 0;
        while k < count
            invariant
                k <= count,
                self.messages@ == old(self).messages@ + terminate_seq(k as nat),
            decreases count - k,
        {
            self.messages.push(Message::Terminate);
            k = k + 1;
            proof {
                assert(self.messages@ =~= old(self).messages@ + terminate_seq(k as nat));
            }
        }
        proof {
            assert(old(self).messages@ + terminate_seq(0) =~= old(self).messages@);
        }
    }

    /// Take the head message, if any: the queue is FIFO, so this is
    /// the oldest one.
    pub fn pop_front(&mut self) -> (r: Option<Message<T>>)
        ensures
            match r {
                None => old(self).messages@.len() == 0
                    && final(self).messages@ == old(self).messages@,
                Some(m) => old(self).messages@.len() > 0
                    && m == old(self).messages@[0]
                    && final(self).messages@ == old(self).messages@.drop_first(),
            },
    {
        if self.messages.len() == 0 {
            None
        } else {
            let m = self.messages.remove(0);
            proof {
                assert(self.messages@ =~= old(self).messages@.drop_first());
            }
            Some(m)
        }
    }
}

/// The tasks dispatched when `workers` workers repeatedly take the
/// head of `q` until the queue runs dry or every worker has exited, in
/// the order they are taken.
pub open spec fn drain_dispatches<T>(q: Seq<Message<T>>, workers: nat) -> Seq<T>
    decreases q.len(),
{
    if workers == 0 || q.len() == 0 {
        Seq::empty()
    } else {
        match q[0] {
            Message::NewTask(t) => seq![t] + drain_dispatches(q.drop_first(), workers),
            Message::Terminate => drain_dispatches(q.drop_first(), (workers - 1) as nat),
        }
    }
}

/// What is left of `q` after that drain.
pub open spec fn drain_leftover<T>(q: Seq<Message<T>>, workers: nat) -> Seq<Message<T>>
    decreases q.len(),
{
    if workers == 0 || q.len() == 0 {
        q
    } else {
        match q[0] {
            Message::NewTask(t) => drain_leftover(q.drop_first(), workers),
            Message::Terminate => drain_leftover(q.drop_first(), (workers - 1) as nat),
        }
    }
}

/// How many workers are still running after that drain.
pub open spec fn drain_workers_left<T>(q: Seq<Message<T>>, workers: nat) -> nat
    decreases q.len(),
{
    if workers == 0 || q.len() == 0 {
        workers
    } else {
        match q[0] {
            Message::NewTask(t) => drain_workers_left(q.drop_first(), workers),
            Message::Terminate => drain_workers_left(q.drop_first(), (workers - 1) as nat),
        }
    }
}

/// Draining a queue of nothing but `n` terminate messages with at
/// least `n` workers dispatches nothing, empties the queue and stops
/// exactly `n` workers.
proof fn lemma_drain_terminates<T>(n: nat, workers: nat)
    requires
        n <= workers,
    ensures
        drain_dispatches(terminate_seq::<T>(n), workers) =~= Seq::<T>::empty(),
        drain_leftover(terminate_seq::<T>(n), workers).len() == 0,
        drain_workers_left(terminate_seq::<T>(n), workers) == workers - n,
    decreases n,
{
    if n > 0 {
        assert(terminate_seq::<T>(n).drop_first() =~= terminate_seq::<T>((n - 1) as nat));
        lemma_drain_terminates::<T>((n - 1) as nat, (workers - 1) as nat);
    }
}

/// Pool drain law. After a drain-and-stop shutdown of a pool of
/// `size` workers — every submitted task queued in submission order,
/// then one terminate message per worker — draining the queue
/// dispatches exactly the submitted tasks, in submission order, leaves
/// the queue empty, and stops every worker. So every submitted task is
/// handed to some worker before the pool goes down; one whose run
/// records its analysis (which it does unless it observes the cancel
/// flag) puts that analysis into the tracker's completed sequence,
/// where recording appends and nothing removes.
pub proof fn lemma_pool_drain<T>(tasks: Seq<T>, size: nat)
    requires
        size >= 1,
    ensures
        drain_dispatches(shutdown_queue(tasks, size), size) =~= tasks,
        drain_leftover(shutdown_queue(tasks, size), size).len() == 0,
        drain_workers_left(shutdown_queue(tasks, size), size) == 0,
    decreases tasks.len(),
{
    let q = shutdown_queue(tasks, size);
    if tasks.len() == 0 {
        assert(q =~= terminate_seq::<T>(size));
        lemma_drain_terminates::<T>(size, size);
    } else {
        assert(q[0] == Message::NewTask(tasks[0]));
        assert(q.drop_first() =~= shutdown_queue(tasks.drop_first(), size));
        lemma_pool_drain::<T>(tasks.drop_first(), size);
        assert(drain_dispatches(q, size) =~= seq![tasks[0]] + drain_dispatches(
            q.drop_first(),
            size,
        ));
    }
}

/// Task delivery law: after a drain-and-stop shutdown, the task
/// submitted `i`-th is the task dispatched `i`-th. Together with
/// [`crate::progress_tracker::ProgressTracker::record_completion`] —
/// which appends the recorded analysis and moves nothing else — this
/// puts every submitted task's analysis into the tracker's completed
/// sequence, unless the task's run observed the cancel flag and
/// returned without recording.
pub proof fn lemma_task_dispatched<T>(tasks: Seq<T>, size: nat, i: int)
    requires
        size >= 1,
        0 <= i < tasks.len(),
    ensures
        drain_dispatches(shutdown_queue(tasks, size), size)[i] == tasks[i],
{
    lemma_pool_drain(tasks, size);
}

} // verus!
