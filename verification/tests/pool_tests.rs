use std::cell::Cell;
use std::sync::{Arc, Condvar, Mutex};
use std::time::Duration;

use file_analyzer::{FileAnalysis, Message, SharedProgressTracker, TaskQueue};

#[test]
fn test_queue_is_fifo() {
    let mut q: TaskQueue<u32> = TaskQueue::new();
    assert!(q.is_empty());
    q.push_task(1);
    q.push_task(2);
    q.push_task(3);
    assert_eq!(q.len(), 3);
    assert!(matches!(q.pop_front(), Some(Message::NewTask(1))));
    assert!(matches!(q.pop_front(), Some(Message::NewTask(2))));
    assert!(matches!(q.pop_front(), Some(Message::NewTask(3))));
    assert!(q.pop_front().is_none());
}

#[test]
fn test_shutdown_queues_tasks_before_terminates() {
    let mut q: TaskQueue<&str> = TaskQueue::new();
    q.push_task("a");
    q.push_task("b");
    q.push_terminates(2);
    assert_eq!(q.len(), 4);
    assert!(matches!(q.pop_front(), Some(Message::NewTask("a"))));
    assert!(matches!(q.pop_front(), Some(Message::NewTask("b"))));
    assert!(matches!(q.pop_front(), Some(Message::Terminate)));
    assert!(matches!(q.pop_front(), Some(Message::Terminate)));
    assert!(q.is_empty(), "After the drain the queue is empty");
}

#[test]
fn test_queue_drain_executes_all_tasks() {
    let counter = Cell::new(0usize);
    let mut q: TaskQueue<Box<dyn Fn()>> = TaskQueue::new();
    for _ in 0..5 {
        q.push_task(Box::new(|| counter.set(counter.get() + 1)));
    }
    q.push_terminates(2);
    let mut workers_left = 2;
    while workers_left > 0 {
        match q.pop_front() {
            Some(Message::NewTask(task)) => task(),
            Some(Message::Terminate) => workers_left -= 1,
            None => break,
        }
    }
    assert_eq!(counter.get(), 5);
    assert_eq!(workers_left, 0, "Every worker sees its terminate message");
    assert!(q.is_empty());
}

#[test]
fn test_thread_pool_uses_message_passing() {
    let mut q: TaskQueue<u64> = TaskQueue::new();
    q.push_task(7);
    q.push_terminates(1);
    match q.pop_front() {
        Some(Message::NewTask(t)) => assert_eq!(t, 7),
        _ => panic!("expected a task message first"),
    }
    match q.pop_front() {
        Some(Message::Terminate) => {}
        _ => panic!("expected the terminate message last"),
    }
}

#[test]
fn test_uses_std_sync_mutex() {
    let q: Mutex<TaskQueue<u32>> = Mutex::new(TaskQueue::new());
    q.lock().unwrap().push_task(9);
    let mut guard = q.lock().unwrap();
    assert!(matches!(guard.pop_front(), Some(Message::NewTask(9))));
    assert!(guard.is_empty());
}

#[test]
fn test_uses_std_sync_condvar() {
    let pair = (Mutex::new(TaskQueue::<u32>::new()), Condvar::new());
    {
        let guard = pair.0.lock().unwrap();
        let (guard, timed_out) = pair
            .1
            .wait_timeout(guard, Duration::from_millis(1))
            .unwrap();
        assert!(timed_out.timed_out(), "No producer, so the wait times out");
        assert!(guard.is_empty());
    }
    pair.0.lock().unwrap().push_task(4);
    pair.1.notify_all();
    assert_eq!(pair.0.lock().unwrap().len(), 1);
}

#[test]
fn test_uses_std_sync_arc() {
    let q = Arc::new(Mutex::new(TaskQueue::<u32>::new()));
    let handle = Arc::clone(&q);
    handle.lock().unwrap().push_task(1);
    q.lock().unwrap().push_task(2);
    assert_eq!(q.lock().unwrap().len(), 2, "Both handles feed one queue");
}

#[test]
fn test_progress_tracker_uses_std_sync() {
    let tracker = SharedProgressTracker::new();
    let worker_handle = tracker.clone();
    worker_handle.record_completion(FileAnalysis::new("w.txt".to_string()));
    let summary = tracker.get_summary().unwrap();
    assert_eq!(summary.files_completed, 1);
    assert!(tracker.get_completed_analyses().unwrap().len() == 1);
    assert!(tracker.get_errors().unwrap().is_empty());
}
