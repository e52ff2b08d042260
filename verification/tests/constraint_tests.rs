//! The engine's concurrency machinery is the crate's own, built on
//! std alone: the task queue and the shared tracker are driven here
//! directly, with nothing but std around them, and every operation
//! hands back a plain value, synchronously.

use std::sync::{Arc, Mutex};

use file_analyzer::error::{IoCategory, ProcessingError};
use file_analyzer::file_processor::LineEvent;
use file_analyzer::{
    FileAnalysis, FileStats, Message, SharedProgressTracker, TaskQueue,
};

#[test]
fn test_no_tokio_dependency() {
    let mut q: TaskQueue<u32> = TaskQueue::new();
    q.push_task(1);
    assert!(
        matches!(q.pop_front(), Some(Message::NewTask(1))),
        "the queue is the crate's own; tokio is not involved"
    );
    assert!(q.pop_front().is_none());
}

#[test]
fn test_no_rayon_dependency() {
    let mut q: TaskQueue<u32> = TaskQueue::new();
    for i in 0..4 {
        q.push_task(i);
    }
    assert_eq!(q.len(), 4);
    assert!(
        matches!(q.pop_front(), Some(Message::NewTask(0))),
        "tasks are dispatched by the crate's own queue, not rayon"
    );
}

#[test]
fn test_no_async_std_dependency() {
    let mut q: TaskQueue<u8> = TaskQueue::new();
    q.push_task(1);
    q.push_terminates(1);
    assert!(matches!(q.pop_front(), Some(Message::NewTask(1))));
    assert!(
        matches!(q.pop_front(), Some(Message::Terminate)),
        "shutdown messages come from the crate's own queue, not async-std"
    );
}

#[test]
fn test_no_crossbeam_dependency() {
    let q = Arc::new(Mutex::new(TaskQueue::<u32>::new()));
    let other = Arc::clone(&q);
    other.lock().unwrap().push_task(5);
    assert_eq!(
        q.lock().unwrap().len(),
        1,
        "std::sync alone shares the queue; crossbeam is not involved"
    );
}

#[test]
fn test_no_parking_lot_dependency() {
    let tracker = SharedProgressTracker::new();
    tracker.set_total_files(2);
    tracker.record_completion(FileAnalysis::new("p.txt".to_string()));
    assert_eq!(
        tracker.get_summary().unwrap().files_completed,
        1,
        "the tracker's lock is the crate's own; parking_lot is not involved"
    );
}

#[test]
fn test_no_futures_dependency() {
    let tracker = SharedProgressTracker::new();
    let summary = tracker.get_summary();
    assert!(summary.is_some(), "A snapshot is a plain value, not a future");
}

#[test]
fn test_no_runtime_dependency() {
    let events = vec![LineEvent::Line("no runtime needed".to_string())];
    let mut stats = FileStats::new();
    assert!(file_analyzer::FileAnalyzer::calculate_stats(&events, &mut stats).is_ok());
    assert_eq!(stats.line_count, 1);
}

#[test]
fn test_no_executor_dependency() {
    let done = std::cell::Cell::new(0u32);
    let mut q: TaskQueue<Box<dyn Fn()>> = TaskQueue::new();
    q.push_task(Box::new(|| done.set(done.get() + 1)));
    q.push_terminates(1);
    loop {
        match q.pop_front() {
            Some(Message::NewTask(t)) => t(),
            Some(Message::Terminate) => break,
            None => break,
        }
    }
    assert_eq!(done.get(), 1, "A plain loop drives the queue; no executor");
}

#[test]
fn test_dependencies_section_empty() {
    // The whole engine round trip — queue, analysis, tracker — runs
    // with nothing but std around the library.
    let tracker = SharedProgressTracker::new();
    tracker.set_total_files(1);
    let mut q: TaskQueue<String> = TaskQueue::new();
    q.push_task("doc.txt".to_string());
    q.push_terminates(1);
    while let Some(Message::NewTask(name)) = q.pop_front() {
        tracker.record_completion(FileAnalysis::new(name));
    }
    assert_eq!(tracker.get_summary().unwrap().files_completed, 1);
}

#[test]
fn test_no_async_in_lib() {
    // Every entry point hands back a plain value, synchronously.
    let path = file_analyzer::logger::output_path();
    assert!(!path.is_empty());
    let config = file_analyzer::ProcessorConfig::new(2);
    assert_eq!(config.num_workers, 2);
}

#[test]
fn test_no_async_in_models() {
    let stats = FileStats::new();
    assert_eq!(stats.word_count, 0);
    let analysis = FileAnalysis::new("m.txt".to_string());
    assert!(analysis.is_successful());
}

#[test]
fn test_no_async_in_error() {
    let e = ProcessingError::from_category(IoCategory::NotFound, "gone".to_string());
    assert_eq!(e.message(), "File not found: gone");
}

#[test]
fn test_no_async_in_thread_pool() {
    let mut q: TaskQueue<u8> = TaskQueue::new();
    q.push_task(1);
    assert_eq!(q.len(), 1);
    assert!(matches!(q.pop_front(), Some(Message::NewTask(1))));
}

#[test]
fn test_no_async_in_file_processor() {
    let events = vec![LineEvent::Line("sync".to_string())];
    let mut stats = FileStats::new();
    let r = file_analyzer::FileAnalyzer::calculate_stats(&events, &mut stats);
    assert!(r.is_ok());
    assert_eq!(stats.line_count, 1);
}

#[test]
fn test_no_async_in_progress_tracker() {
    let tracker = SharedProgressTracker::new();
    tracker.set_total_files(1);
    tracker.record_completion(FileAnalysis::new("t.txt".to_string()));
    assert_eq!(tracker.get_summary().unwrap().files_completed, 1);
}
