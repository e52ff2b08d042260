//! A parallel file analyzer: per-file word, line and character statistics,
//! a fixed-size worker-pool task queue, and a shared progress tracker with
//! cooperative cancellation.
//!
//! Concurrency rests on std threads alone: the surrounding program runs
//! worker threads that feed the verified task queue and progress tracker
//! in this crate; no async runtime or third-party concurrency crate is
//! involved anywhere.

pub mod clock;
pub mod downloader;
pub mod error;
pub mod logger;
pub mod main_helper;
pub mod file_processor;
pub mod models;
pub mod progress_tracker;
pub mod text;
pub mod thread_pool;

pub use error::{ProcessingError, ProcessingResult};
pub use models::{FileAnalysis, FileStats};
pub use progress_tracker::{ProgressTracker, SharedProgressTracker};
pub use file_processor::FileAnalyzer;
pub use thread_pool::{Message, TaskQueue};
pub use downloader::{BookMetadata, get_available_books};
pub use main_helper::ProcessorConfig;
