//! Value types carrying per-file statistics, accumulated errors and
//! elapsed time.

use vstd::prelude::*;

use crate::error::ProcessingError;
use std::collections::HashMap;

verus! {

/// Statistics collected while analyzing one file. Character
/// frequencies are keyed by Unicode code point; insertion order is
/// irrelevant.
#[derive(Debug)]
pub struct FileStats {
    /// Total number of whitespace-separated words in the file.
    pub word_count: usize,
    /// Total number of lines in the file.
    pub line_count: usize,
    /// How often each character (by code point) occurs.
    pub char_frequencies: HashMap<u32, usize>,
    /// File size in bytes.
    pub size_bytes: u64,
}

impl FileStats {
    /// All counters at zero and the frequency table empty.
    pub fn new() -> (s: FileStats)
        ensures
            s.word_count == 0,
            s.line_count == 0,
            s.size_bytes == 0,
            s.char_frequencies@ == Map::<u32, usize>::empty(),
    {
        FileStats {
            word_count: 0,
            line_count: 0,
            char_frequencies: HashMap::new(),
            size_bytes: 0,
        }
    }

    /// An independent copy: every counter equal and the same frequency
    /// table contents.
    pub fn duplicate(&self) -> (s: FileStats)
        ensures
            s.word_count == self.word_count,
            s.line_count == self.line_count,
            s.size_bytes == self.size_bytes,
            s.char_frequencies@ == self.char_frequencies@,
    {
        FileStats {
            word_count: self.word_count,
            line_count: self.line_count,
            char_frequencies: self.char_frequencies.clone(),
            size_bytes: self.size_bytes,
        }
    }
}

impl Default for FileStats {
    /// The default statistics are all zeros and an empty table.
    fn default() -> (s: FileStats)
        ensures
            s.word_count == 0,
            s.line_count == 0,
            s.size_bytes == 0,
            s.char_frequencies@ == Map::<u32, usize>::empty(),
    {
        FileStats::new()
    }
}

/// Complete analysis result for a single file. One of these is always
/// produced, even on total failure; in that case the statistics stay at
/// their defaults and `errors` is non-empty.
#[derive(Debug)]
pub struct FileAnalysis {
    pub filename: String,
    pub stats: FileStats,
    /// Errors in the order they occurred; append-only during analysis.
    pub errors: Vec<ProcessingError>,
    /// Wall-clock time the analysis took, in milliseconds.
    pub processing_time_ms: u64,
}

impl FileAnalysis {
    /// A fresh record for `filename`: default statistics, no errors, no
    /// elapsed time.
    pub fn new(filename: String) -> (a: FileAnalysis)
        ensures
            a.filename == filename,
            a.errors@ =~= Seq::<ProcessingError>::empty(),
            a.stats.word_count == 0,
            a.stats.line_count == 0,
            a.stats.size_bytes == 0,
            a.stats.char_frequencies@ == Map::<u32, usize>::empty(),
            a.processing_time_ms == 0,
    {
        FileAnalysis {
            filename,
            stats: FileStats::new(),
            errors: Vec::new(),
            processing_time_ms: 0,
        }
    }

    /// An analysis succeeded exactly when it accumulated no errors.
    pub fn is_successful(&self) -> (r: bool)
        ensures
            r == (self.errors@.len() == 0),
    {
        self.errors.len() == 0
    }

    /// Append one error; everything else is untouched.
    pub fn add_error(&mut self, error: ProcessingError)
        ensures
            final(self).errors@ == old(self).errors@.push(error),
            final(self).filename == old(self).filename,
            final(self).stats == old(self).stats,
            final(self).processing_time_ms == old(self).processing_time_ms,
    {
        self.errors.push(error);
    }

    /// An independent copy whose fields agree with the original (the
    /// error details agree up to their text).
    pub fn duplicate(&self) -> (a: FileAnalysis)
        ensures
            a.filename@ == self.filename@,
            a.errors@.len() == self.errors@.len(),
            a.stats.word_count == self.stats.word_count,
            a.stats.line_count == self.stats.line_count,
            a.stats.size_bytes == self.stats.size_bytes,
            a.stats.char_frequencies@ == self.stats.char_frequencies@,
            a.processing_time_ms == self.processing_time_ms,
    {
        FileAnalysis {
            filename: self.filename.clone(),
            stats: self.stats.duplicate(),
            errors: self.errors.clone(),
            processing_time_ms: self.processing_time_ms,
        }
    }
}

} // verus!
