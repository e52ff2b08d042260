//! The per-file analysis pipeline: path validation outcomes, line
//! scanning with bounded error tolerance, and assembly of the final
//! [`FileAnalysis`] record.
//!
//! All filesystem access happens outside the library; the surrounding
//! process reports what it saw as plain values ([`PathProbe`],
//! [`LineEvent`], [`ReadOutcome`]) and the library computes every
//! decision and every statistic from those.

use vstd::prelude::*;

use crate::error::{ErrorModel, IoCategory, ProcessingError, ProcessingResult, model_from_category};
use crate::models::{FileAnalysis, FileStats};
use crate::text::{chars_of, is_alpha, is_space, lower_of, lowercase_chars};
use std::collections::HashMap;

verus! {

/// Consecutive line-read failures tolerated before a file is abandoned
/// as corrupted.
pub const MAX_LINE_ERRORS: usize = 10;

/// One step of reading a file line by line: either a line arrived or
/// the read failed, with the failure's text.
pub enum LineEvent {
    Line(String),
    ReadError(String),
}

/// `n`, capped at the largest `usize`.
pub open spec fn cap_usize(n: nat) -> nat {
    if n > usize::MAX as nat {
        usize::MAX as nat
    } else {
        n
    }
}

/// Number of maximal non-whitespace runs in the suffix, where `prev`
/// says whether the character before the suffix was whitespace (or the
/// suffix starts the line).
pub open spec fn words_rec(s: Seq<char>, prev_space: bool) -> nat
    decreases s.len(),
{
    if s.len() == 0 {
        0
    } else {
        (if !is_space(s[0]) && prev_space {
            1nat
        } else {
            0nat
        }) + words_rec(s.drop_first(), is_space(s[0]))
    }
}

/// Number of whitespace-separated words on a line.
pub open spec fn spec_words(s: Seq<char>) -> nat {
    words_rec(s, true)
}

/// One more occurrence of `k`.
pub open spec fn spec_bump(m: Map<u32, nat>, k: u32) -> Map<u32, nat> {
    m.insert(
        k,
        (if m.contains_key(k) {
            m[k]
        } else {
            0nat
        }) + 1,
    )
}

/// One more occurrence of each character in `cs`, in order.
pub open spec fn bump_seq(m: Map<u32, nat>, cs: Seq<char>) -> Map<u32, nat>
    decreases cs.len(),
{
    if cs.len() == 0 {
        m
    } else {
        bump_seq(spec_bump(m, cs[0] as u32), cs.drop_first())
    }
}

/// The tallies one character contributes: an alphabetic character
/// counts each character of its lowercase folding (which is never
/// empty; the guard merely keeps this total), anything else counts
/// itself.
pub open spec fn tally_char(m: Map<u32, nat>, c: char) -> Map<u32, nat> {
    if is_alpha(c) && lower_of(c).len() > 0 {
        bump_seq(m, lower_of(c))
    } else {
        spec_bump(m, c as u32)
    }
}

/// The tallies of a whole line, left to right.
pub open spec fn tally_chars(m: Map<u32, nat>, cs: Seq<char>) -> Map<u32, nat>
    decreases cs.len(),
{
    if cs.len() == 0 {
        m
    } else {
        tally_chars(tally_char(m, cs[0]), cs.drop_first())
    }
}

/// The frequency table `h` records exactly the mathematical tallies
/// `m`, each value capped at the largest `usize`.
pub open spec fn freq_matches(h: Map<u32, usize>, m: Map<u32, nat>) -> bool {
    &&& h.dom() =~= m.dom()
    &&& forall|k: u32| #[trigger] m.contains_key(k) ==> h[k] as nat == cap_usize(m[k])
}

/// The mathematical state of the line scanner: counts so far, the run
/// of consecutive read failures, and whether the file was abandoned.
pub struct ScanModel {
    pub lines: nat,
    pub words: nat,
    pub tallies: Map<u32, nat>,
    pub consec: nat,
    pub aborted: bool,
}

/// The scanner's starting state.
pub open spec fn scan_init() -> ScanModel {
    ScanModel { lines: 0, words: 0, tallies: Map::empty(), consec: 0, aborted: false }
}

/// How one event advances the scanner: a line bumps every tally and
/// resets the failure run; a read failure lengthens the run and, past
/// the tolerated maximum, abandons the file. Nothing moves once the
/// file is abandoned.
pub open spec fn scan_step(s: ScanModel, e: LineEvent) -> ScanModel {
    if s.aborted {
        s
    } else {
        match e {
            LineEvent::Line(l) => ScanModel {
                lines: s.lines + 1,
                words: s.words + spec_words(l@),
                tallies: tally_chars(s.tallies, l@),
                consec: 0,
                aborted: false,
            },
            LineEvent::ReadError(_) => ScanModel {
                lines: s.lines,
                words: s.words,
                tallies: s.tallies,
                consec: s.consec + 1,
                aborted: s.consec + 1 > MAX_LINE_ERRORS,
            },
        }
    }
}

/// The scanner state after a whole sequence of events.
pub open spec fn scan_model(events: Seq<LineEvent>) -> ScanModel
    decreases events.len(),
{
    if events.len() == 0 {
        scan_init()
    } else {
        scan_step(scan_model(events.drop_last()), events.last())
    }
}

/// Incremental line scanner. Feed it lines and read failures as they
/// come; its statistics always equal the mathematical scan of the
/// events fed so far, with each counter capped at the largest `usize`.
pub struct LineScanner {
    /// The statistics so far. `size_bytes` is carried through
    /// untouched.
    pub stats: FileStats,
    /// Length of the current run of consecutive read failures.
    pub consecutive_errors: usize,
    /// Whether the file was abandoned as corrupted.
    pub aborted: bool,
    /// The events fed so far.
    pub processed: Ghost<Seq<LineEvent>>,
}

impl LineScanner {
    /// The concrete fields record exactly the mathematical scan of the
    /// processed events.
    pub open spec fn wf(self) -> bool {
        let m = scan_model(self.processed@);
        &&& self.stats.line_count as nat == cap_usize(m.lines)
        &&& self.stats.word_count as nat == cap_usize(m.words)
        &&& freq_matches(self.stats.char_frequencies@, m.tallies)
        &&& self.consecutive_errors == m.consec
        &&& self.aborted == m.aborted
        &&& (!m.aborted ==> m.consec <= MAX_LINE_ERRORS)
    }

    /// A scanner that has seen nothing. The given statistics must have
    /// zeroed counters; their byte size rides along untouched.
    pub fn new(stats: FileStats) -> (s: LineScanner)
        requires
            stats.word_count == 0,
            stats.line_count == 0,
            stats.char_frequencies@ == Map::<u32, usize>::empty(),
        ensures
            s.wf(),
            s.processed@ =~= Seq::<LineEvent>::empty(),
            s.stats.size_bytes == stats.size_bytes,
    {
        let s = LineScanner {
            stats,
            consecutive_errors: 0,
            aborted: false,
            processed: Ghost(Seq::empty()),
        };
        proof {
            assert(s.stats.char_frequencies@.dom() =~= scan_init().tallies.dom());
        }
        s
    }

    /// Feed one successfully read line: the line is counted, its words
    /// and characters are tallied, and the failure run resets. Once the
    /// file is abandoned nothing moves.
    pub fn on_line(&mut self, line: &String)
        requires
            old(self).wf(),
        ensures
            final(self).wf(),
            final(self).processed@ == old(self).processed@.push(LineEvent::Line(*line)),
            final(self).aborted == old(self).aborted,
            final(self).stats.size_bytes == old(self).stats.size_bytes,
    {
        proof {
            assert(self.processed@.push(LineEvent::Line(*line)).drop_last() =~= self.processed@);
        }
        let ghost entry = scan_model(self.processed@);
        self.processed = Ghost(self.processed@.push(LineEvent::Line(*line)));
        if self.aborted {
            return ;
        }
        let cs = chars_of(line.as_str());

        // Count the line itself.
        self.stats.line_count = self.stats.line_count.saturating_add(1);

        // Count the words: maximal runs of non-whitespace characters.
        proof {
            assert(cs@.skip(0) =~= cs@);
        }
        let mut words: usize = 0;
        let mut prev_space: bool = true;
        let mut j: usize = 0;
        while j < cs.len()
            invariant
                j <= cs@.len(),
                cs@ == line@,
                words <= j,
                words + words_rec(cs@.skip(j as int), prev_space) == spec_words(line@),
            decreases cs@.len() - j,
        {
            proof {
                assert(cs@.skip(j as int)[0] == cs@[j as int]);
                assert(cs@.skip(j as int).drop_first() =~= cs@.skip(j + 1));
            }
            let c = cs[j];
            if !c.is_whitespace() && prev_space {
                words = words + 1;
            }
            prev_space = c.is_whitespace();
            j = j + 1;
        }
        proof {
            assert(cs@.skip(cs@.len() as int) =~= Seq::<char>::empty());
        }
        self.stats.word_count = self.stats.word_count.saturating_add(words);

        // Tally the characters, folding alphabetic ones to lowercase.
        let ghost entry_tallies = entry.tallies;
        let ghost mut cur: Map<u32, nat> = entry_tallies;
        proof {
            assert(cs@.skip(0) =~= cs@);
        }
        let mut i: usize = 0;
        while i < cs.len()
            invariant
                i <= cs@.len(),
                cs@ == line@,
                tally_chars(cur, cs@.skip(i as int)) == tally_chars(entry_tallies, line@),
                freq_matches(self.stats.char_frequencies@, cur),
                self.stats.line_count as nat == cap_usize(entry.lines + 1),
                self.stats.word_count as nat == cap_usize(entry.words + spec_words(line@)),
                self.stats.size_bytes == old(self).stats.size_bytes,
                self.aborted == false,
                self.processed@ == old(self).processed@.push(LineEvent::Line(*line)),
            decreases cs@.len() - i,
        {
            proof {
                assert(cs@.skip(i as int)[0] == cs@[i as int]);
                assert(cs@.skip(i as int).drop_first() =~= cs@.skip(i + 1));
            }
            let c = cs[i];
            if c.is_alphabetic() {
                let lcs = lowercase_chars(c);
                let ghost char_entry = cur;
                proof {
                    assert(lcs@.skip(0) =~= lcs@);
                }
                let mut t: usize = 0;
                while t < lcs.len()
                    invariant
                        t <= lcs@.len(),
                        lcs@ == lower_of(c),
                        bump_seq(cur, lcs@.skip(t as int)) == bump_seq(char_entry, lower_of(c)),
                        freq_matches(self.stats.char_frequencies@, cur),
                        self.stats.line_count as nat == cap_usize(entry.lines + 1),
                        self.stats.word_count as nat == cap_usize(entry.words + spec_words(line@)),
                        self.stats.size_bytes == old(self).stats.size_bytes,
                        self.aborted == false,
                        self.processed@ == old(self).processed@.push(LineEvent::Line(*line)),
                    decreases lcs@.len() - t,
                {
                    proof {
                        assert(lcs@.skip(t as int)[0] == lcs@[t as int]);
                        assert(lcs@.skip(t as int).drop_first() =~= lcs@.skip(t + 1));
                    }
                    let lc = lcs[t];
                    bump_freq(&mut self.stats.char_frequencies, lc as u32, Ghost(cur));
                    proof {
                        cur = spec_bump(cur, lc as u32);
                    }
                    t = t + 1;
                }
                proof {
                    assert(lcs@.skip(lcs@.len() as int) =~= Seq::<char>::empty());
                    cur = bump_seq(char_entry, lower_of(c));
                }
            } else {
                bump_freq(&mut self.stats.char_frequencies, c as u32, Ghost(cur));
                proof {
                    cur = spec_bump(cur, c as u32);
                }
            }
            i = i + 1;
        }
        proof {
            assert(cs@.skip(cs@.len() as int) =~= Seq::<char>::empty());
        }
        self.consecutive_errors = 0;
    }

    /// Feed one failed line read. Returns whether the failure should be
    /// reported to the error sink: only the first three of a
    /// consecutive run are. Past the tolerated maximum the file is
    /// abandoned.
    pub fn on_read_error(&mut self, detail: &String) -> (warn: bool)
        requires
            old(self).wf(),
        ensures
            final(self).wf(),
            final(self).processed@ == old(self).processed@.push(
                LineEvent::ReadError(*detail),
            ),
            warn == (!old(self).aborted && old(self).consecutive_errors + 1 <= 3),
            final(self).stats == old(self).stats,
    {
        proof {
            assert(self.processed@.push(LineEvent::ReadError(*detail)).drop_last()
                =~= self.processed@);
        }
        self.processed = Ghost(self.processed@.push(LineEvent::ReadError(*detail)));
        if self.aborted {
            return false;
        }
        self.consecutive_errors = self.consecutive_errors + 1;
        if self.consecutive_errors > MAX_LINE_ERRORS {
            self.aborted = true;
        }
        self.consecutive_errors <= 3
    }
}

fn bump_freq(h: &mut HashMap<u32, usize>, k: u32, Ghost(m): Ghost<Map<u32, nat>>)
    requires
        freq_matches(old(h)@, m),
    ensures
        freq_matches(final(h)@, spec_bump(m, k)),
{
    let next: usize = match h.get(&k) {
        Some(v) => {
            if *v == usize::MAX {
                usize::MAX
            } else {
                *v + 1
            }
        },
        None => 1,
    };
    h.insert(k, next);
    proof {
        assert(h@.dom() =~= spec_bump(m, k).dom());
    }
}

/// What the surrounding process learned when it probed a path on disk.
pub enum PathProbe {
    /// The existence check itself failed.
    ExistsCheckFailed(IoCategory, String),
    /// The path does not exist.
    Missing,
    /// The path exists but its metadata could not be read.
    MetadataFailed(IoCategory, String),
    /// The path exists, with this metadata.
    Found { is_dir: bool, is_file: bool, size_bytes: u64 },
}

/// What the surrounding process got when it opened the file and read it
/// line by line.
pub enum ReadOutcome {
    /// The file opened; these are the line reads, in order.
    Opened(Vec<LineEvent>),
    /// Opening failed.
    OpenFailed(IoCategory, String),
}

/// What validating a path must conclude: an empty path is invalid, a
/// failed probe maps per the category table, a missing path is not
/// found, and a directory is refused.
pub open spec fn spec_validate(path: Seq<char>, probe: PathProbe) -> Result<(), ErrorModel> {
    if path.len() == 0 {
        Err(ErrorModel::InvalidPath("Empty file path"@))
    } else {
        match probe {
            PathProbe::ExistsCheckFailed(cat, d) => Err(model_from_category(cat, d@)),
            PathProbe::Missing => Err(ErrorModel::FileNotFound(path)),
            PathProbe::MetadataFailed(cat, d) => Err(model_from_category(cat, d@)),
            PathProbe::Found { is_dir, .. } => if is_dir {
                Err(ErrorModel::DirectoryError("Path is a directory, not a file: "@ + path))
            } else {
                Ok(())
            },
        }
    }
}

/// Validate that a path is safe to analyze, given what the probe saw.
/// Succeeds exactly when the path is non-empty and names something that
/// exists, has readable metadata and is not a directory.
pub fn validate_file_path(path: &str, probe: &PathProbe) -> (r: ProcessingResult<()>)
    ensures
        ({
            let s = spec_validate(path@, *probe);
            match r {
                Ok(_) => s is Ok,
                Err(e) => s matches Err(m) && e@ == m,
            }
        }),
{
    if path.is_empty() {
        return Err(ProcessingError::InvalidPath(String::from_str("Empty file path")));
    }
    match probe {
        PathProbe::ExistsCheckFailed(cat, d) => Err(
            ProcessingError::from_category(*cat, d.clone()),
        ),
        PathProbe::Missing => Err(ProcessingError::FileNotFound(String::from_str(path))),
        PathProbe::MetadataFailed(cat, d) => Err(ProcessingError::from_category(*cat, d.clone())),
        PathProbe::Found { is_dir, .. } => {
            if *is_dir {
                Err(
                    ProcessingError::DirectoryError(
                        String::from_str("Path is a directory, not a file: ").concat(path),
                    ),
                )
            } else {
                Ok(())
            }
        },
    }
}

/// The text a file abandoned for too many read errors is reported with.
pub open spec fn abort_detail() -> Seq<char> {
    "Too many read errors (10+ errors, file may be corrupted)"@
}

/// Analyzer for file statistics and content.
pub struct FileAnalyzer;

impl FileAnalyzer {
    /// Fold a whole sequence of line reads into the statistics: lines,
    /// whitespace-separated words and character tallies (alphabetic
    /// characters counted by their lowercase folding), with bounded
    /// tolerance for read failures. Returns an error exactly when more
    /// than the tolerated number of consecutive reads failed; the
    /// statistics then cover everything before that point.
    pub fn calculate_stats(events: &Vec<LineEvent>, stats: &mut FileStats) -> (r: ProcessingResult<
        (),
    >)
        requires
            old(stats).word_count == 0,
            old(stats).line_count == 0,
            old(stats).char_frequencies@ == Map::<u32, usize>::empty(),
        ensures
            ({
                let m = scan_model(events@);
                &&& final(stats).line_count as nat == cap_usize(m.lines)
                &&& final(stats).word_count as nat == cap_usize(m.words)
                &&& freq_matches(final(stats).char_frequencies@, m.tallies)
                &&& final(stats).size_bytes == old(stats).size_bytes
                &&& match r {
                    Ok(_) => !m.aborted,
                    Err(e) => m.aborted && e@ == ErrorModel::CorruptedFile(abort_detail()),
                }
            }),
    {
        let mut scanner = LineScanner::new(FileStats::new());
        let mut i: usize = 0;
        while i < events.len()
            invariant
                i <= events@.len(),
                scanner.wf(),
                scanner.processed@ =~= events@.take(i as int),
            decreases events@.len() - i,
        {
            proof {
                assert(events@.take(i as int).push(events@[i as int]) =~= events@.take(i + 1));
            }
            match &events[i] {
                LineEvent::Line(l) => {
                    scanner.on_line(l);
                },
                LineEvent::ReadError(d) => {
                    let _ = scanner.on_read_error(d);
                },
            }
            i = i + 1;
        }
        proof {
            assert(events@.take(events@.len() as int) =~= events@);
        }
        stats.word_count = scanner.stats.word_count;
        stats.line_count = scanner.stats.line_count;
        stats.char_frequencies = scanner.stats.char_frequencies;
        if scanner.aborted {
            Err(
                ProcessingError::CorruptedFile(
                    String::from_str("Too many read errors (10+ errors, file may be corrupted)"),
                ),
            )
        } else {
            Ok(())
        }
    }

    /// Analyze a file from what the surrounding process saw of it: a
    /// record is always produced. A failed validation, a non-regular
    /// file, a failed open or an abandoned read each contribute exactly
    /// one error; otherwise the record carries the file's size and the
    /// full statistics of its lines and no error.
    pub fn analyze_probed(path: &str, probe: &PathProbe, read: ReadOutcome, elapsed_ms: u64) -> (a:
        FileAnalysis)
        ensures
            a.filename@ == path@,
            a.processing_time_ms == elapsed_ms,
            ({
                let v = spec_validate(path@, *probe);
                match v {
                    Err(m) => {
                        &&& a.errors@.len() == 1
                        &&& a.errors@[0]@ == m
                        &&& a.stats.line_count == 0
                        &&& a.stats.word_count == 0
                        &&& a.stats.size_bytes == 0
                        &&& a.stats.char_frequencies@ == Map::<u32, usize>::empty()
                    },
                    Ok(_) => match *probe {
                        PathProbe::Found { is_dir: _, is_file, size_bytes } => if !is_file {
                            &&& a.errors@.len() == 1
                            &&& a.errors@[0]@ == ErrorModel::DirectoryError(
                                "Path is not a regular file: "@ + path@,
                            )
                            &&& a.stats.line_count == 0
                            &&& a.stats.word_count == 0
                            &&& a.stats.size_bytes == 0
                            &&& a.stats.char_frequencies@ == Map::<u32, usize>::empty()
                        } else {
                            &&& a.stats.size_bytes == size_bytes
                            &&& match read {
                                ReadOutcome::OpenFailed(cat, d) => {
                                    &&& a.errors@.len() == 1
                                    &&& a.errors@[0]@ == model_from_category(cat, d@)
                                    &&& a.stats.line_count == 0
                                    &&& a.stats.word_count == 0
                                },
                                ReadOutcome::Opened(events) => {
                                    let m = scan_model(events@);
                                    &&& a.stats.line_count as nat == cap_usize(m.lines)
                                    &&& a.stats.word_count as nat == cap_usize(m.words)
                                    &&& freq_matches(a.stats.char_frequencies@, m.tallies)
                                    &&& if m.aborted {
                                        a.errors@.len() == 1 && a.errors@[0]@
                                            == ErrorModel::CorruptedFile(abort_detail())
                                    } else {
                                        a.errors@.len() == 0
                                    }
                                },
                            }
                        },
                        _ => false,
                    },
                }
            }),
    {
        let mut analysis = FileAnalysis::new(String::from_str(path));
        match validate_file_path(path, probe) {
            Ok(_) => {},
            Err(e) => {
                analysis.add_error(e);
                analysis.processing_time_ms = elapsed_ms;
                return analysis;
            },
        }
        match probe {
            PathProbe::Found { is_dir: _, is_file, size_bytes } => {
                if !*is_file {
                    analysis.add_error(
                        ProcessingError::DirectoryError(
                            String::from_str("Path is not a regular file: ").concat(path),
                        ),
                    );
                    analysis.processing_time_ms = elapsed_ms;
                    return analysis;
                }
                analysis.stats.size_bytes = *size_bytes;
            },
            _ => {
                // Validation succeeds only on a found, non-directory path.
                proof {
                    assert(false);
                }
            },
        }
        match read {
            ReadOutcome::OpenFailed(cat, d) => {
                analysis.add_error(ProcessingError::from_category(cat, d));
            },
            ReadOutcome::Opened(events) => {
                match Self::calculate_stats(&events, &mut analysis.stats) {
                    Ok(_) => {},
                    Err(e) => {
                        analysis.add_error(e);
                    },
                }
            },
        }
        analysis.processing_time_ms = elapsed_ms;
        analysis
    }
}

proof fn lemma_bump_seq_monotone(m: Map<u32, nat>, cs: Seq<char>, k: u32)
    requires
        m.contains_key(k),
    ensures
        bump_seq(m, cs).contains_key(k),
    decreases cs.len(),
{
    if cs.len() > 0 {
        lemma_bump_seq_monotone(spec_bump(m, cs[0] as u32), cs.drop_first(), k);
    }
}

proof fn lemma_tally_char_nonempty(m: Map<u32, nat>, c: char)
    ensures
        exists|k: u32| tally_char(m, c).contains_key(k),
{
    if is_alpha(c) && lower_of(c).len() > 0 {
        let cs = lower_of(c);
        lemma_bump_seq_monotone(spec_bump(m, cs[0] as u32), cs.drop_first(), cs[0] as u32);
        assert(tally_char(m, c).contains_key(cs[0] as u32));
    } else {
        assert(tally_char(m, c).contains_key(c as u32));
    }
}

proof fn lemma_tally_char_monotone(m: Map<u32, nat>, c: char, k: u32)
    requires
        m.contains_key(k),
    ensures
        tally_char(m, c).contains_key(k),
{
    if is_alpha(c) && lower_of(c).len() > 0 {
        lemma_bump_seq_monotone(m, lower_of(c), k);
    }
}

proof fn lemma_tally_chars_monotone(m: Map<u32, nat>, cs: Seq<char>, k: u32)
    requires
        m.contains_key(k),
    ensures
        tally_chars(m, cs).contains_key(k),
    decreases cs.len(),
{
    if cs.len() > 0 {
        lemma_tally_char_monotone(m, cs[0], k);
        lemma_tally_chars_monotone(tally_char(m, cs[0]), cs.drop_first(), k);
    }
}

proof fn lemma_tally_line_nonempty(m: Map<u32, nat>, cs: Seq<char>)
    requires
        cs.len() > 0,
    ensures
        exists|k: u32| tally_chars(m, cs).contains_key(k),
{
    lemma_tally_char_nonempty(m, cs[0]);
    let k = choose|k: u32| tally_char(m, cs[0]).contains_key(k);
    lemma_tally_chars_monotone(tally_char(m, cs[0]), cs.drop_first(), k);
    assert(tally_chars(m, cs) == tally_chars(tally_char(m, cs[0]), cs.drop_first()));
}

proof fn lemma_scan_step_keeps_tallies(s: ScanModel, e: LineEvent, k: u32)
    requires
        s.tallies.contains_key(k),
    ensures
        scan_step(s, e).tallies.contains_key(k),
{
    if !s.aborted {
        match e {
            LineEvent::Line(l) => {
                lemma_tally_chars_monotone(s.tallies, l@, k);
            },
            LineEvent::ReadError(_) => {},
        }
    }
}

/// An error-free scan never abandons the file, and if any of its lines
/// has a character at all, the character tallies are non-empty. (Word
/// counts, by contrast, can stay below the line count: a blank line
/// contributes no word.)
pub proof fn lemma_error_free_scan(events: Seq<LineEvent>)
    requires
        forall|i: int| 0 <= i < events.len() ==> #[trigger] events[i] is Line,
    ensures
        !scan_model(events).aborted,
        scan_model(events).consec == 0,
        (exists|i: int|
            0 <= i < events.len() && ((#[trigger] events[i]) matches LineEvent::Line(l)
                && l@.len() > 0)) ==> exists|k: u32| scan_model(events).tallies.contains_key(k),
    decreases events.len(),
{
    if events.len() > 0 {
        let prefix = events.drop_last();
        assert forall|j: int| 0 <= j < prefix.len() implies #[trigger] prefix[j] is Line by {
            assert(prefix[j] == events[j]);
        }
        lemma_error_free_scan(prefix);
        let s = scan_model(prefix);
        assert(scan_model(events) == scan_step(s, events.last()));
        if exists|i: int|
            0 <= i < events.len() && ((#[trigger] events[i]) matches LineEvent::Line(l)
                && l@.len() > 0) {
            let i = choose|i: int|
                0 <= i < events.len() && ((#[trigger] events[i]) matches LineEvent::Line(l)
                    && l@.len() > 0);
            if i < events.len() - 1 {
                assert(prefix[i] == events[i]);
                assert(exists|j: int|
                    0 <= j < prefix.len() && ((#[trigger] prefix[j]) matches LineEvent::Line(l)
                        && l@.len() > 0));
                let k = choose|k: u32| s.tallies.contains_key(k);
                lemma_scan_step_keeps_tallies(s, events.last(), k);
            } else {
                match events.last() {
                    LineEvent::Line(l) => {
                        if l@.len() > 0 {
                            lemma_tally_line_nonempty(s.tallies, l@);
                            let k = choose|k: u32| tally_chars(s.tallies, l@).contains_key(k);
                            assert(scan_model(events).tallies.contains_key(k));
                        } else {
                            assert(events[i] == events.last());
                            assert(false);
                        }
                    },
                    LineEvent::ReadError(_) => {
                        assert(events.last() is Line);
                        assert(false);
                    },
                }
            }
        }
    }
}

} // verus!
