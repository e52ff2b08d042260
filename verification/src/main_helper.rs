//! Orchestration helpers: the run configuration, the extension filter
//! that discovery applies to the files the directory walk found, the
//! cap on how many files one run processes, and the textual progress
//! bar the reporter prints.

use vstd::prelude::*;

use crate::text::{
    ascii_lowercase,
    decimal_string,
    extension_of,
    spec_ascii_lower_seq,
    spec_decimal,
    spec_extension,
    string_from_chars,
};

verus! {

/// Configuration of one processing run.
pub struct ProcessorConfig {
    /// Number of worker threads.
    pub num_workers: usize,
    /// Directories to scan for files.
    pub directories: Vec<String>,
    /// File extensions to process.
    pub extensions: Vec<String>,
}

impl ProcessorConfig {
    /// A configuration with this many workers, no directories yet, and
    /// the default extensions `txt` and `md`.
    pub fn new(num_workers: usize) -> (c: ProcessorConfig)
        ensures
            c.num_workers == num_workers,
            c.directories@.len() == 0,
            c.extensions@.len() == 2,
            c.extensions@[0]@ == "txt"@,
            c.extensions@[1]@ == "md"@,
    {
        let mut extensions: Vec<String> = Vec::new();
        extensions.push(String::from_str("txt"));
        extensions.push(String::from_str("md"));
        ProcessorConfig { num_workers, directories: Vec::new(), extensions }
    }
}

/// Whether a path's extension matches one of the wanted extensions,
/// compared after ASCII case folding.
pub open spec fn spec_ext_match(path: Seq<char>, extensions: Seq<String>) -> bool {
    match spec_extension(path) {
        Some(e) => exists|i: int|
            0 <= i < extensions.len() && spec_ascii_lower_seq(e) == spec_ascii_lower_seq(
                #[trigger] extensions[i]@,
            ),
        None => false,
    }
}

/// The predicate [`discover_files`] filters with.
pub open spec fn ext_pred(extensions: Seq<String>) -> spec_fn(String) -> bool {
    |p: String| spec_ext_match(p@, extensions)
}

/// Whether this path's extension matches one of the wanted extensions,
/// case-insensitively in ASCII.
pub fn matches_extension(path: &str, extensions: &Vec<String>) -> (r: bool)
    ensures
        r == spec_ext_match(path@, extensions@),
{
    match extension_of(path) {
        None => false,
        Some(e) => {
            let folded = ascii_lowercase(e.as_str());
            let mut i: usize = 0;
            while i < extensions.len()
                invariant
                    i <= extensions@.len(),
                    folded@ == spec_ascii_lower_seq(e@),
                    spec_extension(path@) == Some(e@),
                    forall|j: int|
                        0 <= j < i ==> spec_ascii_lower_seq(e@) != spec_ascii_lower_seq(
                            #[trigger] extensions@[j]@,
                        ),
                decreases extensions@.len() - i,
            {
                let cand = ascii_lowercase(extensions[i].as_str());
                if folded == cand {
                    return true;
                }
                i = i + 1;
            }
            false
        },
    }
}

/// Keep, of all files the directory walk found, those whose extension
/// matches, in the walk's order.
pub fn discover_files(files: &Vec<String>, extensions: &Vec<String>) -> (r: Vec<String>)
    ensures
        r@ == files@.filter(ext_pred(extensions@)),
{
    let mut out: Vec<String> = Vec::new();
    let mut i: usize = 0;
    proof {
        reveal(Seq::<_>::filter);
        assert(files@.take(0int).filter(ext_pred(extensions@)) =~= out@);
    }
    while i < files.len()
        invariant
            i <= files@.len(),
            out@ == files@.take(i as int).filter(ext_pred(extensions@)),
        decreases files@.len() - i,
    {
        let keep = matches_extension(files[i].as_str(), extensions);
        proof {
            reveal(Seq::<_>::filter);
            assert(files@.take(i + 1).drop_last() =~= files@.take(i as int));
            assert(files@.take(i + 1).last() == files@[i as int]);
        }
        if keep {
            out.push(files[i].clone());
        }
        i = i + 1;
    }
    proof {
        assert(files@.take(files@.len() as int) =~= files@);
    }
    out
}

/// The first `limit` files, or all of them when fewer were found.
pub fn limit_files(files: Vec<String>, limit: usize) -> (r: Vec<String>)
    ensures
        limit <= files@.len() ==> r@ == files@.take(limit as int),
        limit > files@.len() ==> r@ == files@,
{
    let mut files = files;
    files.truncate(limit);
    files
}

/// The display count a run accepts: between one and one thousand,
/// inclusive. (The documented range; the interactive prompt mentions a
/// narrower one, but this is what is accepted.)
pub fn display_count_accepted(count: usize) -> (r: bool)
    ensures
        r == (1 <= count && count <= 1000),
{
    1 <= count && count <= 1000
}

/// `c` repeated `n` times.
pub open spec fn repeat_char(c: char, n: nat) -> Seq<char> {
    Seq::new(n, |i: int| c)
}

/// The text of the progress bar: a bracketed bar of `width` cells
/// filled in proportion `completed / total`, the percentage to one
/// decimal place (truncated), and the raw counts. With no total the
/// bar is full and reads zero percent.
pub open spec fn spec_progress_bar(completed: nat, total: nat, width: nat) -> Seq<char> {
    if total == 0 {
        "["@ + repeat_char('=', width) + "] 0%"@
    } else {
        let permille = 1000 * completed / total;
        let filled = if completed * width / total > width {
            width
        } else {
            completed * width / total
        };
        "["@ + repeat_char('=', filled) + repeat_char(' ', (width - filled) as nat) + "] "@
            + spec_decimal(permille / 10) + "."@ + spec_decimal(permille % 10) + "% ("@
            + spec_decimal(completed) + "/"@ + spec_decimal(total) + ")"@
    }
}

fn repeat_string(c: char, n: usize) -> (r: String)
    ensures
        r@ == repeat_char(c, n as nat),
{
    let mut v: Vec<char> = Vec::new();
    let mut i: usize = 0;
    while i < n
        invariant
            i <= n,
            v@ =~= repeat_char(c, i as nat),
        decreases n - i,
    {
        v.push(c);
        i = i + 1;
        proof {
            assert(v@ =~= repeat_char(c, i as nat));
        }
    }
    string_from_chars(&v)
}

/// Format the progress bar with its percentage and counts.
pub fn format_progress_bar(completed: usize, total: usize, width: usize) -> (r: String)
    ensures
        r@ == spec_progress_bar(completed as nat, total as nat, width as nat),
{
    if total == 0 {
        return String::from_str("[").concat(repeat_string('=', width).as_str()).concat("] 0%");
    }
    let permille: u128 = 1000u128 * (completed as u128) / (total as u128);
    proof {
        assert((completed as u128) * (width as u128) <= u128::MAX) by (nonlinear_arith)
            requires
                completed as u128 <= 0xFFFF_FFFF_FFFF_FFFFu128,
                width as u128 <= 0xFFFF_FFFF_FFFF_FFFFu128,
        ;
    }
    let scaled: u128 = (completed as u128) * (width as u128) / (total as u128);
    let filled: usize = if scaled > (width as u128) {
        width
    } else {
        scaled as usize
    };
    String::from_str("[").concat(repeat_string('=', filled).as_str()).concat(
        repeat_string(' ', width - filled).as_str(),
    ).concat("] ").concat(decimal_string(permille / 10).as_str()).concat(".").concat(
        decimal_string(permille % 10).as_str(),
    ).concat("% (").concat(decimal_string(completed as u128).as_str()).concat("/").concat(
        decimal_string(total as u128).as_str(),
    ).concat(")")
}

} // verus!
