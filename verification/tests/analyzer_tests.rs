use file_analyzer::error::ProcessingError;
use file_analyzer::file_processor::{LineEvent, LineScanner, PathProbe, ReadOutcome};
use file_analyzer::{FileAnalyzer, FileStats};

fn opened(lines: &[&str]) -> ReadOutcome {
    ReadOutcome::Opened(lines.iter().map(|l| LineEvent::Line(l.to_string())).collect())
}

fn found(size: u64) -> PathProbe {
    PathProbe::Found { is_dir: false, is_file: true, size_bytes: size }
}

#[test]
fn test_analyze_nonexistent_file() {
    let result = FileAnalyzer::analyze_probed(
        "nonexistent_file.txt",
        &PathProbe::Missing,
        opened(&[]),
        0,
    );
    assert!(!result.is_successful());
    assert!(!result.errors.is_empty());
    assert!(matches!(result.errors[0], ProcessingError::FileNotFound(_)));
    assert_eq!(result.stats.line_count, 0);
    assert_eq!(result.stats.word_count, 0);
    assert_eq!(result.stats.size_bytes, 0);
}

#[test]
fn test_directory_instead_of_file() {
    let probe = PathProbe::Found { is_dir: true, is_file: false, size_bytes: 0 };
    let analysis = FileAnalyzer::analyze_probed(".", &probe, opened(&[]), 0);
    assert!(!analysis.is_successful(), "Analysis should fail");
    assert!(!analysis.errors.is_empty(), "Should contain errors");
    let error_str = analysis.errors[0].message();
    assert!(
        error_str.contains("directory") || error_str.contains("not a file"),
        "Error should mention directory or file type: {}",
        error_str
    );
}

#[test]
fn test_not_a_regular_file() {
    let probe = PathProbe::Found { is_dir: false, is_file: false, size_bytes: 9 };
    let analysis = FileAnalyzer::analyze_probed("dev_node", &probe, opened(&[]), 0);
    assert!(!analysis.is_successful());
    assert!(matches!(analysis.errors[0], ProcessingError::DirectoryError(_)));
    assert!(analysis.errors[0].message().contains("not a regular file"));
}

#[test]
fn test_invalid_path_string() {
    let analysis = FileAnalyzer::analyze_probed("", &PathProbe::Missing, opened(&[]), 0);
    assert!(!analysis.is_successful(), "Empty path should result in error");
    assert!(matches!(analysis.errors[0], ProcessingError::InvalidPath(_)));
}

#[test]
fn test_simple_file_analysis() {
    let analysis = FileAnalyzer::analyze_probed(
        "test_simple.txt",
        &found(26),
        opened(&["Hello world", "This is a test"]),
        1,
    );
    assert!(analysis.is_successful(), "Analysis should succeed");
    assert_eq!(analysis.stats.line_count, 2, "Should have 2 lines");
    assert_eq!(analysis.stats.word_count, 6, "Should have 6 words");
    assert!(analysis.stats.size_bytes > 0, "File size should be > 0");
    assert!(!analysis.stats.char_frequencies.is_empty(), "Should have character frequencies");
}

#[test]
fn test_valid_file_analysis() {
    let analysis = FileAnalyzer::analyze_probed(
        "test_valid_file_12345.txt",
        &found(40),
        opened(&["Hello world", "This is line 2", "And line 3"]),
        0,
    );
    assert!(analysis.is_successful(), "Valid file should be analyzed successfully");
    assert_eq!(analysis.stats.line_count, 3, "Should count 3 lines");
}

#[test]
fn test_file_with_special_characters() {
    let analysis = FileAnalyzer::analyze_probed(
        "test_special_chars_12345.txt",
        &found(70),
        opened(&[
            "Special chars: !@#$%^&*()",
            "Unicode: caf\u{e9} na\u{ef}ve",
            "Quotes: \"hello\" 'world'",
        ]),
        0,
    );
    assert!(analysis.is_successful());
    assert_eq!(analysis.stats.line_count, 3);
    assert!(!analysis.stats.char_frequencies.is_empty());
    assert!(analysis.stats.char_frequencies.get(&('\u{e9}' as u32)).is_some());
}

#[test]
fn test_empty_input() {
    let analysis = FileAnalyzer::analyze_probed("empty.txt", &found(0), opened(&[]), 0);
    assert!(analysis.is_successful());
    assert_eq!(analysis.stats.line_count, 0);
    assert_eq!(analysis.stats.word_count, 0);
    assert_eq!(analysis.stats.size_bytes, 0);
    assert!(analysis.stats.char_frequencies.is_empty());
}

#[test]
fn test_thousand_lines() {
    let lines: Vec<String> = (0..1000)
        .map(|i| format!("Line {} with some text content", i))
        .collect();
    let refs: Vec<&str> = lines.iter().map(|s| s.as_str()).collect();
    let analysis = FileAnalyzer::analyze_probed("big.txt", &found(31_000), opened(&refs), 5);
    assert!(analysis.is_successful());
    assert_eq!(analysis.stats.line_count, 1000);
    assert!(analysis.stats.word_count > 1000);
}

#[test]
fn test_character_frequency() {
    let analysis = FileAnalyzer::analyze_probed(
        "test_freq.txt",
        &found(15),
        opened(&["aaa bbb ccc aaa"]),
        0,
    );
    let freq = &analysis.stats.char_frequencies;
    assert!(freq.get(&('a' as u32)).is_some(), "Should have 'a' in frequency map");
    assert!(freq.get(&('b' as u32)).is_some(), "Should have 'b' in frequency map");
    assert_eq!(*freq.get(&('a' as u32)).unwrap(), 6);
    assert_eq!(*freq.get(&(' ' as u32)).unwrap(), 3);
}

#[test]
fn test_uppercase_folds_to_lowercase() {
    let analysis = FileAnalyzer::analyze_probed("case.txt", &found(5), opened(&["AA a"]), 0);
    let freq = &analysis.stats.char_frequencies;
    assert_eq!(*freq.get(&('a' as u32)).unwrap(), 3);
    assert!(freq.get(&('A' as u32)).is_none());
}

#[test]
fn test_blank_lines_have_no_words() {
    let analysis = FileAnalyzer::analyze_probed(
        "blank.txt",
        &found(12),
        opened(&["", "two words", ""]),
        0,
    );
    assert!(analysis.is_successful());
    assert_eq!(analysis.stats.line_count, 3);
    assert_eq!(analysis.stats.word_count, 2);
    assert!(analysis.stats.word_count < analysis.stats.line_count);
}

#[test]
fn test_open_failure_reported() {
    let read = ReadOutcome::OpenFailed(
        file_analyzer::error::IoCategory::PermissionDenied,
        "denied".to_string(),
    );
    let analysis = FileAnalyzer::analyze_probed("locked.txt", &found(10), read, 0);
    assert!(!analysis.is_successful());
    assert!(matches!(analysis.errors[0], ProcessingError::PermissionDenied(_)));
    assert_eq!(analysis.stats.size_bytes, 10);
}

#[test]
fn test_read_errors_tolerated() {
    let mut events: Vec<LineEvent> = Vec::new();
    events.push(LineEvent::Line("good line".to_string()));
    for _ in 0..10 {
        events.push(LineEvent::ReadError("bad byte".to_string()));
    }
    events.push(LineEvent::Line("another good line".to_string()));
    let analysis = FileAnalyzer::analyze_probed(
        "mostly_ok.txt",
        &found(100),
        ReadOutcome::Opened(events),
        0,
    );
    assert!(analysis.is_successful(), "Ten consecutive failures are tolerated");
    assert_eq!(analysis.stats.line_count, 2);
}

#[test]
fn test_too_many_read_errors_abort() {
    let mut events: Vec<LineEvent> = Vec::new();
    events.push(LineEvent::Line("good line".to_string()));
    for _ in 0..11 {
        events.push(LineEvent::ReadError("bad byte".to_string()));
    }
    events.push(LineEvent::Line("never reached".to_string()));
    let analysis = FileAnalyzer::analyze_probed(
        "corrupt.txt",
        &found(100),
        ReadOutcome::Opened(events),
        0,
    );
    assert!(!analysis.is_successful());
    assert!(matches!(analysis.errors[0], ProcessingError::CorruptedFile(_)));
    assert_eq!(analysis.stats.line_count, 1, "Lines before the abort are kept");
}

#[test]
fn test_error_run_resets_on_success() {
    let mut scanner = LineScanner::new(FileStats::new());
    for _ in 0..10 {
        scanner.on_read_error(&"x".to_string());
    }
    assert!(!scanner.aborted);
    scanner.on_line(&"recovered".to_string());
    assert_eq!(scanner.consecutive_errors, 0);
    for _ in 0..10 {
        scanner.on_read_error(&"x".to_string());
    }
    assert!(!scanner.aborted, "The run was reset, so ten more are tolerated");
    scanner.on_read_error(&"x".to_string());
    assert!(scanner.aborted);
}

#[test]
fn test_scanner_warns_first_three() {
    let mut scanner = LineScanner::new(FileStats::new());
    let d = "detail".to_string();
    assert!(scanner.on_read_error(&d));
    assert!(scanner.on_read_error(&d));
    assert!(scanner.on_read_error(&d));
    assert!(!scanner.on_read_error(&d), "Only the first three are reported");
}

#[test]
fn test_calculate_stats_counts() {
    let events = vec![
        LineEvent::Line("one two".to_string()),
        LineEvent::Line("three".to_string()),
    ];
    let mut stats = FileStats::new();
    let r = FileAnalyzer::calculate_stats(&events, &mut stats);
    assert!(r.is_ok());
    assert_eq!(stats.line_count, 2);
    assert_eq!(stats.word_count, 3);
}
