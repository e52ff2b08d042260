use file_analyzer::error::{IoCategory, ProcessingError};
use file_analyzer::{FileAnalysis, FileStats};

#[test]
fn test_file_stats_new() {
    let stats = FileStats::new();
    assert_eq!(stats.word_count, 0);
    assert_eq!(stats.line_count, 0);
    assert_eq!(stats.size_bytes, 0);
    assert!(stats.char_frequencies.is_empty());
}

#[test]
fn test_file_analysis_new() {
    let analysis = FileAnalysis::new("test.txt".to_string());
    assert_eq!(analysis.filename, "test.txt");
    assert!(analysis.is_successful());
    assert!(analysis.errors.is_empty());
}

#[test]
fn test_add_error_makes_unsuccessful() {
    let mut analysis = FileAnalysis::new("a.txt".to_string());
    analysis.add_error(ProcessingError::ParseError("bad".to_string()));
    assert!(!analysis.is_successful());
    assert_eq!(analysis.errors.len(), 1);
}

#[test]
fn test_error_messages() {
    let e = ProcessingError::FileNotFound("x.txt".to_string());
    assert_eq!(e.message(), "File not found: x.txt");
    let e = ProcessingError::IoError("boom".to_string());
    assert_eq!(e.message(), "IO Error: boom");
    let e = ProcessingError::CorruptedFile("y".to_string());
    assert_eq!(e.message(), "Corrupted or unreadable file: y");
    let e = ProcessingError::DirectoryError("d".to_string());
    assert_eq!(e.message(), "Directory error: d");
}

#[test]
fn test_error_category_mapping() {
    let detail = || "why".to_string();
    assert!(matches!(
        ProcessingError::from_category(IoCategory::NotFound, detail()),
        ProcessingError::FileNotFound(_)
    ));
    assert!(matches!(
        ProcessingError::from_category(IoCategory::PermissionDenied, detail()),
        ProcessingError::PermissionDenied(_)
    ));
    assert!(matches!(
        ProcessingError::from_category(IoCategory::InvalidFilename, detail()),
        ProcessingError::InvalidPath(_)
    ));
    assert!(matches!(
        ProcessingError::from_category(IoCategory::InvalidInput, detail()),
        ProcessingError::InvalidPath(_)
    ));
    assert!(matches!(
        ProcessingError::from_category(IoCategory::InvalidData, detail()),
        ProcessingError::CorruptedFile(_)
    ));
    assert!(matches!(
        ProcessingError::from_category(IoCategory::StorageFull, detail()),
        ProcessingError::SystemResource(_)
    ));
    assert!(matches!(
        ProcessingError::from_category(IoCategory::OutOfMemory, detail()),
        ProcessingError::SystemResource(_)
    ));
    assert!(matches!(
        ProcessingError::from_category(IoCategory::NotADirectory, detail()),
        ProcessingError::DirectoryError(_)
    ));
    assert!(matches!(
        ProcessingError::from_category(IoCategory::IsADirectory, detail()),
        ProcessingError::DirectoryError(_)
    ));
    assert!(matches!(
        ProcessingError::from_category(IoCategory::Other, detail()),
        ProcessingError::IoError(_)
    ));
}
