use file_analyzer::main_helper::{
    discover_files, display_count_accepted, format_progress_bar, limit_files, matches_extension,
};
use file_analyzer::ProcessorConfig;

#[test]
fn test_processor_config_defaults() {
    let config = ProcessorConfig::new(4);
    assert_eq!(config.num_workers, 4);
    assert!(config.directories.is_empty());
    assert_eq!(config.extensions, vec!["txt".to_string(), "md".to_string()]);
}

#[test]
fn test_matches_extension_case_insensitive() {
    let exts = vec!["txt".to_string(), "md".to_string()];
    assert!(matches_extension("books/alice.txt", &exts));
    assert!(matches_extension("books/ALICE.TXT", &exts));
    assert!(matches_extension("notes.MD", &exts));
    assert!(!matches_extension("image.png", &exts));
    assert!(!matches_extension("no_extension", &exts));
    assert!(!matches_extension("books/.hidden", &exts));
}

#[test]
fn test_discover_files_filters_and_keeps_order() {
    let files = vec![
        "a.txt".to_string(),
        "b.png".to_string(),
        "dir/c.md".to_string(),
        "dir/d".to_string(),
        "e.TXT".to_string(),
    ];
    let exts = vec!["txt".to_string(), "md".to_string()];
    let kept = discover_files(&files, &exts);
    assert_eq!(
        kept,
        vec!["a.txt".to_string(), "dir/c.md".to_string(), "e.TXT".to_string()]
    );
}

#[test]
fn test_limit_files_takes_prefix() {
    let files = vec!["a".to_string(), "b".to_string(), "c".to_string()];
    assert_eq!(limit_files(files.clone(), 2), vec!["a".to_string(), "b".to_string()]);
    assert_eq!(limit_files(files.clone(), 9), files);
}

#[test]
fn test_display_count_range() {
    assert!(!display_count_accepted(0));
    assert!(display_count_accepted(1));
    assert!(display_count_accepted(200));
    assert!(display_count_accepted(1000));
    assert!(!display_count_accepted(1001));
}

#[test]
fn test_progress_bar_formatting() {
    assert_eq!(format_progress_bar(5, 10, 10), "[=====     ] 50.0% (5/10)");
    assert_eq!(format_progress_bar(0, 10, 4), "[    ] 0.0% (0/10)");
    assert_eq!(format_progress_bar(10, 10, 4), "[====] 100.0% (10/10)");
    assert_eq!(format_progress_bar(3, 0, 3), "[===] 0%");
    assert_eq!(format_progress_bar(1, 3, 6), "[==    ] 33.3% (1/3)");
}

#[test]
fn test_progress_bar_tolerates_overshoot() {
    assert_eq!(format_progress_bar(12, 10, 5), "[=====] 120.0% (12/10)");
}

#[test]
fn test_output_path() {
    assert_eq!(file_analyzer::logger::output_path(), "./src/analysis_results.txt");
}
