use coding_agent::logging::{Level, LevelFilter, LogEntry};
use coding_agent::ui::completer::FileReferenceCompleter;
use coding_agent::ui::prompt::FileSelector;
use coding_agent::ui::tui::autocomplete::{FileAutocomplete, FileInfo};
use coding_agent::ui::tui::debug_panel::DebugPanel;
use coding_agent::ui::tui_selector::TuiFileSelector;

const ROOT: &str = "/tmp/test_autocomplete";

fn entry(relative_path: &str, is_dir: bool, depth: usize) -> FileInfo {
    let name = relative_path.rsplit('/').next().unwrap().to_string();
    FileInfo {
        name,
        path: format!("{}/{}", ROOT, relative_path),
        is_dir,
        relative_path: relative_path.to_string(),
        depth,
    }
}

/// The entries a depth-limited walk of the sample project yields, in walk order.
fn sample_walk() -> Vec<FileInfo> {
    vec![
        entry("README.md", false, 1),
        entry("src", true, 1),
        entry("src/main.rs", false, 2),
        entry("src/ui", true, 2),
        entry("src/ui/view.rs", false, 3),
        entry("tests", true, 1),
        entry("tests/basic.rs", false, 2),
    ]
}

fn log_entry(message: &str, module: Option<&str>) -> LogEntry {
    LogEntry {
        level: Level::Info,
        module: module.map(|m| m.to_string()),
        message: message.to_string(),
        timestamp: "12:00:00.000".to_string(),
    }
}

#[test]
fn test_completer_creation() {
    let _: FileReferenceCompleter;
}

#[test]
fn test_file_selector_exists() {
    let _: FileSelector;
}

#[test]
fn test_tui_selector_creation() {
    let _: TuiFileSelector;
}

#[test]
fn test_recursive_search() {
    let autocomplete = FileAutocomplete::new(ROOT, sample_walk());

    assert!(!autocomplete.is_empty(), "Should find files");

    let has_subdir_file = autocomplete
        .suggestions()
        .iter()
        .any(|f| f.relative_path.contains("src/") || f.relative_path.contains("tests/"));
    assert!(has_subdir_file, "Should find files in subdirectories");
}

#[test]
fn test_filter_with_relative_path() {
    let mut autocomplete = FileAutocomplete::new(ROOT, sample_walk());

    autocomplete.update_filter("src".to_string(), sample_walk());

    assert!(!autocomplete.is_empty(), "Should find files matching 'src'");

    for file in autocomplete.suggestions() {
        assert!(
            file.relative_path.to_lowercase().contains("src"),
            "All results should contain 'src' in path: {}",
            file.relative_path
        );
    }
}

#[test]
fn test_depth_limit() {
    let autocomplete = FileAutocomplete::new(ROOT, sample_walk());

    for file in autocomplete.suggestions() {
        assert!(
            file.depth <= 4,
            "File depth should not exceed 4: {} has depth {}",
            file.relative_path,
            file.depth
        );
    }
}

#[test]
fn test_directory_sorting() {
    let autocomplete = FileAutocomplete::new(ROOT, sample_walk());
    let suggestions = autocomplete.suggestions();

    let first_dir = suggestions.iter().find(|f| f.is_dir);
    let first_file = suggestions.iter().find(|f| !f.is_dir);

    if let (Some(dir), Some(file)) = (first_dir, first_file) {
        let dir_idx = suggestions.iter().position(|f| f.path == dir.path).unwrap();
        let file_idx = suggestions.iter().position(|f| f.path == file.path).unwrap();
        assert!(dir_idx < file_idx, "Directories should come before files");
    }
}

#[test]
fn test_debug_panel_creation() {
    let panel = DebugPanel::new(100);
    assert_eq!(panel.max_entries(), 100);
    assert!(panel.is_empty());
    assert_eq!(panel.level_filter(), LevelFilter::Info);
}

#[test]
fn test_add_log() {
    let mut panel = DebugPanel::new(10);
    panel.add_log(log_entry("Test message", Some("test")));
    assert!(!panel.is_empty());
}

#[test]
fn test_clear() {
    let mut panel = DebugPanel::new(10);
    panel.add_log(log_entry("Test", None));
    panel.clear();
    assert!(panel.is_empty());
}

#[test]
fn test_cycle_level_filter() {
    let mut panel = DebugPanel::new(10);
    assert_eq!(panel.level_filter(), LevelFilter::Info);

    panel.cycle_level_filter();
    assert_eq!(panel.level_filter(), LevelFilter::Debug);

    panel.cycle_level_filter();
    assert_eq!(panel.level_filter(), LevelFilter::Trace);

    panel.cycle_level_filter();
    assert_eq!(panel.level_filter(), LevelFilter::Off);
}

#[test]
fn test_max_entries_limit() {
    let mut panel = DebugPanel::new(5);

    for i in 0..10 {
        panel.add_log(log_entry(&format!("Message {}", i), None));
    }

    assert_eq!(panel.log_count(), 5);
}
