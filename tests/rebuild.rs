use needs_rebuild::{start, Action, NeedsRebuildError, ScanOptions, Start, Timestamp};

const OLD: Timestamp = Timestamp { seconds: 1_000, nanos: 0 };
const TARGET: Timestamp = Timestamp { seconds: 2_000, nanos: 500 };
const NEW: Timestamp = Timestamp { seconds: 3_000, nanos: 0 };

/// Drives a check over a walk given as (path, is_dir, modification time),
/// returning the answer and the paths whose time was read.
fn run(
    target: Option<Timestamp>,
    options: &ScanOptions,
    walk: &[(&str, bool, Timestamp)],
) -> (bool, Vec<String>) {
    let mut read = Vec::new();
    let mut scan = match start(target, options) {
        Ok(Start::Rebuild) => return (true, read),
        Ok(Start::Walk(s)) => s,
        Err(_) => panic!("patterns should compile"),
    };
    for (path, is_dir, time) in walk {
        match scan.entry(path, *is_dir) {
            Action::ReadModified => {
                read.push(path.to_string());
                if let Action::Finish(r) = scan.modified(*time) {
                    return (r, read);
                }
            }
            Action::Finish(r) => return (r, read),
            Action::NextEntry => {}
        }
    }
    (scan.finish(), read)
}

fn tree() -> Vec<(&'static str, bool, Timestamp)> {
    vec![
        ("test_files", true, NEW),
        ("test_files/output", true, NEW),
        ("test_files/output/output.txt", false, TARGET),
        ("test_files/main.cpp", false, OLD),
        ("test_files/notes.txt", false, OLD),
    ]
}

fn tree_with_new_file() -> Vec<(&'static str, bool, Timestamp)> {
    let mut t = tree();
    t.push(("test_files/new.foo", false, NEW));
    t
}

#[test]
fn new_file() {
    let mut options = ScanOptions::default();
    options.verbose = true;
    let (rebuild_needed, _) = run(Some(TARGET), &options, &tree());
    assert!(!rebuild_needed);

    let mut options = ScanOptions::default();
    options.verbose = true;
    let (rebuild_needed, _) = run(Some(TARGET), &options.clone(), &tree_with_new_file());
    assert!(rebuild_needed);

    options.patterns(&["**/*.txt", "**/*.cpp"]);
    let (rebuild_needed, _) = run(Some(TARGET), &options, &tree_with_new_file());
    assert!(!rebuild_needed);
}

#[test]
fn target_does_not_exist() {
    let options = ScanOptions::default();
    let (rebuild_needed, read) = run(None, &options, &tree());
    assert!(rebuild_needed);
    assert!(read.is_empty());
}

#[test]
fn filter_patterns() {
    let mut options = ScanOptions::default();
    options.patterns(&["*.c"]);
    options.verbose = true;
    let (rebuild_needed, read) = run(Some(TARGET), &options, &tree_with_new_file());
    assert!(!rebuild_needed);
    assert!(read.is_empty());
}

#[test]
fn missing_target_ignores_malformed_patterns() {
    let options = ScanOptions::new(&["["]);
    assert!(matches!(start(None, &options), Ok(Start::Rebuild)));
}

#[test]
fn malformed_pattern_is_an_error() {
    let options = ScanOptions::new(&["**/*.rs", "["]);
    assert!(matches!(
        start(Some(TARGET), &options),
        Err(NeedsRebuildError::PatternError(_))
    ));
    assert!(matches!(options.matcher(), Err(NeedsRebuildError::PatternError(_))));
}

#[test]
fn newer_selected_file_answers_rebuild() {
    let options = ScanOptions::new(&["**/*.cpp"]);
    let walk = vec![("src/a.cpp", false, Timestamp::new(2_000, 501))];
    assert_eq!(run(Some(TARGET), &options, &walk).0, true);
}

#[test]
fn equal_time_is_not_newer() {
    let options = ScanOptions::default();
    let walk = vec![("src/a.cpp", false, TARGET), ("src/b.cpp", false, OLD)];
    assert_eq!(run(Some(TARGET), &options, &walk).0, false);
    assert!(!TARGET.newer_than(&TARGET));
    assert!(Timestamp::new(2_000, 501).newer_than(&TARGET));
    assert!(!Timestamp::new(1_999, 999_999_999).newer_than(&TARGET));
}

#[test]
fn narrowing_patterns_flips_answer() {
    let walk = vec![
        ("src/a.cpp", false, OLD),
        ("src/gen.foo", false, NEW),
    ];
    let mut options = ScanOptions::new(&["**/*.cpp", "**/*.foo"]);
    assert!(run(Some(TARGET), &options, &walk).0);
    options.patterns(&["**/*.cpp"]);
    assert!(!run(Some(TARGET), &options, &walk).0);
}

#[test]
fn directories_and_unmatched_files_are_not_read() {
    let options = ScanOptions::new(&["*.c"]);
    let walk = vec![
        ("src", true, NEW),
        ("src/dir.c", true, NEW),
        ("src/a.h", false, NEW),
        ("src/a.c", false, OLD),
    ];
    let (rebuild_needed, read) = run(Some(TARGET), &options, &walk);
    assert!(!rebuild_needed);
    assert_eq!(read, vec!["src/a.c".to_string()]);
}

#[test]
fn walk_stops_at_first_newer_file() {
    let options = ScanOptions::default();
    let walk = vec![
        ("src/a.rs", false, NEW),
        ("src/b.rs", false, NEW),
    ];
    let (rebuild_needed, read) = run(Some(TARGET), &options, &walk);
    assert!(rebuild_needed);
    assert_eq!(read, vec!["src/a.rs".to_string()]);
}

#[test]
fn empty_tree_needs_no_rebuild() {
    let options = ScanOptions::default();
    assert!(!run(Some(TARGET), &options, &[]).0);
}

#[test]
fn empty_pattern_list_selects_nothing() {
    let options = ScanOptions::new(&[]);
    let walk = vec![("src/a.rs", false, NEW)];
    assert!(!run(Some(TARGET), &options, &walk).0);
}

#[test]
fn default_options() {
    let options = ScanOptions::default();
    assert_eq!(options.patterns, vec!["**/*".to_string()]);
    assert!(!options.verbose);
    assert!(!options.follow_links);
    assert!(options.follow_root_links);
    assert_eq!(options.max_depth, None);
    assert_eq!(options.max_open_files, None);
    assert!(!options.same_file_system);
}

#[test]
fn new_keeps_patterns_in_order() {
    let options = ScanOptions::new(&["*.c", "*.h"]);
    assert_eq!(options.patterns, vec!["*.c".to_string(), "*.h".to_string()]);
    assert!(options.follow_root_links);
}

#[test]
fn setters_and_traversal() {
    let mut options = ScanOptions::default();
    let t = options.traversal();
    assert_eq!(t.max_depth, None);
    assert_eq!(t.max_open, None);
    assert!(t.follow_root_links);
    options.max_depth(3);
    options.max_open_files(0);
    options.follow_links = true;
    let t = options.traversal();
    assert_eq!(t.max_depth, Some(3));
    assert_eq!(t.max_open, Some(1));
    assert!(t.follow_links);
    options.max_open_files(12);
    assert_eq!(options.traversal().max_open, Some(12));
    assert_eq!(options.max_open_files, Some(12));
}
